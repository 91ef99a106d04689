use vstd::prelude::*;

use vstd::arithmetic::div_mod::lemma_fundamental_div_mod_converse;

use crate::hex::{
    hex2, hex4, hex_value, is_hex_char, lemma_hex2_round_trip, lemma_hex4_round_trip, push_hex2,
    push_hex4,
};

verus! {

/// Width of the logical canvas that addresses are placed on.
pub const MAX_X: u64 = 1920;

/// Height of the logical canvas that addresses are placed on.
pub const MAX_Y: u64 = 1080;

/// A `height x width` grid of RGBA pixels, stored row by row, four bytes per pixel.
pub struct PixelGrid {
    pub width: u32,
    pub height: u32,
    pub rgba: Vec<u8>,
}

/// Where the top-left pixel of a grid lands on the canvas.
#[derive(Clone, Copy, Debug, PartialEq, Eq, Structural)]
pub struct CanvasPlacement {
    pub offset_x: u64,
    pub offset_y: u64,
}

/// Why a batch of addresses could not be produced.
#[derive(Clone, Copy, Debug, PartialEq, Eq, Structural)]
pub enum BatchError {
    /// The image bytes could not be decoded.
    Decode,
    /// The grid, placed at the offset, does not fit on the canvas.
    OutOfCanvas,
    /// The prefix is not four groups of four hex digits.
    InvalidPrefix,
}

impl PixelGrid {
    pub open spec fn wf(&self) -> bool {
        self.rgba@.len() == 4 * (self.width as nat) * (self.height as nat)
    }

    pub open spec fn pixel_count(&self) -> nat {
        (self.width as nat) * (self.height as nat)
    }

    /// A grid from its dimensions and raw RGBA bytes; `None` when the byte count is not
    /// four per pixel.
    pub fn new(width: u32, height: u32, rgba: Vec<u8>) -> (r: Option<PixelGrid>)
        ensures
            r is Some <==> rgba@.len() == 4 * (width as nat) * (height as nat),
            r matches Some(g) ==> g.width == width && g.height == height && g.rgba@ == rgba@,
    {
        proof {
            assert((width as nat) * (height as nat) <= 0xffff_ffff * 0xffff_ffff) by (nonlinear_arith)
                requires
                    width <= 0xffff_ffff,
                    height <= 0xffff_ffff,
            ;
            assert(4 * (width as nat) * (height as nat) == 4 * ((width as nat) * (height as nat)))
                by (nonlinear_arith);
        }
        let wh: u64 = (width as u64) * (height as u64);
        let expected: u128 = 4u128 * (wh as u128);
        if rgba.len() as u128 == expected {
            Some(PixelGrid { width, height, rgba })
        } else {
            None
        }
    }

    pub fn width(&self) -> (r: u32)
        ensures
            r == self.width,
    {
        self.width
    }

    pub fn height(&self) -> (r: u32)
        ensures
            r == self.height,
    {
        self.height
    }
}

/// Whether a `width x height` grid placed at `p` lies within the canvas.
pub open spec fn fits_canvas(p: CanvasPlacement, width: nat, height: nat) -> bool {
    p.offset_x + width <= MAX_X && p.offset_y + height <= MAX_Y
}

/// Whether `s` is four colon-separated groups of exactly four hex digits.
pub open spec fn valid_prefix(s: Seq<char>) -> bool {
    &&& s.len() == 19
    &&& forall|i: int|
        0 <= i < 19 ==> if i % 5 == 4 {
            s[i] == ':'
        } else {
            is_hex_char(#[trigger] s[i])
        }
}

/// The address for one pixel: the prefix, then the canvas column and row, then blue and
/// green, then red and alpha, each group four hex digits.
pub open spec fn address_of(
    prefix: Seq<char>,
    x: nat,
    y: nat,
    r: u8,
    g: u8,
    b: u8,
    a: u8,
) -> Seq<char> {
    prefix + seq![':'] + hex4(x) + seq![':'] + hex4(y) + seq![':'] + hex2(b as nat) + hex2(
        g as nat,
    ) + seq![':'] + hex2(r as nat) + hex2(a as nat)
}

/// The address of the pixel at row-major index `k` of a grid `width` pixels wide, with
/// RGBA bytes `rgba`, placed at `p`.
pub open spec fn pixel_address(
    width: nat,
    rgba: Seq<u8>,
    p: CanvasPlacement,
    prefix: Seq<char>,
    k: int,
) -> Seq<char> {
    let w = width as int;
    address_of(
        prefix,
        (p.offset_x + k % w) as nat,
        (p.offset_y + k / w) as nat,
        rgba[4 * k],
        rgba[4 * k + 1],
        rgba[4 * k + 2],
        rgba[4 * k + 3],
    )
}

/// Every pixel's address, in row-major scan order.
pub open spec fn grid_addresses(
    width: nat,
    height: nat,
    rgba: Seq<u8>,
    p: CanvasPlacement,
    prefix: Seq<char>,
) -> Seq<Seq<char>> {
    Seq::new(width * height, |k: int| pixel_address(width, rgba, p, prefix, k))
}

/// The text of each string in `v`.
pub open spec fn texts(v: Seq<String>) -> Seq<Seq<char>> {
    v.map_values(|s: String| s@)
}

/// Relies on `FromIterator<char>` for `String`: collecting characters keeps them in order.
#[verifier::external_body]
fn string_from_chars(chars: &Vec<char>) -> (r: String)
    ensures
        r@ == chars@,
{
    chars.iter().collect::<String>()
}

/// Checks that `prefix` is four colon-separated groups of four hex digits.
pub fn is_valid_prefix(prefix: &str) -> (r: bool)
    ensures
        r == valid_prefix(prefix@),
{
    let n = prefix.unicode_len();
    if n != 19 {
        return false;
    }
    let mut i: usize = 0;
    while i < 19
        invariant
            n == 19,
            prefix@.len() == 19,
            i <= 19,
            forall|k: int|
                0 <= k < i ==> if k % 5 == 4 {
                    prefix@[k] == ':'
                } else {
                    is_hex_char(#[trigger] prefix@[k])
                },
        decreases 19 - i,
    {
        let c = prefix.get_char(i);
        let ok = if i % 5 == 4 {
            c == ':'
        } else {
            ('0' <= c && c <= '9') || ('a' <= c && c <= 'f') || ('A' <= c && c <= 'F')
        };
        if !ok {
            assert(!(if (i as int) % 5 == 4 {
                prefix@[i as int] == ':'
            } else {
                is_hex_char(prefix@[i as int])
            }));
            return false;
        }
        i = i + 1;
    }
    true
}

/// The address for one pixel at canvas position `(x, y)`, whose prefix characters are
/// `prefix`.
pub fn encode_pixel(prefix: &Vec<char>, x: u64, y: u64, r: u8, g: u8, b: u8, a: u8) -> (s: String)
    ensures
        s@ == address_of(prefix@, x as nat, y as nat, r, g, b, a),
{
    let mut out: Vec<char> = prefix.clone();
    out.push(':');
    push_hex4(&mut out, x);
    out.push(':');
    push_hex4(&mut out, y);
    out.push(':');
    push_hex2(&mut out, b);
    push_hex2(&mut out, g);
    out.push(':');
    push_hex2(&mut out, r);
    push_hex2(&mut out, a);
    assert(out@ =~= address_of(prefix@, x as nat, y as nat, r, g, b, a));
    string_from_chars(&out)
}

/// The characters of `s`, in order.
fn chars_of(s: &str) -> (r: Vec<char>)
    ensures
        r@ == s@,
{
    let n = s.unicode_len();
    let mut out: Vec<char> = Vec::new();
    let mut i: usize = 0;
    while i < n
        invariant
            n == s@.len(),
            i <= n,
            out@ =~= s@.subrange(0, i as int),
        decreases n - i,
    {
        out.push(s.get_char(i));
        i = i + 1;
    }
    out
}

/// `s` with every double-quote character taken out.
pub open spec fn without_quotes(s: Seq<char>) -> Seq<char> {
    s.filter(|c: char| c != '"')
}

/// Takes every double quote out of a prefix as a server hands it over.
pub fn strip_quotes(s: &str) -> (r: String)
    ensures
        r@ == without_quotes(s@),
{
    let n = s.unicode_len();
    let mut out: Vec<char> = Vec::new();
    let mut i: usize = 0;
    while i < n
        invariant
            n == s@.len(),
            i <= n,
            out@ == without_quotes(s@.subrange(0, i as int)),
        decreases n - i,
    {
        let c = s.get_char(i);
        proof {
            let next = s@.subrange(0, i + 1);
            assert(next.drop_last() =~= s@.subrange(0, i as int));
            reveal(Seq::filter);
        }
        if c != '"' {
            out.push(c);
        }
        i = i + 1;
    }
    assert(s@.subrange(0, n as int) =~= s@);
    string_from_chars(&out)
}

/// Encodes every pixel of `grid`, placed at `placement`, as an address under `prefix`, in
/// row-major scan order. The placement is checked first, then the prefix; no address is
/// produced when either fails.
pub fn encode_addresses(grid: &PixelGrid, placement: CanvasPlacement, prefix: &str) -> (r: Result<
    Vec<String>,
    BatchError,
>)
    requires
        grid.wf(),
    ensures
        !fits_canvas(placement, grid.width as nat, grid.height as nat) ==> r == Err::<
            Vec<String>,
            BatchError,
        >(BatchError::OutOfCanvas),
        fits_canvas(placement, grid.width as nat, grid.height as nat) && !valid_prefix(prefix@)
            ==> r == Err::<Vec<String>, BatchError>(BatchError::InvalidPrefix),
        fits_canvas(placement, grid.width as nat, grid.height as nat) && valid_prefix(prefix@)
            ==> (r matches Ok(v) && texts(v@) == grid_addresses(grid.width as nat, grid.height as nat, grid.rgba@, placement, prefix@)),
{
    let w: u32 = grid.width;
    let h: u32 = grid.height;
    if placement.offset_x > MAX_X || w as u64 > MAX_X - placement.offset_x || placement.offset_y
        > MAX_Y || h as u64 > MAX_Y - placement.offset_y {
        return Err(BatchError::OutOfCanvas);
    }
    if !is_valid_prefix(prefix) {
        return Err(BatchError::InvalidPrefix);
    }
    let pre: Vec<char> = chars_of(prefix);
    let mut out: Vec<String> = Vec::new();
    let mut i: u32 = 0;
    while i < h
        invariant
            grid.wf(),
            w == grid.width,
            h == grid.height,
            w <= MAX_X,
            h <= MAX_Y,
            fits_canvas(placement, w as nat, h as nat),
            pre@ == prefix@,
            i <= h,
            out@.len() == (i as int) * (w as int),
            forall|m: int|
                0 <= m < out@.len() ==> (#[trigger] out@[m])@ == pixel_address(
                    grid.width as nat,
                    grid.rgba@,
                    placement,
                    prefix@,
                    m,
                ),
        decreases h - i,
    {
        let mut j: u32 = 0;
        while j < w
            invariant
                grid.wf(),
                w == grid.width,
                h == grid.height,
                w <= MAX_X,
                h <= MAX_Y,
                fits_canvas(placement, w as nat, h as nat),
                pre@ == prefix@,
                i < h,
                j <= w,
                out@.len() == (i as int) * (w as int) + j,
                forall|m: int|
                    0 <= m < out@.len() ==> (#[trigger] out@[m])@ == pixel_address(
                        grid.width as nat,
                        grid.rgba@,
                        placement,
                        prefix@,
                        m,
                    ),
            decreases w - j,
        {
            proof {
                assert((i as int) * (w as int) + j < (h as int) * (w as int)) by (nonlinear_arith)
                    requires
                        i < h,
                        j < w,
                ;
                assert(4 * (w as nat) * (h as nat) == 4 * ((h as int) * (w as int)))
                    by (nonlinear_arith);
                assert((h as int) * (w as int) <= MAX_X * MAX_Y) by (nonlinear_arith)
                    requires
                        w <= MAX_X,
                        h <= MAX_Y,
                ;
                lemma_fundamental_div_mod_converse(
                    (i as int) * (w as int) + j,
                    w as int,
                    i as int,
                    j as int,
                );
            }
            let k: usize = (i as usize) * (w as usize) + (j as usize);
            let base: usize = 4 * k;
            let red = grid.rgba[base];
            let green = grid.rgba[base + 1];
            let blue = grid.rgba[base + 2];
            let alpha = grid.rgba[base + 3];
            let addr = encode_pixel(
                &pre,
                placement.offset_x + j as u64,
                placement.offset_y + i as u64,
                red,
                green,
                blue,
                alpha,
            );
            out.push(addr);
            j = j + 1;
        }
        proof {
            assert((i as int) * (w as int) + w == ((i + 1) as int) * (w as int)) by (nonlinear_arith);
        }
        i = i + 1;
    }
    proof {
        assert(texts(out@) =~= grid_addresses(grid.width as nat, grid.height as nat, grid.rgba@, placement, prefix@)) by {
            assert(out@.len() == grid.pixel_count()) by (nonlinear_arith)
                requires
                    out@.len() == (h as int) * (w as int),
                    grid.pixel_count() == (grid.width as nat) * (grid.height as nat),
                    w == grid.width,
                    h == grid.height,
            ;
        }
    }
    Ok(out)
}

/// Encoding is deterministic: two encodings of the same grid, placement and prefix, each
/// meeting `encode_addresses`'s contract, hold the same addresses in the same order.
pub proof fn lemma_encoding_deterministic(
    width: nat,
    height: nat,
    rgba: Seq<u8>,
    p: CanvasPlacement,
    prefix: Seq<char>,
    first: Seq<String>,
    second: Seq<String>,
)
    requires
        texts(first) == grid_addresses(width, height, rgba, p, prefix),
        texts(second) == grid_addresses(width, height, rgba, p, prefix),
    ensures
        texts(first) == texts(second),
        first.len() == width * height,
{
    assert(first.len() == texts(first).len());
}

/// An address can be read back: for a pixel `(j, i)` of a `width x height` grid that fits
/// the canvas at `p`, the last four groups of its address give the canvas column
/// `offset_x + j`, the row `offset_y + i`, then blue and green, then red and alpha.
pub proof fn lemma_address_round_trip(
    prefix: Seq<char>,
    p: CanvasPlacement,
    width: nat,
    height: nat,
    j: nat,
    i: nat,
    r: u8,
    g: u8,
    b: u8,
    a: u8,
)
    requires
        valid_prefix(prefix),
        fits_canvas(p, width, height),
        j < width,
        i < height,
    ensures
        ({
            let s = address_of(prefix, (p.offset_x + j) as nat, (p.offset_y + i) as nat, r, g, b, a);
            &&& s.len() == 39
            &&& s.subrange(0, 19) == prefix
            &&& s[19] == ':' && s[24] == ':' && s[29] == ':' && s[34] == ':'
            &&& hex_value(s.subrange(20, 24)) == p.offset_x + j
            &&& hex_value(s.subrange(25, 29)) == p.offset_y + i
            &&& hex_value(s.subrange(30, 32)) == b
            &&& hex_value(s.subrange(32, 34)) == g
            &&& hex_value(s.subrange(35, 37)) == r
            &&& hex_value(s.subrange(37, 39)) == a
        }),
{
    let x = (p.offset_x + j) as nat;
    let y = (p.offset_y + i) as nat;
    let s = address_of(prefix, x, y, r, g, b, a);
    lemma_hex4_round_trip(x);
    lemma_hex4_round_trip(y);
    lemma_hex2_round_trip(b as nat);
    lemma_hex2_round_trip(g as nat);
    lemma_hex2_round_trip(r as nat);
    lemma_hex2_round_trip(a as nat);
    assert(s.subrange(0, 19) =~= prefix);
    assert(s.subrange(20, 24) =~= hex4(x));
    assert(s.subrange(25, 29) =~= hex4(y));
    assert(s.subrange(30, 32) =~= hex2(b as nat));
    assert(s.subrange(32, 34) =~= hex2(g as nat));
    assert(s.subrange(35, 37) =~= hex2(r as nat));
    assert(s.subrange(37, 39) =~= hex2(a as nat));
}

} // verus!
