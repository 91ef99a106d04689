use vstd::prelude::*;

use rand::seq::SliceRandom;

use crate::address::{
    encode_addresses, fits_canvas, grid_addresses, texts, valid_prefix, BatchError,
    CanvasPlacement, PixelGrid, MAX_X, MAX_Y,
};

verus! {

/// What `image::load_from_memory` followed by `to_rgba8` gives for a byte string: the
/// width, the height and the RGBA bytes, or nothing when the bytes are not an image.
pub uninterp spec fn decoded_rgba(bytes: Seq<u8>) -> Option<(u32, u32, Seq<u8>)>;

/// What `image::imageops::resize` with the nearest-neighbour filter gives for an RGBA
/// image of the given size, resized to the new size.
pub uninterp spec fn nearest_resized(
    rgba: Seq<u8>,
    width: u32,
    height: u32,
    new_width: u32,
    new_height: u32,
) -> Seq<u8>;

/// Relies on `image::load_from_memory` and `DynamicImage::to_rgba8`: the format is guessed
/// from the bytes, and the RGBA buffer holds four bytes per pixel.
#[verifier::external_body]
fn decode_rgba(bytes: &Vec<u8>) -> (r: Option<(u32, u32, Vec<u8>)>)
    ensures
        r is None ==> decoded_rgba(bytes@) is None,
        r matches Some(t) ==> decoded_rgba(bytes@) == Some((t.0, t.1, t.2@)) && t.2@.len() == 4
            * (t.0 as nat) * (t.1 as nat),
{
    match image::load_from_memory(bytes) {
        Ok(img) => {
            let rgba = img.to_rgba8();
            Some((rgba.width(), rgba.height(), rgba.into_raw()))
        },
        Err(_) => None,
    }
}

/// Relies on `image::imageops::resize` with `FilterType::Nearest`: the result is a
/// `new_width x new_height` RGBA buffer that depends on the source pixels and sizes alone.
#[verifier::external_body]
fn resize_nearest(rgba: &Vec<u8>, width: u32, height: u32, new_width: u32, new_height: u32) -> (r:
    Vec<u8>)
    requires
        rgba@.len() == 4 * (width as nat) * (height as nat),
        new_width <= MAX_X,
        new_height <= MAX_Y,
    ensures
        r@ == nearest_resized(rgba@, width, height, new_width, new_height),
        r@.len() == 4 * (new_width as nat) * (new_height as nat),
{
    let src = image::RgbaImage::from_raw(width, height, rgba.clone()).unwrap();
    image::imageops::resize(&src, new_width, new_height, image::imageops::FilterType::Nearest)
        .into_raw()
}

/// Relies on `rand`'s `SliceRandom::shuffle` with `thread_rng`: a random permutation of the
/// elements.
#[verifier::external_body]
fn shuffle_in_place(v: &mut Vec<String>)
    ensures
        final(v)@.len() == old(v)@.len(),
        texts(final(v)@).to_multiset() == texts(old(v)@).to_multiset(),
{
    v.shuffle(&mut rand::thread_rng());
}

/// Puts the addresses in a random order; every address stays, as often as it was there.
pub fn shuffle_addresses(addresses: &mut Vec<String>)
    ensures
        final(addresses)@.len() == old(addresses)@.len(),
        texts(final(addresses)@).to_multiset() == texts(old(addresses)@).to_multiset(),
{
    shuffle_in_place(addresses);
}

/// The addresses of an image, before shuffling: the decoded image resized to
/// `scale_x x scale_y` and placed at `placement`.
pub open spec fn image_addresses(
    image: Seq<u8>,
    scale_x: u64,
    scale_y: u64,
    placement: CanvasPlacement,
    prefix: Seq<char>,
) -> Seq<Seq<char>>
    recommends
        decoded_rgba(image) is Some,
{
    let (w, h, px) = decoded_rgba(image).unwrap();
    grid_addresses(
        scale_x as nat,
        scale_y as nat,
        nearest_resized(px, w, h, scale_x as u32, scale_y as u32),
        placement,
        prefix,
    )
}

/// One batch from one image acquisition: decodes `image`, checks that a
/// `scale_x x scale_y` grid fits the canvas at `placement` and that `prefix` is valid,
/// resizes, encodes every pixel and shuffles the addresses.
pub fn build_batch(
    image: &Vec<u8>,
    scale_x: u64,
    scale_y: u64,
    placement: CanvasPlacement,
    prefix: &str,
) -> (r: Result<Vec<String>, BatchError>)
    ensures
        decoded_rgba(image@) is None ==> r == Err::<Vec<String>, BatchError>(BatchError::Decode),
        decoded_rgba(image@) is Some && !fits_canvas(placement, scale_x as nat, scale_y as nat)
            ==> r == Err::<Vec<String>, BatchError>(BatchError::OutOfCanvas),
        decoded_rgba(image@) is Some && fits_canvas(placement, scale_x as nat, scale_y as nat)
            && !valid_prefix(prefix@) ==> r == Err::<Vec<String>, BatchError>(
            BatchError::InvalidPrefix,
        ),
        decoded_rgba(image@) is Some && fits_canvas(placement, scale_x as nat, scale_y as nat)
            && valid_prefix(prefix@) ==> (r matches Ok(v) && texts(v@).to_multiset()
            == image_addresses(image@, scale_x, scale_y, placement, prefix@).to_multiset()),
{
    let decoded = decode_rgba(image);
    let (w, h, px) = match decoded {
        Some(t) => t,
        None => {
            return Err(BatchError::Decode);
        },
    };
    if placement.offset_x > MAX_X || scale_x > MAX_X - placement.offset_x || placement.offset_y
        > MAX_Y || scale_y > MAX_Y - placement.offset_y {
        return Err(BatchError::OutOfCanvas);
    }
    let resized = resize_nearest(&px, w, h, scale_x as u32, scale_y as u32);
    let grid = PixelGrid { width: scale_x as u32, height: scale_y as u32, rgba: resized };
    let mut addresses = match encode_addresses(&grid, placement, prefix) {
        Ok(v) => v,
        Err(e) => {
            return Err(e);
        },
    };
    shuffle_addresses(&mut addresses);
    Ok(addresses)
}

/// Two acquisitions of the same unchanged image source give batches with the same
/// addresses, each as often; only their order may differ.
pub proof fn lemma_refresh_same_content(
    image: Seq<u8>,
    scale_x: u64,
    scale_y: u64,
    placement: CanvasPlacement,
    prefix: Seq<char>,
    first: Seq<String>,
    second: Seq<String>,
)
    requires
        texts(first).to_multiset() == image_addresses(
            image,
            scale_x,
            scale_y,
            placement,
            prefix,
        ).to_multiset(),
        texts(second).to_multiset() == image_addresses(
            image,
            scale_x,
            scale_y,
            placement,
            prefix,
        ).to_multiset(),
    ensures
        texts(first).to_multiset() == texts(second).to_multiset(),
        first.len() == second.len(),
{
    vstd::seq_lib::to_multiset_len(texts(first));
    vstd::seq_lib::to_multiset_len(texts(second));
}

} // verus!
