use chachiprint::address::{
    encode_addresses, encode_pixel, is_valid_prefix, strip_quotes, BatchError, CanvasPlacement,
    PixelGrid,
};
use chachiprint::batch::{build_batch, shuffle_addresses};

const PREFIX: &str = "2001:0db8:0000:0000";

fn placement(x: u64, y: u64) -> CanvasPlacement {
    CanvasPlacement { offset_x: x, offset_y: y }
}

fn png_bytes(width: u32, height: u32, rgba: Vec<u8>) -> Vec<u8> {
    let img = image::RgbaImage::from_raw(width, height, rgba).unwrap();
    let mut out = std::io::Cursor::new(Vec::new());
    img.write_to(&mut out, image::ImageFormat::Png).unwrap();
    out.into_inner()
}

fn sorted(mut v: Vec<String>) -> Vec<String> {
    v.sort();
    v
}

#[test]
fn single_pixel_address() {
    let grid = PixelGrid::new(1, 1, vec![0x12, 0x34, 0x56, 0x78]).unwrap();
    let out = encode_addresses(&grid, placement(5, 9), PREFIX).unwrap();
    assert_eq!(out, vec!["2001:0db8:0000:0000:0005:0009:5634:1278".to_string()]);
}

#[test]
fn empty_image_yields_no_addresses() {
    let grid = PixelGrid::new(0, 0, vec![]).unwrap();
    let out = encode_addresses(&grid, placement(0, 0), PREFIX).unwrap();
    assert!(out.is_empty());
}

#[test]
fn grid_needs_four_bytes_per_pixel() {
    assert!(PixelGrid::new(2, 1, vec![0; 7]).is_none());
    assert!(PixelGrid::new(2, 1, vec![0; 8]).is_some());
}

#[test]
fn addresses_follow_row_major_order() {
    let rgba = vec![
        1, 2, 3, 4, 5, 6, 7, 8, //
        9, 10, 11, 12, 13, 14, 15, 16,
    ];
    let grid = PixelGrid::new(2, 2, rgba).unwrap();
    let out = encode_addresses(&grid, placement(0x10, 0x20), PREFIX).unwrap();
    assert_eq!(
        out,
        vec![
            "2001:0db8:0000:0000:0010:0020:0302:0104".to_string(),
            "2001:0db8:0000:0000:0011:0020:0706:0508".to_string(),
            "2001:0db8:0000:0000:0010:0021:0b0a:090c".to_string(),
            "2001:0db8:0000:0000:0011:0021:0f0e:0d10".to_string(),
        ]
    );
}

#[test]
fn encoding_is_deterministic() {
    let rgba: Vec<u8> = (0..24).collect();
    let grid = PixelGrid::new(3, 2, rgba).unwrap();
    let first = encode_addresses(&grid, placement(100, 200), PREFIX).unwrap();
    let second = encode_addresses(&grid, placement(100, 200), PREFIX).unwrap();
    assert_eq!(first, second);
    assert_eq!(first.len(), 6);
}

#[test]
fn addresses_read_back() {
    let addr = encode_pixel(&PREFIX.chars().collect(), 1919, 1079, 0xab, 0xcd, 0xef, 0x01);
    let groups: Vec<&str> = addr.split(':').collect();
    assert_eq!(groups.len(), 8);
    let values: Vec<u16> = groups[4..].iter().map(|g| u16::from_str_radix(g, 16).unwrap()).collect();
    assert_eq!(values, vec![1919, 1079, 0xefcd, 0xab01]);
    assert!(groups.iter().all(|g| g.len() == 4 && g.chars().all(|c| c.is_ascii_hexdigit())));
}

#[test]
fn placement_at_the_edge_is_accepted() {
    let grid = PixelGrid::new(2, 3, vec![0; 24]).unwrap();
    assert_eq!(encode_addresses(&grid, placement(1918, 1077), PREFIX).unwrap().len(), 6);
}

#[test]
fn placement_past_the_edge_is_rejected() {
    let grid = PixelGrid::new(2, 3, vec![0; 24]).unwrap();
    assert_eq!(encode_addresses(&grid, placement(1919, 0), PREFIX), Err(BatchError::OutOfCanvas));
    assert_eq!(encode_addresses(&grid, placement(0, 1078), PREFIX), Err(BatchError::OutOfCanvas));
    assert_eq!(
        encode_addresses(&grid, placement(u64::MAX, 0), "bad"),
        Err(BatchError::OutOfCanvas)
    );
}

#[test]
fn malformed_prefix_is_rejected() {
    let grid = PixelGrid::new(1, 1, vec![0; 4]).unwrap();
    for bad in ["2001:0db8:0000", "2001:0db8:0000:000g", "2001:db8:0000:00000", "2001-0db8-0000-0000", ""] {
        assert!(!is_valid_prefix(bad));
        assert_eq!(encode_addresses(&grid, placement(0, 0), bad), Err(BatchError::InvalidPrefix));
    }
    assert!(is_valid_prefix("FFFF:abcd:0123:9999"));
}

#[test]
fn quotes_are_stripped() {
    assert_eq!(strip_quotes("\"2001:0db8:0000:0000\""), "2001:0db8:0000:0000");
    assert_eq!(strip_quotes("a\"b\"\"c"), "abc");
    assert_eq!(strip_quotes(""), "");
}

#[test]
fn shuffle_keeps_every_address() {
    let mut v: Vec<String> = (0..50).map(|i| format!("a{}", i % 7)).collect();
    let before = sorted(v.clone());
    shuffle_addresses(&mut v);
    assert_eq!(sorted(v), before);
}

#[test]
fn batch_from_image_bytes() {
    let png = png_bytes(1, 1, vec![0x12, 0x34, 0x56, 0x78]);
    let batch = build_batch(&png, 1, 1, placement(5, 9), PREFIX).unwrap();
    assert_eq!(batch, vec!["2001:0db8:0000:0000:0005:0009:5634:1278".to_string()]);
}

#[test]
fn batch_resizes_to_the_scale() {
    let png = png_bytes(1, 1, vec![1, 2, 3, 4]);
    let batch = sorted(build_batch(&png, 2, 2, placement(0, 0), PREFIX).unwrap());
    assert_eq!(
        batch,
        vec![
            "2001:0db8:0000:0000:0000:0000:0302:0104".to_string(),
            "2001:0db8:0000:0000:0000:0001:0302:0104".to_string(),
            "2001:0db8:0000:0000:0001:0000:0302:0104".to_string(),
            "2001:0db8:0000:0000:0001:0001:0302:0104".to_string(),
        ]
    );
}

#[test]
fn batch_errors() {
    let png = png_bytes(1, 1, vec![1, 2, 3, 4]);
    assert_eq!(build_batch(&vec![1, 2, 3], 1, 1, placement(0, 0), PREFIX), Err(BatchError::Decode));
    assert_eq!(build_batch(&png, 1921, 1, placement(0, 0), PREFIX), Err(BatchError::OutOfCanvas));
    assert_eq!(build_batch(&png, 1, 1, placement(0, 0), "2001"), Err(BatchError::InvalidPrefix));
}

#[test]
fn empty_scale_yields_empty_batch() {
    let png = png_bytes(1, 1, vec![1, 2, 3, 4]);
    assert!(build_batch(&png, 0, 0, placement(0, 0), PREFIX).unwrap().is_empty());
}

#[test]
fn refreshed_batches_share_content() {
    let rgba: Vec<u8> = (0..64).collect();
    let png = png_bytes(4, 4, rgba);
    let first = build_batch(&png, 4, 4, placement(10, 10), PREFIX).unwrap();
    let second = build_batch(&png, 4, 4, placement(10, 10), PREFIX).unwrap();
    assert_eq!(first.len(), 16);
    assert_eq!(sorted(first), sorted(second));
}
