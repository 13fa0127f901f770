use fecc_core::raster::Image;
use fecc_core::types::Rgba;

fn numbered(width: u32, height: u32) -> Image {
    let mut image = Image::new(width, height);
    for y in 0..height {
        for x in 0..width {
            image.put_pixel(x, y, Rgba::new(x as u8, y as u8, 250, 255));
        }
    }
    image
}

#[test]
fn a_new_image_is_fully_transparent() {
    let image = Image::new(3, 2);
    assert_eq!((image.width(), image.height()), (3, 2));
    assert_eq!(image.pixel_count(), 6);
    for i in 0..6 {
        assert_eq!(image.pixel(i), Rgba::new(0, 0, 0, 0));
    }
    let empty = Image::new(0, 7);
    assert_eq!(empty.pixel_count(), 0);
    assert_eq!((empty.width(), empty.height()), (0, 7));
}

#[test]
fn pixels_are_stored_row_by_row() {
    let mut image = Image::new(3, 2);
    image.put_pixel(2, 0, Rgba::new(1, 1, 1, 1));
    image.put_pixel(0, 1, Rgba::new(2, 2, 2, 2));
    assert_eq!(image.pixel(2), Rgba::new(1, 1, 1, 1));
    assert_eq!(image.pixel(3), Rgba::new(2, 2, 2, 2));
    image.set_pixel(5, Rgba::new(3, 3, 3, 3));
    assert_eq!(image.get_pixel(2, 1), Rgba::new(3, 3, 3, 3));
    assert_eq!(image.get_pixel(1, 1), Rgba::new(0, 0, 0, 0));
}

#[test]
fn raw_bytes_round_trip() {
    let data: Vec<u8> = (0..24).collect();
    let image = Image::from_raw(3, 2, &data).unwrap();
    assert_eq!(image.get_pixel(0, 0), Rgba::new(0, 1, 2, 3));
    assert_eq!(image.get_pixel(2, 0), Rgba::new(8, 9, 10, 11));
    assert_eq!(image.get_pixel(0, 1), Rgba::new(12, 13, 14, 15));
    assert_eq!(image.get_pixel(2, 1), Rgba::new(20, 21, 22, 23));
    assert_eq!(image.to_raw(), data);
}

#[test]
fn raw_bytes_must_match_the_size() {
    let data: Vec<u8> = vec![0; 24];
    assert!(Image::from_raw(3, 2, &data).is_some());
    assert!(Image::from_raw(2, 3, &data).is_some());
    assert!(Image::from_raw(3, 3, &data).is_none());
    assert!(Image::from_raw(1, 1, &data).is_none());
    assert!(Image::from_raw(0, 0, &data).is_none());
    assert!(Image::from_raw(0, 5, &vec![]).is_some());
    assert!(Image::from_raw(u32::MAX, u32::MAX, &data).is_none());
}

#[test]
fn sizes_fit_up_to_a_bound() {
    assert!(Image::fits(0, 0));
    assert!(Image::fits(192, 192));
    assert!(Image::fits(u32::MAX, 0));
    assert!(Image::fits(1 << 14, 1 << 14));
    assert!(!Image::fits(u32::MAX, u32::MAX));
    let bound = usize::MAX as u128 / 32;
    let side = 1u32 << 16;
    assert_eq!(Image::fits(side, side), (side as u128) * (side as u128) <= bound);
}

#[test]
fn a_clone_holds_the_same_pixels_apart() {
    let image = numbered(3, 2);
    let mut copy = image.clone();
    assert_eq!(copy.to_raw(), image.to_raw());
    copy.put_pixel(0, 0, Rgba::new(9, 9, 9, 9));
    assert_eq!(image.get_pixel(0, 0), Rgba::new(0, 0, 250, 255));
}

#[test]
fn flipping_reverses_every_row() {
    let image = numbered(3, 2);
    let flipped = image.flip_horizontal();
    assert_eq!((flipped.width(), flipped.height()), (3, 2));
    for y in 0..2 {
        for x in 0..3 {
            assert_eq!(flipped.get_pixel(x, y), image.get_pixel(2 - x, y));
        }
    }
    assert_eq!(flipped.get_pixel(0, 1), Rgba::new(2, 1, 250, 255));
    assert_eq!(flipped.flip_horizontal().to_raw(), image.to_raw());
}

#[test]
fn cropping_cuts_out_a_rectangle() {
    let image = numbered(4, 3);
    let part = image.crop(1, 1, 2, 2);
    assert_eq!((part.width(), part.height()), (2, 2));
    assert_eq!(part.get_pixel(0, 0), Rgba::new(1, 1, 250, 255));
    assert_eq!(part.get_pixel(1, 0), Rgba::new(2, 1, 250, 255));
    assert_eq!(part.get_pixel(0, 1), Rgba::new(1, 2, 250, 255));
    assert_eq!(part.get_pixel(1, 1), Rgba::new(2, 2, 250, 255));
    assert_eq!(image.crop(0, 0, 4, 3).to_raw(), image.to_raw());
    assert_eq!(image.crop(4, 3, 0, 0).pixel_count(), 0);
}

#[test]
fn resizing_by_whole_factors_repeats_pixels() {
    let image = numbered(2, 2);
    let doubled = image.resize_nearest(4, 4);
    assert_eq!((doubled.width(), doubled.height()), (4, 4));
    for y in 0..4 {
        for x in 0..4 {
            assert_eq!(doubled.get_pixel(x, y), image.get_pixel(x / 2, y / 2));
        }
    }
    let same = image.resize_nearest(2, 2);
    assert_eq!(same.to_raw(), image.to_raw());
    let wide = image.resize_nearest(6, 1);
    assert_eq!((wide.width(), wide.height()), (6, 1));
}

#[test]
fn an_opaque_layer_replaces_what_it_covers() {
    let mut bottom = numbered(4, 4);
    let before = bottom.clone();
    let mut top = Image::new(2, 2);
    for i in 0..4 {
        top.set_pixel(i, Rgba::new(200 + i as u8, 0, 0, 255));
    }
    bottom.overlay(&top, 1, 2);
    for y in 0..4u32 {
        for x in 0..4u32 {
            let covered = (1..3).contains(&x) && (2..4).contains(&y);
            let expected = if covered { top.get_pixel(x - 1, y - 2) } else { before.get_pixel(x, y) };
            assert_eq!(bottom.get_pixel(x, y), expected);
        }
    }
}

#[test]
fn a_transparent_layer_changes_nothing() {
    let mut bottom = numbered(3, 3);
    let before = bottom.to_raw();
    let mut top = Image::new(3, 3);
    top.put_pixel(1, 1, Rgba::new(255, 255, 255, 0));
    bottom.overlay(&top, 0, 0);
    assert_eq!(bottom.to_raw(), before);
}

#[test]
fn a_layer_may_reach_over_any_edge() {
    let mut top = Image::new(2, 2);
    for i in 0..4 {
        top.set_pixel(i, Rgba::new(10 * (i as u8 + 1), 0, 0, 255));
    }
    // Top-left corner one pixel up and left of the image: only the layer's last pixel lands.
    let mut bottom = Image::new(2, 2);
    bottom.overlay(&top, -1, -1);
    assert_eq!(bottom.get_pixel(0, 0), Rgba::new(40, 0, 0, 255));
    assert_eq!(bottom.get_pixel(1, 0), Rgba::new(0, 0, 0, 0));
    assert_eq!(bottom.get_pixel(0, 1), Rgba::new(0, 0, 0, 0));
    // Down and right: only the layer's first pixel lands.
    let mut bottom = Image::new(2, 2);
    bottom.overlay(&top, 1, 1);
    assert_eq!(bottom.get_pixel(1, 1), Rgba::new(10, 0, 0, 255));
    assert_eq!(bottom.get_pixel(0, 0), Rgba::new(0, 0, 0, 0));
    // Far away on every side: nothing lands.
    for (x, y) in [(2, 0), (0, 2), (-2, 0), (0, -2), (i64::MAX, 0), (i64::MIN, i64::MIN)] {
        let mut bottom = Image::new(2, 2);
        bottom.overlay(&top, x, y);
        assert_eq!(bottom.to_raw(), vec![0u8; 16]);
    }
}

#[test]
fn a_half_transparent_layer_mixes_with_what_is_below() {
    let mut bottom = Image::new(1, 1);
    bottom.put_pixel(0, 0, Rgba::new(0, 0, 200, 255));
    let mut top = Image::new(1, 1);
    top.put_pixel(0, 0, Rgba::new(200, 0, 0, 128));
    bottom.overlay(&top, 0, 0);
    let mixed = bottom.get_pixel(0, 0);
    assert!(mixed.a >= 254);
    assert!(mixed.r > 90 && mixed.r < 110);
    assert!(mixed.b > 90 && mixed.b < 110);
    assert_eq!(mixed.g, 0);
}

#[test]
fn decoding_reads_an_encoded_image() {
    let mut source = image::RgbaImage::new(2, 1);
    source.put_pixel(0, 0, image::Rgba([1, 2, 3, 4]));
    source.put_pixel(1, 0, image::Rgba([5, 6, 7, 255]));
    let mut bytes: Vec<u8> = Vec::new();
    source
        .write_to(&mut std::io::Cursor::new(&mut bytes), image::ImageFormat::Png)
        .unwrap();
    let decoded = Image::decode(&bytes).unwrap();
    assert_eq!((decoded.width(), decoded.height()), (2, 1));
    assert_eq!(decoded.get_pixel(0, 0), Rgba::new(1, 2, 3, 4));
    assert_eq!(decoded.get_pixel(1, 0), Rgba::new(5, 6, 7, 255));
    assert!(Image::decode(&vec![1, 2, 3]).is_none());
    assert!(Image::decode(&vec![]).is_none());
}

#[test]
fn pixels_must_match_the_size() {
    let pixels = vec![Rgba::new(1, 2, 3, 4), Rgba::new(5, 6, 7, 8)];
    let image = Image::from_pixels(2, 1, pixels.clone()).unwrap();
    assert_eq!((image.width(), image.height()), (2, 1));
    assert_eq!(image.get_pixel(0, 0), Rgba::new(1, 2, 3, 4));
    assert_eq!(image.get_pixel(1, 0), Rgba::new(5, 6, 7, 8));
    assert!(Image::from_pixels(1, 2, pixels.clone()).is_some());
    assert!(Image::from_pixels(1, 1, pixels.clone()).is_none());
    assert!(Image::from_pixels(2, 2, pixels.clone()).is_none());
    assert!(Image::from_pixels(u32::MAX, u32::MAX, pixels).is_none());
    assert!(Image::from_pixels(0, 9, vec![]).is_some());
}
