use glscaffold::image::{Image, ImageFormat};
use glscaffold::texture::TextureFormat;

fn encode_png(image: image::DynamicImage) -> Vec<u8> {
    let mut bytes: Vec<u8> = Vec::new();
    image
        .write_to(&mut std::io::Cursor::new(&mut bytes), image::ImageFormat::Png)
        .unwrap();
    bytes
}

#[test]
fn solid_image_decodes_to_every_pixel() {
    let source = image::RgbImage::from_pixel(4, 3, image::Rgb([10, 20, 30]));
    let decoded = Image::from_memory(&encode_png(image::DynamicImage::ImageRgb8(source)))
        .ok()
        .unwrap();
    assert_eq!(decoded.format, ImageFormat::Rgb);
    assert_eq!(decoded.width, 4);
    assert_eq!(decoded.height, 3);
    assert_eq!(decoded.pixels.len(), 4 * 3 * 3);
    for pixel in decoded.pixels.chunks(3) {
        assert_eq!(pixel, &[10, 20, 30]);
    }
}

#[test]
fn decode_flips_rows() {
    let mut source = image::GrayImage::new(2, 3);
    for x in 0..2 {
        source.put_pixel(x, 0, image::Luma([1]));
        source.put_pixel(x, 1, image::Luma([2]));
        source.put_pixel(x, 2, image::Luma([3]));
    }
    let decoded = Image::from_memory(&encode_png(image::DynamicImage::ImageLuma8(source)))
        .ok()
        .unwrap();
    assert_eq!(decoded.format, ImageFormat::R);
    assert_eq!(decoded.pixels, vec![3, 3, 2, 2, 1, 1]);
}

#[test]
fn decode_keeps_alpha_layouts() {
    let source = image::RgbaImage::from_pixel(1, 2, image::Rgba([1, 2, 3, 4]));
    let decoded = Image::from_memory(&encode_png(image::DynamicImage::ImageRgba8(source)))
        .ok()
        .unwrap();
    assert_eq!(decoded.format, ImageFormat::Rgba);
    assert_eq!(decoded.pixels, vec![1, 2, 3, 4, 1, 2, 3, 4]);
    let source = image::GrayAlphaImage::from_pixel(1, 1, image::LumaA([7, 8]));
    let decoded = Image::from_memory(&encode_png(image::DynamicImage::ImageLumaA8(source)))
        .ok()
        .unwrap();
    assert_eq!(decoded.format, ImageFormat::Ra);
    assert_eq!(decoded.pixels, vec![7, 8]);
}

#[test]
fn undecodable_bytes_fail() {
    match Image::from_memory(b"not an image") {
        Err(e) => assert_eq!(e.message, "Failed to decode image"),
        Ok(_) => panic!("garbage decoded"),
    }
}

#[test]
fn decoded_pixels_must_fill_the_size() {
    assert!(Image::from_decoded(ImageFormat::Rgb, 2, 2, vec![0; 11]).is_err());
    let image = Image::from_decoded(ImageFormat::Ra, 1, 2, vec![1, 2, 3, 4]).ok().unwrap();
    assert_eq!(image.pixels, vec![3, 4, 1, 2]);
    let empty = Image::from_decoded(ImageFormat::Rgba, 5, 0, vec![]).ok().unwrap();
    assert_eq!(empty.width, 5);
    assert!(empty.pixels.is_empty());
}

#[test]
fn grey_alpha_has_no_texture_format() {
    assert_eq!(ImageFormat::Ra.to_texture_format(), None);
    assert_eq!(ImageFormat::R.to_texture_format(), Some(TextureFormat::R));
    assert_eq!(ImageFormat::Rgb.to_texture_format(), Some(TextureFormat::Rgb));
    assert_eq!(ImageFormat::Rgba.to_texture_format(), Some(TextureFormat::Rgba));
    assert_eq!(ImageFormat::Ra.channel_count(), 2);
}
