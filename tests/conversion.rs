use image::{DynamicImage, ImageFormat, ImageOutputFormat, Rgb, RgbImage, Rgba, RgbaImage};
use imgconv::{convert, ConvertError};

fn gradient(width: u32, height: u32) -> DynamicImage {
    let img = RgbImage::from_fn(width, height, |x, y| {
        Rgb([(x * 255 / width) as u8, (y * 255 / height) as u8, ((x + y) % 256) as u8])
    });
    DynamicImage::ImageRgb8(img)
}

fn encoded(img: &DynamicImage, format: ImageOutputFormat) -> Vec<u8> {
    let mut buf = std::io::Cursor::new(Vec::new());
    img.write_to(&mut buf, format).unwrap();
    buf.into_inner()
}

fn png_input() -> Vec<u8> {
    encoded(&gradient(17, 9), ImageOutputFormat::Png)
}

fn check_output(bytes: &[u8], format: ImageFormat, width: u32, height: u32) {
    assert!(!bytes.is_empty());
    assert_eq!(image::guess_format(bytes).unwrap(), format);
    let decoded = image::load_from_memory_with_format(bytes, format).unwrap();
    assert_eq!(decoded.width(), width);
    assert_eq!(decoded.height(), height);
}

#[test]
fn jpeg_output_is_jpeg() {
    let out = convert(&png_input(), Some("jpeg".to_string()), Some(50)).unwrap();
    check_output(&out, ImageFormat::Jpeg, 17, 9);
}

#[test]
fn jpg_token_is_jpeg() {
    let a = convert(&png_input(), Some("jpg".to_string()), Some(70)).unwrap();
    let b = convert(&png_input(), Some("jpeg".to_string()), Some(70)).unwrap();
    assert_eq!(a, b);
    check_output(&a, ImageFormat::Jpeg, 17, 9);
}

#[test]
fn png_output_decodes_with_same_size() {
    let out = convert(&png_input(), Some("png".to_string()), Some(50)).unwrap();
    check_output(&out, ImageFormat::Png, 17, 9);
}

#[test]
fn webp_output_decodes_with_same_size() {
    let out = convert(&png_input(), Some("webp".to_string()), Some(50)).unwrap();
    check_output(&out, ImageFormat::WebP, 17, 9);
}

#[test]
fn every_format_at_quality_bounds() {
    let input = encoded(&gradient(8, 8), ImageOutputFormat::Jpeg(90));
    for (token, format) in [
        ("jpeg", ImageFormat::Jpeg),
        ("png", ImageFormat::Png),
        ("webp", ImageFormat::WebP),
    ] {
        for q in [0, 1, 100] {
            let out = convert(&input, Some(token.to_string()), Some(q)).unwrap();
            check_output(&out, format, 8, 8);
        }
    }
}

#[test]
fn png_differs_from_lossless_encode() {
    let img = gradient(17, 9);
    let lossless = encoded(&img, ImageOutputFormat::Png);
    let out = convert(&lossless, Some("png".to_string()), Some(10)).unwrap();
    let back = image::load_from_memory(&out).unwrap();
    assert_ne!(back.to_rgb8().into_raw(), img.to_rgb8().into_raw());
}

#[test]
fn quality_below_zero_acts_as_zero() {
    let input = png_input();
    for token in ["jpeg", "png", "webp"] {
        let low = convert(&input, Some(token.to_string()), Some(-50)).unwrap();
        let zero = convert(&input, Some(token.to_string()), Some(0)).unwrap();
        assert_eq!(low, zero);
    }
}

#[test]
fn quality_above_one_acts_as_one() {
    let input = png_input();
    for token in ["jpeg", "png", "webp"] {
        let high = convert(&input, Some(token.to_string()), Some(250)).unwrap();
        let full = convert(&input, Some(token.to_string()), Some(100)).unwrap();
        assert_eq!(high, full);
    }
}

#[test]
fn quality_changes_jpeg_bytes() {
    let input = png_input();
    let low = convert(&input, Some("jpeg".to_string()), Some(5)).unwrap();
    let high = convert(&input, Some("jpeg".to_string()), Some(95)).unwrap();
    assert_ne!(low, high);
}

#[test]
fn gif_uses_first_frame() {
    let red = RgbaImage::from_pixel(6, 5, Rgba([255, 0, 0, 255]));
    let blue = RgbaImage::from_pixel(6, 5, Rgba([0, 0, 255, 255]));
    let mut gif = Vec::new();
    {
        let mut enc = image::codecs::gif::GifEncoder::new(&mut gif);
        enc.encode_frame(image::Frame::new(red.clone())).unwrap();
        enc.encode_frame(image::Frame::new(blue)).unwrap();
    }
    assert_eq!(&gif[0..6], b"GIF89a");
    let first = encoded(&DynamicImage::ImageRgba8(red), ImageOutputFormat::Png);
    for token in ["jpeg", "png", "webp"] {
        let from_gif = convert(&gif, Some(token.to_string()), Some(90)).unwrap();
        let from_frame = convert(&first, Some(token.to_string()), Some(90)).unwrap();
        assert_eq!(from_gif, from_frame);
    }
    let out = convert(&gif, Some("png".to_string()), Some(100)).unwrap();
    let px = image::load_from_memory(&out).unwrap().to_rgb8();
    let p = px.get_pixel(3, 2);
    assert!(p[0] > 200 && p[2] < 60);
}

#[test]
fn token_case_does_not_matter() {
    let input = png_input();
    let upper = convert(&input, Some("WEBP".to_string()), Some(80)).unwrap();
    let lower = convert(&input, Some("webp".to_string()), Some(80)).unwrap();
    assert_eq!(upper, lower);
    let mixed = convert(&input, Some("Jpeg".to_string()), Some(30)).unwrap();
    let plain = convert(&input, Some("jpeg".to_string()), Some(30)).unwrap();
    assert_eq!(mixed, plain);
    let png = convert(&input, Some("PnG".to_string()), Some(30)).unwrap();
    check_output(&png, ImageFormat::Png, 17, 9);
}

#[test]
fn unknown_token_is_unsupported() {
    let input = png_input();
    assert_eq!(convert(&input, Some("bmp".to_string()), Some(80)), Err(ConvertError::UnsupportedFormat));
    assert_eq!(convert(&input, Some("gif".to_string()), None), Err(ConvertError::UnsupportedFormat));
    assert_eq!(convert(&input, Some(String::new()), Some(-3)), Err(ConvertError::UnsupportedFormat));
    assert_eq!(convert(&[1, 2, 3], Some("bmp".to_string()), Some(80)), Err(ConvertError::UnsupportedFormat));
    assert_eq!(convert(&[], Some("tiff".to_string()), None), Err(ConvertError::UnsupportedFormat));
}

#[test]
fn defaults_are_webp_at_80() {
    let input = png_input();
    let default = convert(&input, None, None).unwrap();
    let explicit = convert(&input, Some("webp".to_string()), Some(80)).unwrap();
    assert_eq!(default, explicit);
    assert_eq!(image::guess_format(&default).unwrap(), ImageFormat::WebP);
    let default_quality = convert(&input, Some("jpeg".to_string()), None).unwrap();
    let eighty = convert(&input, Some("jpeg".to_string()), Some(80)).unwrap();
    assert_eq!(default_quality, eighty);
}

#[test]
fn short_input_fails_to_decode() {
    assert_eq!(convert(&[0x47, 0x49, 0x46], Some("png".to_string()), None), Err(ConvertError::Decode));
    assert_eq!(convert(&[], None, None), Err(ConvertError::Decode));
}

#[test]
fn random_bytes_fail_to_decode() {
    let noise: Vec<u8> = (0u32..64).map(|i| (i.wrapping_mul(97).wrapping_add(13) % 251) as u8).collect();
    assert_eq!(convert(&noise, Some("jpeg".to_string()), Some(50)), Err(ConvertError::Decode));
}

#[test]
fn truncated_gif_fails_to_decode() {
    assert_eq!(convert(b"GIF89a", None, None), Err(ConvertError::Decode));
    let mut png = png_input();
    png.truncate(20);
    assert_eq!(convert(&png, Some("webp".to_string()), Some(50)), Err(ConvertError::Decode));
}
