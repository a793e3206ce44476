use scrapn_core::cache::ImageCache;
use scrapn_core::images::{
    compute_cover_size, compute_crop_origin, compute_pad_offsets, resolve_target_size,
    ImageConversionFormat, ImageConversionParams, ImageFit, ImageFocus,
};
use scrapn_core::transform::{
    apply_transformations, choose_encoding, convert_image, crop_image, detect_image_type,
    interpret_image_response, transform_fetched, ImageProxyError,
};
use image::GenericImageView;

#[test]
fn cache_key_is_canonical() {
    let p = ImageConversionParams::new()
        .with_width(200)
        .with_height(100)
        .with_format(ImageConversionFormat::Jpg)
        .with_quality(80)
        .with_fit(ImageFit::Crop)
        .with_focus(ImageFocus::TopRight);
    assert_eq!(p.to_cache_key(), "w200_h100_fjpg_q80_fitcrop_focustopright");
    assert_eq!(ImageConversionParams::new().to_cache_key(), "original");
    assert_eq!(ImageConversionParams::new().with_focus(ImageFocus::Faces).to_cache_key(), "focusfaces");
}

#[test]
fn cache_key_ignores_call_order() {
    let a = ImageConversionParams::new().with_width(10).with_fit(ImageFit::Pad).with_quality(5);
    let b = ImageConversionParams::new().with_quality(5).with_fit(ImageFit::Pad).with_width(10);
    assert_eq!(a.to_cache_key(), b.to_cache_key());
    assert_eq!(a.to_cache_key(), "w10_q5_fitpad");
}

#[test]
fn needs_conversion_only_when_a_field_is_set() {
    assert!(!ImageConversionParams::new().needs_conversion());
    assert!(ImageConversionParams::new().with_quality(1).needs_conversion());
}

#[test]
fn second_request_hits_image_cache() {
    let mut c = ImageCache::new();
    let p = ImageConversionParams::new().with_width(64).with_format(ImageConversionFormat::Png);
    assert!(c.get_image("https://x/a.jpg", &p).is_none());
    c.store_image("https://x/a.jpg", &p, vec![1, 2, 3], "image/png".to_string());
    let q = ImageConversionParams::new().with_format(ImageConversionFormat::Png).with_width(64);
    let (d, ct) = c.get_image("https://x/a.jpg", &q).unwrap();
    assert_eq!(d, vec![1, 2, 3]);
    assert_eq!(ct, "image/png");
    assert!(c.get_image("https://x/b.jpg", &q).is_none());
    assert_eq!(c.generate_cache_key("https://x/a.jpg", &q), "https://x/a.jpg#w64_fpng");
}

#[test]
fn crop_top_focus_origin_and_size() {
    assert_eq!(compute_crop_origin((400, 400), (200, 100), ImageFocus::Top), (100, 0));
    let img = image::DynamicImage::new_rgb8(400, 400);
    let out = crop_image(&img, (200, 100), Some(ImageFocus::Top));
    assert_eq!(out.dimensions(), (200, 100));
    let p = ImageConversionParams::new().with_width(200).with_height(100).with_fit(ImageFit::Crop).with_focus(ImageFocus::Top);
    let r = apply_transformations(image::DynamicImage::new_rgb8(400, 400), &p).unwrap();
    assert_eq!(r.dimensions(), (200, 100));
}

#[test]
fn crop_origins_for_every_anchor() {
    let c = (300, 200);
    let t = (100, 100);
    assert_eq!(compute_crop_origin(c, t, ImageFocus::Center), (100, 50));
    assert_eq!(compute_crop_origin(c, t, ImageFocus::Bottom), (100, 100));
    assert_eq!(compute_crop_origin(c, t, ImageFocus::Left), (0, 50));
    assert_eq!(compute_crop_origin(c, t, ImageFocus::Right), (200, 50));
    assert_eq!(compute_crop_origin(c, t, ImageFocus::TopLeft), (0, 0));
    assert_eq!(compute_crop_origin(c, t, ImageFocus::TopRight), (200, 0));
    assert_eq!(compute_crop_origin(c, t, ImageFocus::BottomLeft), (0, 100));
    assert_eq!(compute_crop_origin(c, t, ImageFocus::BottomRight), (200, 100));
    assert_eq!(compute_crop_origin(c, t, ImageFocus::Face), (100, 50));
    assert_eq!(compute_crop_origin((50, 50), t, ImageFocus::BottomRight), (0, 0));
}

#[test]
fn pad_centres_with_transparent_margins() {
    assert_eq!(compute_pad_offsets((100, 200), (200, 200)), (50, 0));
    let mut src = image::RgbaImage::new(100, 200);
    for px in src.pixels_mut() {
        *px = image::Rgba([255, 0, 0, 255]);
    }
    let p = ImageConversionParams::new().with_width(200).with_height(200).with_fit(ImageFit::Pad);
    let out = apply_transformations(image::DynamicImage::ImageRgba8(src), &p).unwrap();
    assert_eq!(out.dimensions(), (200, 200));
    assert_eq!(out.get_pixel(10, 100)[3], 0);
    assert_eq!(out.get_pixel(190, 100)[3], 0);
    assert_eq!(out.get_pixel(60, 100)[3], 255);
    assert_eq!(out.get_pixel(149, 100)[3], 255);
    assert_eq!(out.get_pixel(50, 0), image::Rgba([255, 0, 0, 255]));
    assert_eq!(out.get_pixel(49, 0), image::Rgba([0, 0, 0, 0]));
    assert_eq!(out.get_pixel(150, 199), image::Rgba([0, 0, 0, 0]));
}

#[test]
fn target_size_keeps_aspect_ratio() {
    assert_eq!(resolve_target_size((400, 200), Some(100), None), Some((100, 50)));
    assert_eq!(resolve_target_size((400, 200), None, Some(100)), Some((200, 100)));
    assert_eq!(resolve_target_size((400, 200), Some(7), Some(9)), Some((7, 9)));
    assert_eq!(resolve_target_size((400, 200), None, None), None);
    assert_eq!(compute_cover_size((400, 200), (100, 100)), (200, 100));
    assert_eq!(compute_cover_size((200, 400), (100, 100)), (100, 200));
}

#[test]
fn scale_and_fill_sizes() {
    let p = ImageConversionParams::new().with_width(30).with_height(40);
    let r = apply_transformations(image::DynamicImage::new_rgb8(100, 100), &p).unwrap();
    assert_eq!(r.dimensions(), (30, 40));
    let f = ImageConversionParams::new().with_width(50).with_height(50).with_fit(ImageFit::Fill);
    let r = apply_transformations(image::DynamicImage::new_rgb8(200, 100), &f).unwrap();
    assert_eq!(r.dimensions(), (50, 50));
    let t = ImageConversionParams::new().with_width(50).with_height(50).with_fit(ImageFit::Thumb);
    let r = apply_transformations(image::DynamicImage::new_rgb8(200, 100), &t).unwrap();
    assert_eq!(r.dimensions(), (50, 25));
    let t2 = ImageConversionParams::new().with_width(60).with_height(60).with_fit(ImageFit::Thumb);
    let r = apply_transformations(image::DynamicImage::new_rgb8(100, 300), &t2).unwrap();
    assert_eq!(r.dimensions(), (20, 60));
}

#[test]
fn oversized_target_is_a_conversion_error() {
    let p = ImageConversionParams::new().with_width(100_000).with_height(100_000);
    let r = apply_transformations(image::DynamicImage::new_rgb8(10, 10), &p);
    assert!(matches!(r, Err(ImageProxyError::ConversionError(_))));
}

fn png_bytes(w: u32, h: u32) -> Vec<u8> {
    let img = image::DynamicImage::new_rgb8(w, h);
    let mut out = Vec::new();
    img.write_to(&mut std::io::Cursor::new(&mut out), image::ImageFormat::Png).unwrap();
    out
}

#[test]
fn defaults_encode_jpeg_at_quality_85() {
    let p = ImageConversionParams::new().with_width(50);
    assert_eq!(choose_encoding(&p), (ImageConversionFormat::Jpg, 85));
    let (bytes, ct) = convert_image(png_bytes(100, 100), &p).unwrap();
    assert_eq!(ct, "image/jpeg");
    let expected_img = image::DynamicImage::new_rgb8(100, 100).resize_exact(50, 50, image::imageops::FilterType::Lanczos3);
    let mut expected = Vec::new();
    image::codecs::jpeg::JpegEncoder::new_with_quality(&mut expected, 85).encode_image(&expected_img).unwrap();
    assert_eq!(bytes, expected);
    assert_eq!(choose_encoding(&ImageConversionParams::new().with_quality(200)).1, 100);
}

#[test]
fn png_output_and_undecodable_input() {
    let p = ImageConversionParams::new().with_format(ImageConversionFormat::Png);
    let (bytes, ct) = convert_image(png_bytes(8, 8), &p).unwrap();
    assert_eq!(ct, "image/png");
    assert_eq!(&bytes[..4], &[0x89, 0x50, 0x4E, 0x47]);
    let e = convert_image(vec![1, 2, 3, 4, 5], &p);
    match e {
        Err(ImageProxyError::ConversionError(m)) => assert!(m.starts_with("Failed to load image: ")),
        _ => panic!("expected a conversion error"),
    }
}

#[test]
fn untransformed_image_is_passed_through() {
    let (d, ct) = transform_fetched(vec![9, 9, 9], "image/gif".to_string(), &ImageConversionParams::new()).unwrap();
    assert_eq!(d, vec![9, 9, 9]);
    assert_eq!(ct, "image/gif");
}

#[test]
fn magic_bytes_decide_the_type() {
    assert_eq!(detect_image_type(&vec![0xFF, 0xD8, 0xFF, 0xE0]), "image/jpeg");
    assert_eq!(detect_image_type(&vec![0x89, 0x50, 0x4E, 0x47, 0x0D]), "image/png");
    assert_eq!(detect_image_type(&vec![0x47, 0x49, 0x46, 0x38]), "image/gif");
    assert_eq!(detect_image_type(&vec![0x52, 0x49, 0x46, 0x46, 0, 0, 0, 0, 0x57, 0x45, 0x42, 0x50]), "image/webp");
    assert_eq!(detect_image_type(&vec![0x42, 0x4D, 0, 0]), "image/bmp");
    assert_eq!(detect_image_type(&vec![0x49, 0x49, 0x2A, 0x00]), "image/tiff");
    assert_eq!(detect_image_type(&vec![0x4D, 0x4D, 0x00, 0x2A]), "image/tiff");
    assert_eq!(detect_image_type(&vec![0x00, 0x00, 0x01, 0x00]), "image/x-icon");
    assert_eq!(detect_image_type(&vec![0x01, 0x02, 0x03, 0x04]), "image/jpeg");
    assert_eq!(detect_image_type(&vec![0x89, 0x50]), "image/jpeg");
    assert_eq!(detect_image_type(&vec![0x47, 0x49, 0x46]), "image/gif");
    assert_eq!(detect_image_type(&vec![0x42, 0x4D]), "image/bmp");
    assert_eq!(detect_image_type(&vec![]), "image/jpeg");
}

#[test]
fn image_response_statuses() {
    match interpret_image_response(404, None, Ok(vec![])) {
        Err(ImageProxyError::ImageError(m)) => assert_eq!(m, "Image request failed with status: 404"),
        _ => panic!("expected an image error"),
    }
    let (d, ct) = interpret_image_response(200, Some("application/octet-stream".to_string()), Ok(vec![0x89, 0x50, 0x4E, 0x47])).unwrap();
    assert_eq!(d, vec![0x89, 0x50, 0x4E, 0x47]);
    assert_eq!(ct, "image/png");
    let (_, ct) = interpret_image_response(200, Some("image/webp".to_string()), Ok(vec![0xFF, 0xD8, 0xFF, 0x00])).unwrap();
    assert_eq!(ct, "image/webp");
    assert!(matches!(interpret_image_response(200, None, Err("reset".to_string())), Err(ImageProxyError::NetworkError(_))));
}

#[test]
fn fill_reaches_the_exact_target() {
    assert_eq!(compute_cover_size((100, 33), (50, 16)), (50, 17));
    let f = ImageConversionParams::new().with_width(50).with_height(16).with_fit(ImageFit::Fill);
    let r = apply_transformations(image::DynamicImage::new_rgb8(100, 33), &f).unwrap();
    assert_eq!(r.dimensions(), (50, 16));
}

#[test]
fn encoder_errors_carry_their_label() {
    let p = ImageConversionParams::new().with_width(0).with_height(5);
    match convert_image(png_bytes(8, 8), &p) {
        Err(ImageProxyError::ConversionError(m)) => assert!(m.starts_with("JPEG encoding failed: ")),
        _ => panic!("expected a JPEG encoding error"),
    }
    let a = ImageConversionParams::new().with_format(ImageConversionFormat::Avif);
    match convert_image(png_bytes(8, 8), &a) {
        Err(ImageProxyError::ConversionError(m)) => assert!(m.starts_with("AVIF encoding failed: ")),
        Ok(_) => {},
        _ => panic!("expected a conversion error"),
    }
}
