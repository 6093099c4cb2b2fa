use dosomekamas::errors::AppError;
use dosomekamas::ocr::capture::{
    capture_arithmetic_is_safe, encode_region_png, find_monitor, locate_region, png_to_base64,
    MonitorArea,
};
use dosomekamas::ocr::recognize::{decode_image_base64, load_image_for_ocr, recognized_text};
use dosomekamas::raster::ColorKind;
use dosomekamas::raster::RgbaRaster;

fn monitors() -> Vec<MonitorArea> {
    vec![
        MonitorArea { x: 0, y: 0, width: 1920, height: 1080 },
        MonitorArea { x: 1920, y: 0, width: 1280, height: 1024 },
    ]
}

#[test]
fn region_outside_every_monitor_is_an_error() {
    let ms = monitors();
    assert!(capture_arithmetic_is_safe(&ms, 99999, 99999, 9999, 9999));
    match locate_region(&ms, 99999, 99999, 9999, 9999) {
        Err(AppError::ScreenCapture(msg)) => {
            assert_eq!(msg, "No monitor found for the given region.")
        }
        _ => panic!("expected a screen capture error"),
    }
}

#[test]
fn region_is_located_on_the_monitor_that_holds_it() {
    let ms = monitors();
    let loc = match locate_region(&ms, 2000, 100, 200, 50) {
        Ok(loc) => loc,
        Err(_) => panic!("the second monitor holds the region"),
    };
    assert_eq!(loc.monitor, 1);
    assert_eq!(loc.local_x, 80);
    assert_eq!(loc.local_y, 100);
    assert_eq!(find_monitor(&ms, 0, 0, 1920, 1080), Some(0));
    assert_eq!(find_monitor(&ms, 1900, 0, 100, 10), None);
}

#[test]
fn overflowing_region_is_detected() {
    let ms = monitors();
    assert!(!capture_arithmetic_is_safe(&ms, i32::MAX, 0, 10, 10));
}

#[test]
fn raster_needs_four_bytes_per_pixel() {
    assert!(RgbaRaster::from_raw(2, 2, vec![0; 16]).is_some());
    assert!(RgbaRaster::from_raw(2, 2, vec![0; 15]).is_none());
}

#[test]
fn region_png_holds_the_cropped_pixels() {
    let pixels: Vec<u8> = (0..36).collect(); // 3 x 3 image
    let img = RgbaRaster::from_raw(3, 3, pixels).unwrap();
    let png = match encode_region_png(&img, 1, 1, 5, 1) {
        Ok(png) => png,
        Err(_) => panic!("a 2x1 region encodes"),
    };
    let decoded = image::load_from_memory(&png).unwrap().to_rgba8();
    assert_eq!(decoded.dimensions(), (2, 1));
    assert_eq!(decoded.into_raw(), (16..24).collect::<Vec<u8>>());
}

#[test]
fn empty_region_is_a_screen_capture_error() {
    let img = RgbaRaster::from_raw(2, 2, vec![255; 16]).unwrap();
    match encode_region_png(&img, 5, 5, 1, 1) {
        Err(AppError::ScreenCapture(_)) => {}
        _ => panic!("a region outside the image has no pixels to encode"),
    }
}

#[test]
fn png_to_base64_pads_to_four_characters() {
    assert_eq!(png_to_base64(&b"Ma".to_vec()), "TWE=");
    assert_eq!(png_to_base64(&b"Man".to_vec()), "TWFu");
    assert_eq!(png_to_base64(&b"hi!?".to_vec()), "aGkhPw==");
    assert_eq!(png_to_base64(&Vec::new()), "");
}

#[test]
fn encoded_region_round_trips_through_base64() {
    let img = RgbaRaster::from_raw(2, 2, vec![255; 16]).unwrap();
    let png = encode_region_png(&img, 0, 0, 1, 1).ok().unwrap();
    let text = png_to_base64(&png);
    assert_eq!(decode_image_base64(&text).ok(), Some(png));
}

#[test]
fn test_invalid_base64_image_is_an_ocr_error() {
    match decode_image_base64("!!!invalid_base64!!!") {
        Err(AppError::Ocr(msg)) => assert!(msg.starts_with("Invalid base64 image: ")),
        _ => panic!("expected an OCR error"),
    }
    assert_eq!(decode_image_base64("aGk=").ok(), Some(b"hi".to_vec()));
}

#[test]
fn recognized_text_is_trimmed() {
    assert_eq!(recognized_text("  +15 Force \n"), "+15 Force");
}

#[test]
fn test_recognize_invalid_bytes_returns_error() {
    let result = load_image_for_ocr(b"not a valid image");
    assert!(result.is_err());
    match result {
        Err(AppError::Ocr(msg)) => assert!(msg.starts_with("Failed to load image: ")),
        _ => panic!("expected an OCR error"),
    }
}

#[test]
fn png_bytes_load_for_recognition() {
    let pixels: Vec<u8> = (0..16).collect();
    let img = RgbaRaster::from_raw(2, 2, pixels.clone()).unwrap();
    let png = encode_region_png(&img, 0, 0, 2, 2).ok().unwrap();
    let decoded = match load_image_for_ocr(&png) {
        Ok(d) => d,
        Err(_) => panic!("a PNG file decodes"),
    };
    assert_eq!((decoded.width, decoded.height), (2, 2));
    assert_eq!(decoded.color_kind(), Some(ColorKind::Rgba8));
    assert_eq!(decoded.samples, pixels);
}

#[test]
fn other_formats_load_through_the_fallback() {
    let img = image::RgbImage::from_pixel(3, 2, image::Rgb([10, 200, 30]));
    let mut jpeg = std::io::Cursor::new(Vec::new());
    image::DynamicImage::ImageRgb8(img)
        .write_to(&mut jpeg, image::ImageFormat::Jpeg)
        .unwrap();
    let decoded = match load_image_for_ocr(&jpeg.into_inner()) {
        Ok(d) => d,
        Err(_) => panic!("a JPEG file decodes through the format guess"),
    };
    assert_eq!((decoded.width, decoded.height), (3, 2));
    assert_eq!(decoded.color_kind(), Some(ColorKind::Rgb8));
}
