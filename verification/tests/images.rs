use fast_marketplace::infra::logger::{format_clock, log_line, needs_rotation};
use fast_marketplace::infra::images::{
    after_attempt, download_action, limit_urls, AttemptStep, optimization_attempts, optimize_image, process_download,
    scaled_dimension, is_stale_dir, Attempt, DownloadAction, ProcessedImage, MAX_DOWNLOAD_BYTES, MAX_SIZE_BYTES,
    STALE_DIR_SECS,
};

fn small_png() -> Vec<u8> {
    let img = image::RgbImage::from_fn(4, 3, |x, y| image::Rgb([(x * 40) as u8, (y * 60) as u8, 90]));
    let mut buf = std::io::Cursor::new(Vec::new());
    image::DynamicImage::ImageRgb8(img).write_to(&mut buf, image::ImageFormat::Png).unwrap();
    buf.into_inner()
}

#[test]
fn url_limit() {
    let urls: Vec<String> = (0..60).map(|i| format!("http://x/{i}")).collect();
    let kept = limit_urls(urls.clone());
    assert_eq!(kept.len(), 50);
    assert_eq!(kept[..], urls[..50]);
    let few: Vec<String> = (0..3).map(|i| format!("http://x/{i}")).collect();
    assert_eq!(limit_urls(few.clone()), few);
}

#[test]
fn download_actions() {
    assert_eq!(MAX_SIZE_BYTES, 10 * 1024 * 1024);
    assert_eq!(MAX_DOWNLOAD_BYTES, 60 * 1024 * 1024);
    assert_eq!(download_action(0), DownloadAction::Convert);
    assert_eq!(download_action(MAX_SIZE_BYTES), DownloadAction::Convert);
    assert_eq!(download_action(MAX_SIZE_BYTES + 1), DownloadAction::Optimize);
    assert_eq!(download_action(MAX_DOWNLOAD_BYTES), DownloadAction::Optimize);
    assert_eq!(download_action(MAX_DOWNLOAD_BYTES + 1), DownloadAction::Discard);
}

#[test]
fn attempts_order() {
    let a = optimization_attempts();
    let expected: Vec<Attempt> = [(90, 100), (80, 100), (70, 100), (60, 100), (50, 100), (40, 100), (40, 80), (40, 60), (40, 50)]
        .iter()
        .map(|&(quality, scale_percent)| Attempt { quality, scale_percent })
        .collect();
    assert_eq!(a, expected);
}

#[test]
fn scaling() {
    assert_eq!(scaled_dimension(1000, 80), 800);
    assert_eq!(scaled_dimension(333, 50), 166);
    assert_eq!(scaled_dimension(u32::MAX, 100), u32::MAX);
    assert_eq!(scaled_dimension(7, 0), 0);
    assert_eq!(scaled_dimension(100, 150), 150);
    assert_eq!(scaled_dimension(u32::MAX / 2, 200), u32::MAX - 1);
}

#[test]
fn processing_small_photo() {
    match process_download(&small_png()) {
        Some(ProcessedImage::Converted(jpeg)) => assert_eq!(&jpeg[..2], &[0xFF, 0xD8]),
        other => panic!("unexpected {:?}", other.is_some()),
    }
}

#[test]
fn processing_rejects() {
    assert!(process_download(b"not an image").is_none());
    let huge = vec![0u8; MAX_DOWNLOAD_BYTES + 1];
    assert!(process_download(&huge).is_none());
}

#[test]
fn optimizing_small_photo_fits_first_attempt() {
    let img = image::load_from_memory(&small_png()).unwrap();
    let out = optimize_image(&img);
    assert_eq!(out.attempt, Some(0));
    assert!(out.bytes.len() <= MAX_SIZE_BYTES);
    assert_eq!(&out.bytes[..2], &[0xFF, 0xD8]);
}

#[test]
fn clock_text() {
    assert_eq!(format_clock(0), "21:00:00");
    assert_eq!(format_clock(10800), "00:00:00");
    assert_eq!(format_clock(10800 + 3661), "01:01:01");
    assert_eq!(format_clock(1_700_000_000), "19:13:20");
    assert_eq!(format_clock(u64::MAX).len(), 8);
}

#[test]
fn log_lines() {
    assert_eq!(log_line(10800, "INFO", "pronto"), "00:00:00 [INFO] pronto");
    assert!(!needs_rotation(5 * 1024 * 1024));
    assert!(needs_rotation(5 * 1024 * 1024 + 1));
}

#[test]
fn attempt_decisions() {
    assert!(matches!(after_attempt(0, Some(vec![1, 2, 3])), AttemptStep::Keep(b) if b == vec![1, 2, 3]));
    assert!(matches!(after_attempt(0, None), AttemptStep::Next(1)));
    assert!(matches!(after_attempt(7, Some(vec![0u8; MAX_SIZE_BYTES + 1])), AttemptStep::Next(8)));
    assert!(matches!(after_attempt(8, None), AttemptStep::Fallback));
    assert!(matches!(after_attempt(8, Some(vec![0u8; MAX_SIZE_BYTES])), AttemptStep::Keep(_)));
}

fn jpeg_at(img: &image::DynamicImage, quality: u8) -> Vec<u8> {
    let mut buf = std::io::Cursor::new(Vec::new());
    let encoder = image::codecs::jpeg::JpegEncoder::new_with_quality(&mut buf, quality);
    img.write_with_encoder(encoder).unwrap();
    buf.into_inner()
}

#[test]
fn optimized_bytes_are_first_attempt_encoding() {
    let img = image::load_from_memory(&small_png()).unwrap();
    let out = optimize_image(&img);
    assert_eq!(out.bytes, jpeg_at(&img, 90));
    assert_ne!(out.bytes, jpeg_at(&img, 40));
}

#[test]
fn converted_bytes_are_jpeg_of_decoded() {
    let png = small_png();
    let img = image::load_from_memory(&png).unwrap();
    let mut buf = std::io::Cursor::new(Vec::new());
    img.write_to(&mut buf, image::ImageFormat::Jpeg).unwrap();
    match process_download(&png) {
        Some(ProcessedImage::Converted(jpeg)) => {
            assert_eq!(jpeg, buf.into_inner());
            assert_ne!(jpeg, png);
        }
        other => panic!("unexpected {:?}", other.is_some()),
    }
}

#[test]
fn stale_directories() {
    assert_eq!(STALE_DIR_SECS, 300);
    assert!(!is_stale_dir(0));
    assert!(!is_stale_dir(300));
    assert!(is_stale_dir(301));
    assert!(is_stale_dir(u64::MAX));
}

fn blank(width: u32, height: u32) -> image::DynamicImage {
    image::DynamicImage::ImageRgb8(image::RgbImage::from_pixel(width, height, image::Rgb([120, 80, 40])))
}

#[test]
fn too_wide_photo_is_scaled_until_it_encodes() {
    let out = optimize_image(&blank(65536, 2));
    assert_eq!(out.attempt, Some(6));
    assert_eq!(&out.bytes[..2], &[0xFF, 0xD8]);
}

#[test]
fn photo_no_attempt_can_encode_leaves_no_bytes() {
    let out = optimize_image(&blank(200000, 4));
    assert_eq!(out.attempt, None);
    assert!(out.bytes.is_empty());
}
