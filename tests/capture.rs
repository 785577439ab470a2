use clipboard_rs::common::RustImage;
use clipboard_rs::RustImageData;
use image::{DynamicImage, Rgba, RgbaImage};
use pasteimg::{
    capture_clipboard_image, downloads_dir, file_name, hash_bytes_short_sha256_hex5, join_path,
    reencode_lossy, save_plan, CaptureError, ClipboardFailure,
};

fn test_image() -> RustImageData {
    let mut px = RgbaImage::new(3, 2);
    for (x, y, p) in px.enumerate_pixels_mut() {
        *p = Rgba([(x * 80) as u8, (y * 120) as u8, 200, 255]);
    }
    RustImageData::from_dynamic_image(DynamicImage::ImageRgba8(px))
}

fn canonical_bytes(img: &RustImageData) -> Vec<u8> {
    img.to_png().unwrap().get_bytes().to_vec()
}

#[test]
fn downloads_dir_under_home() {
    assert_eq!(downloads_dir(Some("/home/u")), "/home/u/Downloads");
    assert_eq!(downloads_dir(Some("/home/u/")), "/home/u/Downloads");
}

#[test]
fn downloads_dir_fallback_without_home() {
    assert_eq!(downloads_dir(None), "/Users/Downloads");
}

#[test]
fn downloads_dir_with_empty_home() {
    assert_eq!(downloads_dir(Some("")), "Downloads");
}

#[test]
fn join_path_rules() {
    assert_eq!(join_path("/a", "b.png"), "/a/b.png");
    assert_eq!(join_path("/a/", "b.png"), "/a/b.png");
    assert_eq!(join_path("", "b.png"), "b.png");
    assert_eq!(join_path("/a", "/c"), "/c");
}

#[test]
fn file_names_by_format() {
    assert_eq!(file_name("2cf24", true), "2cf24.png");
    assert_eq!(file_name("2cf24", false), "2cf24.jpg");
}

#[test]
fn lossless_plan_keeps_bytes() {
    let plan = save_plan(b"hello".to_vec(), Some("/home/u"), true).unwrap();
    assert_eq!(plan.path, "/home/u/Downloads/2cf24.png");
    assert_eq!(plan.bytes, b"hello".to_vec());
}

#[test]
fn lossy_plan_of_undecodable_bytes_is_codec_error() {
    match save_plan(b"hello".to_vec(), Some("/home/u"), false) {
        Err(CaptureError::Codec(m)) => assert!(m.starts_with("Failed to load image: ")),
        _ => panic!("expected a codec error"),
    }
    assert!(matches!(reencode_lossy(b""), Err(CaptureError::Codec(_))));
}

#[test]
fn no_image_on_clipboard() {
    let r = capture_clipboard_image(Err(ClipboardFailure::NoImage), Some("/home/u"), true);
    match r {
        Err(e) => {
            assert!(matches!(e, CaptureError::NoImage));
            assert_eq!(e.message(), "No image found in clipboard");
        }
        Ok(_) => panic!("nothing may be saved without an image"),
    }
}

#[test]
fn clipboard_unavailable() {
    let r = capture_clipboard_image(
        Err(ClipboardFailure::Unavailable("no display".to_string())),
        None,
        false,
    );
    match r {
        Err(e) => {
            assert!(matches!(&e, CaptureError::ClipboardAccess(d) if d == "no display"));
            assert_eq!(e.message(), "Failed to create clipboard context: no display");
        }
        Ok(_) => panic!("expected a clipboard error"),
    }
}

#[test]
fn end_to_end_lossless_capture() {
    let img = test_image();
    let canonical = canonical_bytes(&img);
    assert_eq!(&canonical[..8], &[0x89, b'P', b'N', b'G', 0x0d, 0x0a, 0x1a, 0x0a]);
    let stem = hash_bytes_short_sha256_hex5(&canonical);
    let plan = capture_clipboard_image(Ok(img), Some("/home/u"), true).ok().unwrap();
    assert_eq!(plan.path, format!("/home/u/Downloads/{}.png", stem));
    assert_eq!(plan.bytes, canonical);
}

#[test]
fn lossy_capture_names_by_canonical_bytes() {
    let canonical = canonical_bytes(&test_image());
    let stem = hash_bytes_short_sha256_hex5(&canonical);
    let plan = capture_clipboard_image(Ok(test_image()), None, false).ok().unwrap();
    assert_eq!(plan.path, format!("/Users/Downloads/{}.jpg", stem));
    assert_eq!(&plan.bytes[..2], &[0xff, 0xd8]);
    assert_ne!(plan.bytes, canonical);
}

#[test]
fn both_formats_share_the_stem() {
    let a = capture_clipboard_image(Ok(test_image()), Some("/h"), true).ok().unwrap();
    let b = capture_clipboard_image(Ok(test_image()), Some("/h"), false).ok().unwrap();
    assert_eq!(a.path[..a.path.len() - 4], b.path[..b.path.len() - 4]);
    assert!(a.path.ends_with(".png"));
    assert!(b.path.ends_with(".jpg"));
}

#[test]
fn codec_and_filesystem_messages() {
    let e = CaptureError::Codec("Failed to encode JPEG: too large".to_string());
    assert_eq!(e.message(), "Failed to encode JPEG: too large");
    let e = CaptureError::Filesystem("permission denied".to_string());
    assert_eq!(e.message(), "permission denied");
}

#[test]
fn lossy_bytes_are_jpeg_at_fixed_quality() {
    let canonical = canonical_bytes(&test_image());
    let decoded = image::load_from_memory_with_format(&canonical, image::ImageFormat::Png).unwrap();
    let mut expected: Vec<u8> = Vec::new();
    image::codecs::jpeg::JpegEncoder::new_with_quality(&mut expected, 85)
        .encode_image(&decoded)
        .unwrap();
    assert_eq!(pasteimg::LOSSY_QUALITY, 85);
    assert_eq!(reencode_lossy(&canonical).ok().unwrap(), expected);
    let plan = capture_clipboard_image(Ok(test_image()), None, false).ok().unwrap();
    assert_eq!(plan.bytes, expected);
}

#[test]
fn empty_image_fails_png_conversion() {
    match capture_clipboard_image(Ok(RustImageData::empty()), None, true) {
        Err(CaptureError::Codec(m)) => {
            assert!(m.starts_with("Failed to convert image to PNG: "));
            assert!(m.len() > "Failed to convert image to PNG: ".len());
        }
        _ => panic!("expected a codec error"),
    }
}
