use leap_core::format::{get_image_format, ImageFormatKind};
use leap_core::CompressError;

#[test]
fn classify_jpg_lowercase() {
    assert_eq!(get_image_format("photo.jpg"), Ok(ImageFormatKind::Jpeg));
}

#[test]
fn classify_jpeg_uppercase() {
    assert_eq!(get_image_format("PHOTO.JPEG"), Ok(ImageFormatKind::Jpeg));
}

#[test]
fn classify_png_mixed_case() {
    assert_eq!(get_image_format("shot.PnG"), Ok(ImageFormatKind::Png));
}

#[test]
fn classify_webp_bmp_gif() {
    assert_eq!(get_image_format("a.webp"), Ok(ImageFormatKind::WebP));
    assert_eq!(get_image_format("a.bmp"), Ok(ImageFormatKind::Bmp));
    assert_eq!(get_image_format("a.gif"), Ok(ImageFormatKind::Gif));
}

#[test]
fn classify_full_paths() {
    assert_eq!(get_image_format("/home/user/pics/cat.png"), Ok(ImageFormatKind::Png));
    assert_eq!(get_image_format("C:\\pics\\dog.JPG"), Ok(ImageFormatKind::Jpeg));
}

#[test]
fn no_extension_rejected() {
    assert_eq!(get_image_format("noext"), Err(CompressError::UnsupportedFormat));
    assert_eq!(get_image_format(""), Err(CompressError::UnsupportedFormat));
}

#[test]
fn dot_only_in_directory_rejected() {
    assert_eq!(get_image_format("dir.d/file"), Err(CompressError::UnsupportedFormat));
}

#[test]
fn hidden_file_without_extension_rejected() {
    assert_eq!(get_image_format(".png"), Err(CompressError::UnsupportedFormat));
    assert_eq!(get_image_format("pics/.png"), Err(CompressError::UnsupportedFormat));
}

#[test]
fn trailing_dot_rejected() {
    assert_eq!(get_image_format("foo."), Err(CompressError::UnsupportedFormat));
}

#[test]
fn unknown_extension_rejected() {
    assert_eq!(get_image_format("scan.tiff"), Err(CompressError::UnsupportedFormat));
}

#[test]
fn trace_records_milestones() {
    let mut trace = leap_core::progress::ProgressTrace::new();
    assert_eq!(trace.current(), 0);
    trace.emit(0);
    trace.emit(40);
    trace.emit(40);
    trace.emit(100);
    assert_eq!(trace.values().as_slice(), &[0, 40, 40, 100]);
    assert_eq!(trace.current(), 100);
}

#[test]
fn icon_lookup_has_no_portable_icon() {
    assert_eq!(leap_core::apps::extract_icon_as_base64("/usr/bin/some-tool"), None);
    let info = leap_core::apps::AppInfo {
        name: String::from("Some Tool"),
        path: String::from("/usr/bin/some-tool"),
        icon: None,
    };
    assert_eq!(info.icon, None);
}
