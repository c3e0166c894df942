use base64::Engine as _;
use image::ImageEncoder as _;
use leap_core::compress::compress_image_bytes;
use leap_core::jpeg::compress_jpeg;
use leap_core::pngq::compress_png;
use leap_core::progress::ProgressTrace;
use leap_core::CompressError;

/// Deterministic pseudo-random bytes, so the generated images are noisy
/// enough that their encodings stay large.
fn noise(len: usize, mut seed: u64) -> Vec<u8> {
    let mut out = Vec::with_capacity(len);
    for _ in 0..len {
        seed = seed.wrapping_mul(6364136223846793005).wrapping_add(1442695040888963407);
        out.push((seed >> 33) as u8);
    }
    out
}

fn make_rgba_png(width: u32, height: u32, data: &[u8]) -> Vec<u8> {
    let mut buf = Vec::new();
    let mut enc = png::Encoder::new(&mut buf, width, height);
    enc.set_color(png::ColorType::Rgba);
    enc.set_depth(png::BitDepth::Eight);
    let writer = enc.write_header().unwrap();
    let mut writer = writer;
    writer.write_image_data(data).unwrap();
    writer.finish().unwrap();
    buf
}

fn make_rgb_jpeg(width: u32, height: u32, data: &[u8]) -> Vec<u8> {
    let mut buf = std::io::Cursor::new(Vec::new());
    let enc = image::codecs::jpeg::JpegEncoder::new_with_quality(&mut buf, 95);
    enc.write_image(data, width, height, image::ExtendedColorType::Rgb8).unwrap();
    buf.into_inner()
}

fn assert_progress_complete(values: &[u8]) {
    assert!(!values.is_empty());
    assert_eq!(values[0], 0);
    assert_eq!(*values.last().unwrap(), 100);
    for pair in values.windows(2) {
        assert!(pair[0] <= pair[1], "progress went backwards: {:?}", values);
    }
}

#[test]
fn short_circuit_returns_input_unchanged() {
    let data = noise(50 * 1024, 7);
    let mut trace = ProgressTrace::new();
    let res = compress_image_bytes(&data, "photo.png", 200, &mut trace).unwrap();
    assert_eq!(res.original_size, 50 * 1024);
    assert_eq!(res.compressed_size, 50 * 1024);
    let decoded = base64::engine::general_purpose::STANDARD.decode(&res.compressed_data).unwrap();
    assert_eq!(decoded, data);
    assert_eq!(trace.values().as_slice(), &[0, 10, 100]);
}

#[test]
fn short_circuit_on_exact_budget() {
    let data = noise(2048, 3);
    let mut trace = ProgressTrace::new();
    let res = compress_image_bytes(&data, "anything.gif", 2, &mut trace).unwrap();
    assert_eq!(res.compressed_size, res.original_size);
    assert_eq!(trace.values().as_slice(), &[0, 10, 100]);
}

#[test]
fn png_full_path_produces_indexed_png() {
    let raw = noise(200 * 200 * 4, 11);
    let original = make_rgba_png(200, 200, &raw);
    assert!(original.len() > 1024);
    let mut trace = ProgressTrace::new();
    let res = compress_image_bytes(&original, "noise.png", 1, &mut trace).unwrap();
    assert_eq!(res.original_size, original.len() as u64);
    assert!(res.compressed_size <= res.original_size);
    assert_progress_complete(trace.values().as_slice());
    let bytes = base64::engine::general_purpose::STANDARD.decode(&res.compressed_data).unwrap();
    assert_eq!(bytes.len() as u64, res.compressed_size);
    if res.compressed_size < res.original_size {
        let decoder = png::Decoder::new(std::io::Cursor::new(&bytes[..]));
        let reader = decoder.read_info().unwrap();
        assert_eq!(reader.info().color_type, png::ColorType::Indexed);
        assert_eq!((reader.info().width, reader.info().height), (200, 200));
    } else {
        assert_eq!(bytes, original);
    }
}

#[test]
fn png_strategy_is_deterministic() {
    let rgba = noise(64 * 64 * 4, 23);
    let mut t1 = ProgressTrace::new();
    let mut t2 = ProgressTrace::new();
    let out1 = compress_png(&rgba, 64, 64, &mut t1).unwrap();
    let out2 = compress_png(&rgba, 64, 64, &mut t2).unwrap();
    assert_eq!(out1, out2);
    assert_eq!(t1.values(), t2.values());
}

#[test]
fn jpeg_full_path_meets_reachable_budget() {
    let raw = noise(300 * 300 * 3, 31);
    let original = make_rgb_jpeg(300, 300, &raw);
    let target_kb = 80;
    assert!(original.len() as u64 > target_kb * 1024);
    let mut trace = ProgressTrace::new();
    let res = compress_image_bytes(&original, "noise.jpg", target_kb as u32, &mut trace).unwrap();
    assert!(res.compressed_size <= res.original_size);
    assert!(res.compressed_size <= target_kb * 1024);
    assert_progress_complete(trace.values().as_slice());
    let bytes = base64::engine::general_purpose::STANDARD.decode(&res.compressed_data).unwrap();
    assert_eq!(bytes.len() as u64, res.compressed_size);
    let reencoded = image::load_from_memory(&bytes).unwrap();
    assert_eq!((reencoded.width(), reencoded.height()), (300, 300));
}

#[test]
fn jpeg_search_is_bounded_and_falls_back() {
    let rgb = noise(64 * 64 * 3, 41);
    let mut t1 = ProgressTrace::new();
    let (low, attempts_low) = compress_jpeg(&rgb, 64, 64, 1, &mut t1).unwrap();
    assert!(attempts_low <= 4);
    assert!(low.len() as u64 > 1);
    let mut t2 = ProgressTrace::new();
    let (high, attempts_high) = compress_jpeg(&rgb, 64, 64, u64::MAX, &mut t2).unwrap();
    assert!(attempts_high <= 4);
    assert!(high.len() >= low.len());
    let mut t3 = ProgressTrace::new();
    let (low_again, _) = compress_jpeg(&rgb, 64, 64, 1, &mut t3).unwrap();
    assert_eq!(low, low_again);
}

#[test]
fn jpeg_search_prefers_quality_within_budget() {
    let rgb = noise(64 * 64 * 3, 43);
    let mut t1 = ProgressTrace::new();
    let (high, _) = compress_jpeg(&rgb, 64, 64, u64::MAX, &mut t1).unwrap();
    let budget = high.len() as u64;
    let mut t2 = ProgressTrace::new();
    let (within, _) = compress_jpeg(&rgb, 64, 64, budget, &mut t2).unwrap();
    assert!(within.len() as u64 <= budget);
}

#[test]
fn jpeg_unreachable_budget_reports_without_error() {
    let raw = noise(120 * 120 * 3, 51);
    let original = make_rgb_jpeg(120, 120, &raw);
    let mut trace = ProgressTrace::new();
    let res = compress_image_bytes(&original, "noise.jpg", 0, &mut trace).unwrap();
    assert!(res.compressed_size > 0);
    assert!(res.compressed_size <= res.original_size);
    assert_progress_complete(trace.values().as_slice());
}

#[test]
fn undecodable_input_fails_with_decode_error() {
    let data = noise(2048, 5);
    let mut trace = ProgressTrace::new();
    let err = compress_image_bytes(&data, "junk.png", 1, &mut trace).unwrap_err();
    assert_eq!(err, CompressError::DecodeFailed);
}

#[test]
fn missing_extension_fails_with_unsupported_format() {
    let raw = noise(100 * 100 * 4, 13);
    let original = make_rgba_png(100, 100, &raw);
    assert!(original.len() > 1024);
    let mut trace = ProgressTrace::new();
    let err = compress_image_bytes(&original, "imagefile", 1, &mut trace).unwrap_err();
    assert_eq!(err, CompressError::UnsupportedFormat);
}

#[test]
fn oversize_dimensions_fail_in_encoder_setup() {
    let width: u32 = 65501;
    let raw = vec![128u8; (width as usize) * 4];
    let original = make_rgba_png(width, 1, &raw);
    let mut trace = ProgressTrace::new();
    let err = compress_image_bytes(&original, "wide.bmp", 0, &mut trace).unwrap_err();
    assert_eq!(err, CompressError::EncodeFailed(leap_core::EncodeStage::Setup));
}
