use base64::Engine as _;
use leap_core::archive::{decode_archive_entries, ImageData};

fn entry(name: &str, bytes: &[u8]) -> ImageData {
    ImageData {
        name: String::from(name),
        data: base64::engine::general_purpose::STANDARD.encode(bytes),
    }
}

#[test]
fn decode_entries_roundtrip() {
    let images = vec![
        entry("a.png", b"first payload"),
        entry("b.jpg", &[0u8, 255, 3, 7]),
        entry("empty.gif", b""),
    ];
    let decoded = decode_archive_entries(&images).unwrap();
    assert_eq!(decoded.len(), 3);
    assert_eq!(decoded[0].0, "a.png");
    assert_eq!(decoded[0].1, b"first payload");
    assert_eq!(decoded[1].0, "b.jpg");
    assert_eq!(decoded[1].1, &[0u8, 255, 3, 7]);
    assert_eq!(decoded[2].0, "empty.gif");
    assert!(decoded[2].1.is_empty());
}

#[test]
fn decode_entries_reports_first_bad_index() {
    let images = vec![
        entry("ok.png", b"fine"),
        ImageData { name: String::from("bad.png"), data: String::from("!!! not base64 !!!") },
        entry("later.png", b"also fine"),
    ];
    assert_eq!(decode_archive_entries(&images), Err(1));
}

#[test]
fn decode_entries_rejects_noncanonical_padding() {
    let images = vec![ImageData {
        name: String::from("x.png"),
        data: String::from("AAA"),
    }];
    assert_eq!(decode_archive_entries(&images), Err(0));
}
