use fsevent_watcher::codec::{
    bytes_eq, decode_path, decode_path_list, dedup_paths, encode_path, validate_utf8,
};
use fsevent_watcher::WatchError;

#[test]
fn round_trip_ascii_path() {
    let p = b"/tmp/x/f.txt".to_vec();
    let native = encode_path(&p).unwrap();
    assert_eq!(native.last(), Some(&0u8));
    assert_eq!(decode_path(&native).unwrap(), p);
}

#[test]
fn round_trip_multibyte_path() {
    let p = "/tmp/caf\u{e9}/\u{4e16}\u{754c}/\u{1F680}.txt".as_bytes().to_vec();
    let native = encode_path(&p).unwrap();
    assert_eq!(decode_path(&native).unwrap(), p);
}

#[test]
fn round_trip_empty_path() {
    let p: Vec<u8> = Vec::new();
    let native = encode_path(&p).unwrap();
    assert_eq!(native, vec![0u8]);
    assert_eq!(decode_path(&native).unwrap(), p);
}

#[test]
fn encode_rejects_embedded_nul() {
    assert_eq!(encode_path(&vec![0x61, 0x00, 0x62]), Err(WatchError::ConfigError));
}

#[test]
fn decode_rejects_missing_terminator() {
    assert_eq!(decode_path(&b"abc".to_vec()), Err(WatchError::PathDecodeError));
    assert_eq!(decode_path(&Vec::new()), Err(WatchError::PathDecodeError));
}

#[test]
fn decode_rejects_embedded_nul() {
    assert_eq!(decode_path(&vec![0x61, 0x00, 0x62, 0x00]), Err(WatchError::PathDecodeError));
}

#[test]
fn decode_rejects_malformed_text() {
    // lone continuation byte
    assert_eq!(decode_path(&vec![0xFF, 0x00]), Err(WatchError::PathDecodeError));
    // overlong two-byte form
    assert_eq!(decode_path(&vec![0xC0, 0xAF, 0x00]), Err(WatchError::PathDecodeError));
    // surrogate half
    assert_eq!(decode_path(&vec![0xED, 0xA0, 0x80, 0x00]), Err(WatchError::PathDecodeError));
    // truncated three-byte form
    assert_eq!(decode_path(&vec![0xE2, 0x82, 0x00]), Err(WatchError::PathDecodeError));
}

#[test]
fn validate_utf8_agrees_with_std() {
    let samples: Vec<Vec<u8>> = vec![
        b"hello".to_vec(),
        "\u{e9}\u{4e16}\u{1F680}".as_bytes().to_vec(),
        vec![0x80],
        vec![0xC2],
        vec![0xC2, 0x41],
        vec![0xE0, 0x9F, 0x80],
        vec![0xED, 0x9F, 0xBF],
        vec![0xF0, 0x8F, 0x80, 0x80],
        vec![0xF4, 0x8F, 0xBF, 0xBF],
        vec![0xF4, 0x90, 0x80, 0x80],
        vec![0xF5, 0x80, 0x80, 0x80],
        vec![0xC2, 0x80, 0x41, 0xE1, 0x80, 0x80],
    ];
    for s in samples {
        assert_eq!(validate_utf8(&s), std::str::from_utf8(&s).is_ok());
    }
}

#[test]
fn path_list_preserves_length_and_order() {
    let a = encode_path(&b"/a".to_vec()).unwrap();
    let b = encode_path(&b"/b".to_vec()).unwrap();
    let list = vec![a.clone(), b.clone(), a.clone()];
    let out = decode_path_list(&list).unwrap();
    assert_eq!(out, vec![b"/a".to_vec(), b"/b".to_vec(), b"/a".to_vec()]);
}

#[test]
fn dedup_paths_keeps_first_occurrence() {
    let list = vec![b"/a".to_vec(), b"/b".to_vec(), b"/a".to_vec()];
    assert_eq!(dedup_paths(&list), vec![b"/a".to_vec(), b"/b".to_vec()]);
    let empty: Vec<Vec<u8>> = Vec::new();
    assert!(dedup_paths(&empty).is_empty());
}

#[test]
fn path_list_fails_on_one_bad_entry() {
    let a = encode_path(&b"/a".to_vec()).unwrap();
    let list = vec![a, b"bad".to_vec()];
    assert_eq!(decode_path_list(&list), Err(WatchError::PathDecodeError));
}

#[test]
fn bytes_eq_compares_contents() {
    assert!(bytes_eq(&b"abc".to_vec(), &b"abc".to_vec()));
    assert!(!bytes_eq(&b"abc".to_vec(), &b"abd".to_vec()));
    assert!(!bytes_eq(&b"abc".to_vec(), &b"ab".to_vec()));
}
