use uploader::drive::{decode_drive_record, encode_drive_record, read_content_type, read_file_bytes};
use uploader::error::StorageError;

#[test]
fn record_layout_is_length_type_payload() {
    let file = encode_drive_record("image/png", &[1, 2, 3]).unwrap();
    let mut expected = vec![9u8];
    expected.extend_from_slice(b"image/png");
    expected.extend_from_slice(&[1, 2, 3]);
    assert_eq!(file, expected);
}

#[test]
fn record_round_trips() {
    let payload: Vec<u8> = (0..1024).map(|i| (i % 251) as u8).collect();
    let file = encode_drive_record("image/png", &payload).unwrap();
    let (bytes, ct) = decode_drive_record(&file).unwrap();
    assert_eq!(bytes, payload);
    assert_eq!(ct, "image/png");
}

#[test]
fn empty_content_type_round_trips() {
    let file = encode_drive_record("", b"data").unwrap();
    assert_eq!(file[0], 0);
    let (bytes, ct) = decode_drive_record(&file).unwrap();
    assert_eq!(bytes, b"data".to_vec());
    assert_eq!(ct, "");
}

#[test]
fn longest_content_type_round_trips() {
    let ct = "a".repeat(255);
    let file = encode_drive_record(&ct, b"x").unwrap();
    assert_eq!(file[0], 255);
    let (bytes, back) = decode_drive_record(&file).unwrap();
    assert_eq!(bytes, b"x".to_vec());
    assert_eq!(back, ct);
}

#[test]
fn multibyte_content_type_round_trips() {
    let ct = "text/plain; charset=\u{00e9}\u{4e2d}";
    let file = encode_drive_record(ct, b"").unwrap();
    assert_eq!(file[0] as usize, ct.len());
    let (bytes, back) = decode_drive_record(&file).unwrap();
    assert!(bytes.is_empty());
    assert_eq!(back, ct);
}

#[test]
fn content_type_of_256_bytes_is_refused() {
    let ct = "b".repeat(256);
    assert_eq!(encode_drive_record(&ct, b"x"), Err(StorageError::ContentTypeTooLong));
}

#[test]
fn empty_file_is_corrupt() {
    assert_eq!(decode_drive_record(&[]), Err(StorageError::CorruptRecord));
}

#[test]
fn declared_length_beyond_file_is_corrupt() {
    assert_eq!(decode_drive_record(&[5, b'a', b'b']), Err(StorageError::CorruptRecord));
}

#[test]
fn invalid_utf8_content_type_is_corrupt() {
    assert_eq!(decode_drive_record(&[2, 0xff, 0xfe, 7]), Err(StorageError::CorruptRecord));
}

#[test]
fn header_and_payload_read_apart() {
    let file = [3u8, b'a', b'/', b'b', 9, 8];
    let (ct, start) = read_content_type(&file).unwrap();
    assert_eq!(ct, "a/b");
    assert_eq!(start, 4);
    assert_eq!(read_file_bytes(&file, start), vec![9, 8]);
}
