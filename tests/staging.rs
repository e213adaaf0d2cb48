use yabg3ml::payload::{loader_file_name, write_loader, StageError};

#[test]
fn file_is_named_by_hash() {
    assert_eq!(loader_file_name("0a1b2c"), "loader-0a1b2c.dll");
}

#[test]
fn missing_temp_dir_is_an_error() {
    let r = write_loader(false, false, "abc", &[1, 2, 3]);
    assert_eq!(r.unwrap_err(), StageError::NoTempDir);
}

#[test]
fn staging_twice_names_the_same_file() {
    let payload: Vec<u8> = (0..5000u32).map(|i| (i % 251) as u8).collect();
    let compressed = zstd::stream::encode_all(&payload[..], 3).unwrap();
    assert_ne!(compressed, payload);
    let first = write_loader(true, false, "deadbeef", &compressed).unwrap();
    assert_eq!(first.file_name, "loader-deadbeef.dll");
    assert_eq!(first.write.as_deref(), Some(&payload[..]));
    let second = write_loader(true, true, "deadbeef", &compressed).unwrap();
    assert_eq!(second.file_name, first.file_name);
    assert!(second.write.is_none());
}

#[test]
fn corrupt_payload_is_an_error() {
    let r = write_loader(true, false, "abc", &[0, 1, 2, 3, 4, 5, 6, 7]);
    assert_eq!(r.unwrap_err(), StageError::DecompressionError);
}
