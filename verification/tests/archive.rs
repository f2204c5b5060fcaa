use openvgdb_downloader::archive::extract_payload;
use std::io::Write;

fn build_zip(entries: &[(&str, &[u8])]) -> Vec<u8> {
    let mut writer = zip::ZipWriter::new(std::io::Cursor::new(Vec::new()));
    let options = zip::write::SimpleFileOptions::default()
        .compression_method(zip::CompressionMethod::Deflated);
    for (name, bytes) in entries {
        writer.start_file(*name, options).unwrap();
        writer.write_all(bytes).unwrap();
    }
    writer.finish().unwrap().into_inner()
}

#[test]
fn round_trip_single_entry() {
    let payload: &[u8] = b"thirty-seven bytes of known content!!";
    assert_eq!(payload.len(), 37);
    let archive = build_zip(&[("openvgdb.sqlite", payload)]);
    let extracted = extract_payload(&archive).expect("a one-entry archive yields its payload");
    assert_eq!(extracted, payload);
}

#[test]
fn round_trip_stored_entry() {
    let mut writer = zip::ZipWriter::new(std::io::Cursor::new(Vec::new()));
    let options = zip::write::SimpleFileOptions::default()
        .compression_method(zip::CompressionMethod::Stored);
    writer.start_file("openvgdb.sqlite", options).unwrap();
    writer.write_all(b"uncompressed payload").unwrap();
    let archive = writer.finish().unwrap().into_inner();
    let extracted = extract_payload(&archive).expect("a stored entry extracts too");
    assert_eq!(extracted, b"uncompressed payload");
}

#[test]
fn zero_entry_archive_is_an_error() {
    let archive = build_zip(&[]);
    assert!(extract_payload(&archive).is_err());
}

#[test]
fn garbage_bytes_are_an_error() {
    let archive = b"this is not a zip container".to_vec();
    assert!(extract_payload(&archive).is_err());
    assert!(extract_payload(&Vec::new()).is_err());
}

#[test]
fn first_entry_by_index_wins() {
    let archive = build_zip(&[("first.bin", b"the payload"), ("second.bin", b"not this one")]);
    let extracted = extract_payload(&archive).expect("a two-entry archive yields its first entry");
    assert_eq!(extracted, b"the payload");
}
