use openvgdb_downloader::archive::extract_payload;
use openvgdb_downloader::resolver::{resolve_update, Preferences, DEFAULT_UPDATE_INTERVAL};
use openvgdb_downloader::startup::{
    archive_file_name, database_file_name, feed_url, plan_startup, user_agent, StartupAction,
};
use std::io::Write;

fn build_zip(entries: &[(&str, &[u8])]) -> Vec<u8> {
    let mut writer = zip::ZipWriter::new(std::io::Cursor::new(Vec::new()));
    let options = zip::write::SimpleFileOptions::default()
        .compression_method(zip::CompressionMethod::Deflated);
    for (name, bytes) in entries {
        writer.start_file(*name, options).unwrap();
        writer.write_all(bytes).unwrap();
    }
    writer.finish().unwrap().into_inner()
}

#[test]
fn existing_database_suppresses_the_check() {
    assert_eq!(plan_startup(true), StartupAction::OpenExisting);
}

#[test]
fn absent_database_triggers_the_check() {
    assert_eq!(plan_startup(false), StartupAction::CheckFeed);
}

#[test]
fn full_sequence_installs_then_skips() {
    let known_bytes: &[u8] = b"the freshly published database image";

    // First run: the destination file is absent, so the feed is consulted.
    assert_eq!(plan_startup(false), StartupAction::CheckFeed);

    let prefs = Preferences {
        version_key: String::from("1.1.0"),
        update_check_key: String::new(),
        update_interval_key: DEFAULT_UPDATE_INTERVAL,
    };
    let update = resolve_update(&prefs, Some("[{\"tag_name\": \"1.2.0\"}]"));
    let (url, version) = update.expect("a newer release warrants an update");
    assert_eq!(
        url,
        "https://github.com/OpenVGDB/OpenVGDB/releases/download/1.2.0/openvgdb.zip"
    );
    assert_eq!(version, "1.2.0");

    // The archive downloaded from that URL holds one entry with the new
    // database; installing yields exactly those bytes for the destination.
    let archive = build_zip(&[("openvgdb.sqlite", known_bytes)]);
    let installed = extract_payload(&archive).expect("a one-entry archive installs");
    assert_eq!(installed, known_bytes);

    // Second run: the destination file is present, so no network request
    // is planned at all and the file stays as it is.
    assert_eq!(plan_startup(true), StartupAction::OpenExisting);
}

#[test]
fn fixed_endpoint_values() {
    assert_eq!(
        feed_url(),
        "https://api.github.com/repos/OpenVGDB/OpenVGDB/releases?page=1&per_page=1"
    );
    assert_eq!(user_agent(), "OpenVGDBDownloader");
    assert_eq!(database_file_name(), "openvgdb.sqlite");
    assert_eq!(archive_file_name(), "openvgdb.zip");
}
