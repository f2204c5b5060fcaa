use openvgdb_downloader::feed::parse_feed;
use openvgdb_downloader::resolver::{
    decide_update, download_url, resolve_update, Preferences, DEFAULT_UPDATE_INTERVAL,
};

fn prefs_with_version(version: &str) -> Preferences {
    Preferences {
        version_key: String::from(version),
        update_check_key: String::new(),
        update_interval_key: DEFAULT_UPDATE_INTERVAL,
    }
}

#[test]
fn equality_rule_single_entry() {
    let prefs = prefs_with_version("1.2.0");
    let update = resolve_update(&prefs, Some("[{\"tag_name\": \"1.2.0\"}]"));
    assert!(update.is_none());
}

#[test]
fn difference_rule_single_entry() {
    let prefs = prefs_with_version("1.1.0");
    let update = resolve_update(&prefs, Some("[{\"tag_name\": \"1.2.0\"}]"));
    let (url, version) = update.expect("a differing tag warrants an update");
    assert_eq!(
        url,
        "https://github.com/OpenVGDB/OpenVGDB/releases/download/1.2.0/openvgdb.zip"
    );
    assert_eq!(version, "1.2.0");
}

#[test]
fn fail_soft_on_failed_request() {
    let prefs = prefs_with_version("1.1.0");
    assert!(resolve_update(&prefs, None).is_none());
}

#[test]
fn fail_soft_on_invalid_json() {
    let prefs = prefs_with_version("1.1.0");
    assert!(resolve_update(&prefs, Some("")).is_none());
    assert!(resolve_update(&prefs, Some("not json")).is_none());
    assert!(resolve_update(&prefs, Some("[{")).is_none());
    assert!(resolve_update(&prefs, Some("{\"tag_name\": \"1.2.0\"}")).is_none());
    assert!(resolve_update(&prefs, Some("[{\"tag_name\": \"1.2.0\"}] x")).is_none());
    assert!(resolve_update(&prefs, Some("[{\"tag_name\": 120}]")).is_none());
    assert!(resolve_update(&prefs, Some("[{\"other\": \"1.2.0\"}]")).is_none());
    assert!(resolve_update(&prefs, Some("[{\"tag_name\": \"a\", \"tag_name\": \"b\"}]")).is_none());
    assert!(resolve_update(&prefs, Some("[1, 2]")).is_none());
}

#[test]
fn empty_feed_means_no_update() {
    let prefs = prefs_with_version("1.1.0");
    assert!(resolve_update(&prefs, Some("[]")).is_none());
    assert!(resolve_update(&prefs, Some("  [ ]  ")).is_none());
}

#[test]
fn never_installed_gets_first_release() {
    let prefs = prefs_with_version("");
    let update = resolve_update(&prefs, Some("[{\"tag_name\": \"1.0.0\"}]"));
    let (url, version) = update.expect("an empty stored version differs from any tag");
    assert_eq!(
        url,
        "https://github.com/OpenVGDB/OpenVGDB/releases/download/1.0.0/openvgdb.zip"
    );
    assert_eq!(version, "1.0.0");
}

#[test]
fn parser_skips_unrelated_fields() {
    let body = "[{\"id\": 17, \"assets\": [{\"name\": \"a \\\"quoted\\\" one\"}], \
                 \"meta\": {\"deep\": {\"list\": [true, null, -1.5e3]}}, \
                 \"tag_name\": \"2.0.1\"}]";
    let tags = parse_feed(body).expect("a well-shaped feed parses");
    assert_eq!(tags, vec![String::from("2.0.1")]);
}

#[test]
fn parser_keeps_feed_order() {
    let body = "[{\"tag_name\": \"1.0.0\"}, {\"tag_name\": \"1.1.0\"}]";
    let tags = parse_feed(body).expect("a well-shaped feed parses");
    assert_eq!(tags, vec![String::from("1.0.0"), String::from("1.1.0")]);
}

#[test]
fn parser_rejects_escaped_tag() {
    assert!(parse_feed("[{\"tag_name\": \"1.0\\n0\"}]").is_none());
}

#[test]
fn last_differing_tag_wins() {
    let current = String::from("1.1.0");
    let tags = vec![
        String::from("1.2.0"),
        String::from("1.1.0"),
        String::from("1.3.0"),
    ];
    let (url, version) = decide_update(&current, &tags).expect("some tag differs");
    assert_eq!(version, "1.3.0");
    assert_eq!(
        url,
        "https://github.com/OpenVGDB/OpenVGDB/releases/download/1.3.0/openvgdb.zip"
    );

    let tags = vec![String::from("1.2.0"), String::from("1.1.0")];
    let (_, version) = decide_update(&current, &tags).expect("some tag differs");
    assert_eq!(version, "1.2.0");
}

#[test]
fn all_tags_equal_means_no_update() {
    let current = String::from("1.1.0");
    let tags = vec![String::from("1.1.0"), String::from("1.1.0")];
    assert!(decide_update(&current, &tags).is_none());
}

#[test]
fn initial_preferences() {
    let prefs = Preferences::initial();
    assert_eq!(prefs.version_key, "");
    assert_eq!(prefs.update_check_key, "");
    assert_eq!(prefs.update_interval_key, 86400);
}

#[test]
fn download_url_matches_template() {
    let url = download_url(&String::from("9.9.9"));
    assert_eq!(
        url,
        "https://github.com/OpenVGDB/OpenVGDB/releases/download/9.9.9/openvgdb.zip"
    );
}
