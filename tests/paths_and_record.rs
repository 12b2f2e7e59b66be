use muzak_scan::paths::{extension, file_is_scannable_with_provider, file_name, parent};
use muzak_scan::record::ScanRecord;

#[test]
fn extension_is_text_after_last_dot() {
    assert_eq!(extension("/music/a/01 Track.flac"), Some("flac"));
    assert_eq!(extension("/music/a.b/track.tar.gz"), Some("gz"));
    assert_eq!(extension("/music/a.b/track"), None);
    assert_eq!(extension("/music/.hidden"), None);
    assert_eq!(extension("/music/name."), Some(""));
}

#[test]
fn file_name_and_parent() {
    assert_eq!(file_name("/music/Artist A/01.flac"), "01.flac");
    assert_eq!(parent("/music/Artist A/01.flac"), "/music/Artist A");
    assert_eq!(parent("/01.flac"), "/");
    assert_eq!(parent("01.flac"), "");
}

#[test]
fn provider_extension_match_is_exact() {
    let exts = vec!["flac".to_string(), "mp3".to_string()];
    assert!(file_is_scannable_with_provider("/m/a.flac", &exts));
    assert!(file_is_scannable_with_provider("/m/a.mp3", &exts));
    assert!(!file_is_scannable_with_provider("/m/a.FLAC", &exts));
    assert!(!file_is_scannable_with_provider("/m/a.jpg", &exts));
    assert!(!file_is_scannable_with_provider("/m/flac", &exts));
}

#[test]
fn record_insert_lookup_remove() {
    let mut r = ScanRecord::new();
    assert_eq!(r.get("/a.flac"), None);
    r.record("/a.flac".to_string(), 5);
    assert!(r.contains_unchanged("/a.flac", 5));
    assert!(!r.contains_unchanged("/a.flac", 6));
    r.record("/a.flac".to_string(), 6);
    assert_eq!(r.get("/a.flac"), Some(6));
    r.remove("/a.flac");
    assert_eq!(r.get("/a.flac"), None);
    assert!(r.paths().is_empty());
}

#[test]
fn record_reads_persisted_json() {
    let (r, warned) = ScanRecord::from_json("{\"/m/a.flac\": 10, \"/m/b.mp3\": 20}");
    assert!(!warned);
    assert_eq!(r.get("/m/a.flac"), Some(10));
    assert_eq!(r.get("/m/b.mp3"), Some(20));
    let mut paths = r.paths();
    paths.sort();
    assert_eq!(paths, vec!["/m/a.flac".to_string(), "/m/b.mp3".to_string()]);
}

#[test]
fn corrupt_record_gives_empty_record_and_warning() {
    let (r, warned) = ScanRecord::from_json("{\"/m/a.flac\": 10,");
    assert!(warned);
    assert!(r.paths().is_empty());
    let (r, warned) = ScanRecord::from_json("[1, 2, 3]");
    assert!(warned);
    assert!(r.paths().is_empty());
}

#[test]
fn record_json_round_trip() {
    let mut r = ScanRecord::new();
    r.record("/m/a.flac".to_string(), 1);
    r.record("/m/b.flac".to_string(), 2);
    let text = r.to_json().expect("serialises");
    assert!(text.contains("\"/m/a.flac\":1"));
    let (back, warned) = ScanRecord::from_json(&text);
    assert!(!warned);
    assert_eq!(back.get("/m/a.flac"), Some(1));
    assert_eq!(back.get("/m/b.flac"), Some(2));
    assert_eq!(back.paths().len(), 2);
}
