use muzak_scan::scan::{EntryInfo, FileOutcome, ScanCommand, ScanEvent, ScanState, ScanThread};
use muzak_scan::record::ScanRecord;
use muzak_scan::upsert::{JobOutcome, JobStep, Metadata, PassTables, StoreQuery, StoreReply, UpsertJob};

fn meta(artist: Option<&str>, album: Option<&str>, track: Option<u32>) -> Metadata {
    Metadata {
        name: None,
        artist: artist.map(|s| s.to_string()),
        artist_sort: None,
        album_artist: None,
        album: album.map(|s| s.to_string()),
        sort_album: None,
        genre: None,
        date: None,
        label: None,
        catalog: None,
        isrc: None,
        mbid_album: None,
        track_current: track,
        track_max: None,
        disc_current: None,
        disc_max: None,
    }
}

/// An in-memory store with the semantics of the scan queries.
#[derive(Default)]
struct Store {
    artists: Vec<(String, i64)>,
    albums: Vec<(i64, String, i64, bool)>,
    bindings: Vec<(i64, i64, String)>,
    tracks: Vec<(String, i64, String)>,
    next_id: i64,
}

impl Store {
    fn id(&mut self) -> i64 {
        self.next_id += 1;
        self.next_id
    }

    fn answer(&mut self, q: &StoreQuery) -> StoreReply {
        match q {
            StoreQuery::FindArtist { name } => match self.artists.iter().find(|a| &a.0 == name) {
                Some(a) => StoreReply::Row(a.1),
                None => StoreReply::Missing,
            },
            StoreQuery::CreateArtist { name, .. } => {
                if self.artists.iter().any(|a| &a.0 == name) {
                    StoreReply::Missing
                } else {
                    let id = self.id();
                    self.artists.push((name.clone(), id));
                    StoreReply::Row(id)
                }
            }
            StoreQuery::FindAlbum { artist_id, title } => {
                match self.albums.iter().find(|a| a.0 == *artist_id && &a.1 == title) {
                    Some(a) => StoreReply::Row(a.2),
                    None => StoreReply::Missing,
                }
            }
            StoreQuery::CreateAlbum { artist_id, title, art, .. } => {
                if self.albums.iter().any(|a| a.0 == *artist_id && &a.1 == title) {
                    StoreReply::Missing
                } else {
                    let id = self.id();
                    self.albums.push((*artist_id, title.clone(), id, art.is_some()));
                    StoreReply::Row(id)
                }
            }
            StoreQuery::FindFolder { album_id, disc } => {
                match self.bindings.iter().find(|b| b.0 == *album_id && b.1 == *disc) {
                    Some(b) => StoreReply::Folder(b.2.clone()),
                    None => StoreReply::Missing,
                }
            }
            StoreQuery::BindFolder { album_id, disc, folder } => {
                self.bindings.push((*album_id, *disc, folder.clone()));
                StoreReply::Written
            }
            StoreQuery::CreateTrack { name, album_id, path, .. } => {
                if self.tracks.iter().any(|t| &t.0 == path) {
                    StoreReply::Missing
                } else {
                    self.tracks.push((path.clone(), *album_id, name.clone()));
                    StoreReply::Written
                }
            }
        }
    }

    fn delete_track(&mut self, path: &str) {
        self.tracks.retain(|t| t.0 != path);
    }
}

fn run_job(job_start: (UpsertJob, JobStep), tables: &mut PassTables, store: &mut Store) -> (JobOutcome, usize) {
    let (mut job, mut step) = job_start;
    let mut queries = 0;
    loop {
        match step {
            JobStep::Finished(o) => return (o, queries),
            JobStep::Query(q) => {
                queries += 1;
                let reply = store.answer(&q);
                step = job.advance(tables, reply);
            }
        }
    }
}

/// The bytes of a small cover image, as read from `cover.jpg`.
fn cover_bytes() -> Vec<u8> {
    let img = image::RgbImage::from_pixel(300, 300, image::Rgb([0, 0, 255]));
    let mut buf = std::io::Cursor::new(Vec::new());
    image::DynamicImage::ImageRgb8(img).write_to(&mut buf, image::ImageFormat::Jpeg).unwrap();
    buf.into_inner()
}

fn file(path: &str, modified: u64) -> EntryInfo {
    EntryInfo { path: path.to_string(), is_dir: false, modified: Some(modified) }
}

fn dir(path: &str) -> EntryInfo {
    EntryInfo { path: path.to_string(), is_dir: true, modified: None }
}

/// The example tree: one album folder with a track and a cover.
fn listing(path: &str) -> Vec<EntryInfo> {
    match path {
        "/music" => vec![dir("/music/Artist A")],
        "/music/Artist A" => vec![dir("/music/Artist A/Album X")],
        "/music/Artist A/Album X" => vec![
            file("/music/Artist A/Album X/01 Track.flac", 100),
            file("/music/Artist A/Album X/cover.jpg", 100),
        ],
        _ => vec![],
    }
}

struct Pass {
    events: Vec<ScanEvent>,
    opened: Vec<String>,
}

/// Runs one pass the way the application does, with `exists` telling
/// which recorded files are still on disk.
fn run_pass(
    scanner: &mut ScanThread,
    store: &mut Store,
    tree: &dyn Fn(&str) -> Vec<EntryInfo>,
    exists: &dyn Fn(&str) -> bool,
) -> Pass {
    let mut events = Vec::new();
    let mut opened = Vec::new();
    events.extend(scanner.read_command(ScanCommand::Scan));
    assert_eq!(scanner.state(), ScanState::Cleanup);
    let mut removed = Vec::new();
    for p in scanner.cleanup_paths() {
        if !exists(&p) {
            store.delete_track(&p);
            removed.push(p);
        }
    }
    scanner.finish_cleanup(&removed);
    assert_eq!(scanner.state(), ScanState::Discovering);
    while scanner.state() == ScanState::Discovering {
        if let Some(d) = scanner.next_directory() {
            events.extend(scanner.accept_listing(&tree(&d)));
        }
    }
    let mut tables = PassTables::new();
    while let Some(path) = scanner.next_candidate() {
        opened.push(path.clone());
        let tags = meta(Some("Artist A"), Some("Album X"), Some(1));
        let art = Some(cover_bytes());
        let (outcome, _) = run_job(UpsertJob::start(tags, path, 180, art, &tables), &mut tables, store);
        let done = if outcome == JobOutcome::Failed { FileOutcome::Failed } else { FileOutcome::Done };
        events.extend(scanner.finish_file(done));
    }
    assert_eq!(scanner.state(), ScanState::Idle);
    events.push(ScanEvent::ScanCompleteIdle);
    Pass { events, opened }
}

fn new_scanner(record: ScanRecord) -> ScanThread {
    ScanThread::new(vec!["/music".to_string()], vec![vec!["flac".to_string(), "mp3".to_string()]], record)
}

#[test]
fn example_tree_first_and_second_scan() {
    let mut scanner = new_scanner(ScanRecord::new());
    let mut store = Store::default();
    let first = run_pass(&mut scanner, &mut store, &listing, &|_| true);
    assert_eq!(first.events.first(), Some(&ScanEvent::Cleaning));
    assert_eq!(first.events.last(), Some(&ScanEvent::ScanCompleteIdle));
    assert_eq!(first.opened, vec!["/music/Artist A/Album X/01 Track.flac".to_string()]);
    assert_eq!(store.artists.len(), 1);
    assert_eq!(store.albums.len(), 1);
    assert!(store.albums[0].3, "album created with art");
    assert_eq!(store.tracks.len(), 1);
    assert_eq!(store.tracks[0].2, "01 Track.flac");
    assert_eq!(scanner.record().paths(), vec!["/music/Artist A/Album X/01 Track.flac".to_string()]);
    assert_eq!(scanner.record().get("/music/Artist A/Album X/01 Track.flac"), Some(100));
    assert_eq!(scanner.discovered_total(), 1);

    let record_before = scanner.record().to_json().unwrap();
    let second = run_pass(&mut scanner, &mut store, &listing, &|_| true);
    assert!(second.opened.is_empty());
    assert_eq!(scanner.discovered_total(), 0);
    assert_eq!(store.artists.len(), 1);
    assert_eq!(store.albums.len(), 1);
    assert_eq!(store.tracks.len(), 1);
    assert_eq!(scanner.record().to_json().unwrap(), record_before);
}

#[test]
fn changed_file_is_taken_up_again() {
    let mut scanner = new_scanner(ScanRecord::new());
    let mut store = Store::default();
    run_pass(&mut scanner, &mut store, &listing, &|_| true);
    let touched = |p: &str| -> Vec<EntryInfo> {
        if p == "/music/Artist A/Album X" {
            vec![file("/music/Artist A/Album X/01 Track.flac", 200)]
        } else {
            listing(p)
        }
    };
    let second = run_pass(&mut scanner, &mut store, &touched, &|_| true);
    assert_eq!(second.opened.len(), 1);
    assert_eq!(scanner.record().get("/music/Artist A/Album X/01 Track.flac"), Some(200));
    assert_eq!(store.tracks.len(), 1, "re-inserting an existing path is a no-op");
}

#[test]
fn deleted_file_leaves_record_and_store() {
    let tree = |p: &str| -> Vec<EntryInfo> {
        match p {
            "/music" => vec![file("/music/a.flac", 1), file("/music/b.flac", 2)],
            _ => vec![],
        }
    };
    let mut scanner = new_scanner(ScanRecord::new());
    let mut store = Store::default();
    run_pass(&mut scanner, &mut store, &tree, &|_| true);
    assert_eq!(store.tracks.len(), 2);
    let after = |p: &str| -> Vec<EntryInfo> {
        match p {
            "/music" => vec![file("/music/b.flac", 2)],
            _ => vec![],
        }
    };
    run_pass(&mut scanner, &mut store, &after, &|p| p != "/music/a.flac");
    assert_eq!(scanner.record().get("/music/a.flac"), None);
    assert_eq!(scanner.record().get("/music/b.flac"), Some(2));
    assert_eq!(store.tracks.len(), 1);
    assert_eq!(store.tracks[0].0, "/music/b.flac");
    assert_eq!(store.artists.len(), 1);
    assert_eq!(store.albums.len(), 1);
}

#[test]
fn finish_cleanup_removes_exactly_the_given_paths() {
    let mut record = ScanRecord::new();
    record.record("/m/a.flac".to_string(), 1);
    record.record("/m/b.flac".to_string(), 2);
    record.record("/m/c.flac".to_string(), 3);
    let mut scanner = new_scanner(record);
    assert_eq!(scanner.read_command(ScanCommand::Scan), Some(ScanEvent::Cleaning));
    assert_eq!(scanner.cleanup_paths().len(), 3);
    scanner.finish_cleanup(&vec!["/m/b.flac".to_string()]);
    assert_eq!(scanner.state(), ScanState::Discovering);
    assert_eq!(scanner.record().get("/m/a.flac"), Some(1));
    assert_eq!(scanner.record().get("/m/b.flac"), None);
    assert_eq!(scanner.record().get("/m/c.flac"), Some(3));
}

#[test]
fn scan_command_ignored_unless_idle() {
    let mut scanner = new_scanner(ScanRecord::new());
    assert_eq!(scanner.read_command(ScanCommand::Scan), Some(ScanEvent::Cleaning));
    assert_eq!(scanner.read_command(ScanCommand::Scan), None);
    assert_eq!(scanner.state(), ScanState::Cleanup);
    assert_eq!(scanner.read_command(ScanCommand::Stop), None);
    assert_eq!(scanner.state(), ScanState::Idle);
}

#[test]
fn stop_forgets_pending_candidates() {
    let tree = |p: &str| -> Vec<EntryInfo> {
        match p {
            "/music" => vec![file("/music/a.flac", 1), file("/music/b.flac", 2)],
            _ => vec![],
        }
    };
    let mut scanner = new_scanner(ScanRecord::new());
    scanner.read_command(ScanCommand::Scan);
    scanner.finish_cleanup(&vec![]);
    while scanner.state() == ScanState::Discovering {
        if let Some(d) = scanner.next_directory() {
            scanner.accept_listing(&tree(&d));
        }
    }
    let first = scanner.next_candidate().unwrap();
    scanner.finish_file(FileOutcome::Done);
    assert_eq!(scanner.record().paths().len(), 2);
    scanner.read_command(ScanCommand::Stop);
    assert_eq!(scanner.state(), ScanState::Idle);
    assert_eq!(scanner.record().paths(), vec![first]);
    assert_eq!(scanner.next_candidate(), None);
}

#[test]
fn failed_and_unreadable_files_are_retried() {
    let tree = |p: &str| -> Vec<EntryInfo> {
        match p {
            "/music" => vec![file("/music/a.flac", 1), file("/music/b.flac", 2), file("/music/c.flac", 3)],
            _ => vec![],
        }
    };
    let mut scanner = new_scanner(ScanRecord::new());
    scanner.read_command(ScanCommand::Scan);
    scanner.finish_cleanup(&vec![]);
    while scanner.state() == ScanState::Discovering {
        if let Some(d) = scanner.next_directory() {
            scanner.accept_listing(&tree(&d));
        }
    }
    let c = scanner.next_candidate().unwrap();
    assert_eq!(c, "/music/c.flac");
    assert_eq!(scanner.next_candidate(), Some(c.clone()), "the file in work is handed out again");
    scanner.finish_file(FileOutcome::Unreadable);
    assert_eq!(scanner.next_candidate().unwrap(), "/music/b.flac");
    scanner.finish_file(FileOutcome::Failed);
    assert_eq!(scanner.next_candidate().unwrap(), "/music/a.flac");
    scanner.finish_file(FileOutcome::Done);
    assert_eq!(scanner.next_candidate(), None);
    assert_eq!(scanner.scanned(), 2);
    assert_eq!(scanner.record().paths(), vec!["/music/a.flac".to_string()]);
}

#[test]
fn visited_directories_are_listed_once() {
    let tree = |p: &str| -> Vec<EntryInfo> {
        match p {
            "/music" => vec![dir("/music/x"), dir("/music/x"), file("/music/a.flac", 1)],
            "/music/x" => vec![dir("/music"), file("/music/x/b.flac", 1)],
            _ => vec![],
        }
    };
    let mut scanner = new_scanner(ScanRecord::new());
    scanner.read_command(ScanCommand::Scan);
    scanner.finish_cleanup(&vec![]);
    let mut listed = Vec::new();
    while scanner.state() == ScanState::Discovering {
        if let Some(d) = scanner.next_directory() {
            listed.push(d.clone());
            scanner.accept_listing(&tree(&d));
        }
    }
    assert_eq!(listed, vec!["/music".to_string(), "/music/x".to_string()]);
    assert_eq!(scanner.discovered_total(), 2);
}

#[test]
fn discovery_and_scan_progress_batches() {
    let many = |p: &str| -> Vec<EntryInfo> {
        if p == "/music" {
            (0..45).map(|i| file(&format!("/music/{i}.mp3"), 7)).collect()
        } else {
            vec![]
        }
    };
    let mut scanner = new_scanner(ScanRecord::new());
    scanner.read_command(ScanCommand::Scan);
    scanner.finish_cleanup(&vec![]);
    let mut events = Vec::new();
    while scanner.state() == ScanState::Discovering {
        if let Some(d) = scanner.next_directory() {
            events.extend(scanner.accept_listing(&many(&d)));
        }
    }
    assert_eq!(events, vec![ScanEvent::DiscoverProgress(20), ScanEvent::DiscoverProgress(40)]);
    let mut progress = Vec::new();
    while scanner.next_candidate().is_some() {
        progress.extend(scanner.finish_file(FileOutcome::Done));
    }
    assert_eq!(progress.len(), 9);
    assert_eq!(progress[0], ScanEvent::ScanProgress { current: 5, total: 45 });
    assert_eq!(progress[8], ScanEvent::ScanProgress { current: 45, total: 45 });
}

#[test]
fn files_without_time_or_provider_are_skipped() {
    let mut scanner = new_scanner(ScanRecord::new());
    assert!(!scanner.file_is_scannable("/m/a.flac", None));
    assert!(!scanner.file_is_scannable("/m/a.ogg", Some(3)));
    assert!(scanner.file_is_scannable("/m/a.flac", Some(3)));
    assert!(!scanner.file_is_scannable("/m/a.flac", Some(3)));
    assert!(scanner.file_is_scannable("/m/a.flac", Some(4)));
    assert_eq!(scanner.record().get("/m/a.flac"), Some(4));
}

#[test]
fn providers_for_lists_matching_providers_in_order() {
    let table = vec![
        vec!["flac".to_string()],
        vec!["mp3".to_string(), "ogg".to_string()],
        vec!["flac".to_string(), "wav".to_string()],
    ];
    let scanner = ScanThread::new(vec![], table, ScanRecord::new());
    assert_eq!(scanner.providers_for("/m/a.flac"), vec![0, 2]);
    assert_eq!(scanner.providers_for("/m/a.ogg"), vec![1]);
    assert!(scanner.providers_for("/m/a.jpg").is_empty());
}
