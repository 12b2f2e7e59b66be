//! The upsert engine: resolves the artist, album and track rows of one
//! scanned file against the store. It is a state machine that asks the
//! caller for one store query at a time and takes the reply.
use vstd::prelude::*;
use crate::art::{art_view, made_from, process_art, AlbumArt, ArtView};
use crate::identity::{AlbumTable, ArtistTable};
use crate::paths::{file_name, file_name_of, parent, parent_of};
use crate::strings::{clone_opt, opt_view, str_eq};

verus! {

/// Tags read from a file by a media provider. Any field may be absent.
pub struct Metadata {
    pub name: Option<String>,
    pub artist: Option<String>,
    pub artist_sort: Option<String>,
    pub album_artist: Option<String>,
    pub album: Option<String>,
    pub sort_album: Option<String>,
    pub genre: Option<String>,
    pub date: Option<String>,
    pub label: Option<String>,
    pub catalog: Option<String>,
    pub isrc: Option<String>,
    pub mbid_album: Option<String>,
    pub track_current: Option<u32>,
    pub track_max: Option<u32>,
    pub disc_current: Option<u32>,
    pub disc_max: Option<u32>,
}

/// The artist identity of a file: its album artist, else its artist.
pub open spec fn artist_key(m: Metadata) -> Option<Seq<char>> {
    if m.album_artist is Some {
        opt_view(m.album_artist)
    } else {
        opt_view(m.artist)
    }
}

/// A sort key, defaulting to the name it sorts.
pub open spec fn sort_key(sort: Option<String>, name: Seq<char>) -> Seq<char> {
    match sort {
        Some(s) => s@,
        None => name,
    }
}

/// The disc number under which a folder is bound; -1 when the tag is absent.
pub open spec fn disc_key_of(m: Metadata) -> i64 {
    match m.disc_current {
        Some(d) => d as i64,
        None => -1i64,
    }
}

/// The name of a track: its title tag, else the file's name.
pub open spec fn track_name_of(m: Metadata, path: Seq<char>) -> Option<Seq<char>> {
    match m.name {
        Some(n) => Some(n@),
        None => if file_name_of(path).len() > 0 {
            Some(file_name_of(path))
        } else {
            None
        },
    }
}

/// The artist identity of a file.
pub fn artist_identity(m: &Metadata) -> (r: Option<String>)
    ensures
        opt_view(r) == artist_key(*m),
{
    if m.album_artist.is_some() {
        clone_opt(&m.album_artist)
    } else {
        clone_opt(&m.artist)
    }
}

/// The disc number of a file, -1 when absent.
pub fn disc_key(m: &Metadata) -> (r: i64)
    ensures
        r == disc_key_of(*m),
{
    match m.disc_current {
        Some(d) => d as i64,
        None => -1,
    }
}

/// The name of the track stored for the file at `path`.
pub fn track_name(m: &Metadata, path: &str) -> (r: Option<String>)
    ensures
        opt_view(r) == track_name_of(*m, path@),
{
    match &m.name {
        Some(n) => Some(n.clone()),
        None => {
            let f = file_name(path);
            if f.unicode_len() > 0 {
                Some(f.to_owned())
            } else {
                None
            }
        },
    }
}

fn sort_or(sort: &Option<String>, name: &String) -> (r: String)
    ensures
        r@ == sort_key(*sort, name@),
{
    match sort {
        Some(s) => s.clone(),
        None => name.clone(),
    }
}

/// A store operation, with the values it binds.
pub enum StoreQuery {
    /// The id of the artist of this name.
    FindArtist { name: String },
    /// Insert the artist unless one of this name exists; its id, if inserted.
    CreateArtist { name: String, sort_name: String },
    /// The id of this artist's album of this title.
    FindAlbum { artist_id: i64, title: String },
    /// Insert the album with its art unless it exists; its id, if inserted.
    CreateAlbum {
        artist_id: i64,
        title: String,
        sort_title: String,
        art: Option<AlbumArt>,
        date: Option<String>,
        label: Option<String>,
        catalog: Option<String>,
        isrc: Option<String>,
        mbid: Option<String>,
    },
    /// The folder bound to this album and disc.
    FindFolder { album_id: i64, disc: i64 },
    /// Bind the folder to this album and disc.
    BindFolder { album_id: i64, disc: i64, folder: String },
    /// Insert the track unless one exists for its path.
    CreateTrack {
        name: String,
        album_id: i64,
        track: Option<u32>,
        disc_number: Option<u32>,
        duration: u64,
        path: String,
        genre: Option<String>,
        artist: Option<String>,
        folder: String,
    },
}

/// A store operation as a value.
pub enum QueryView {
    FindArtist { name: Seq<char> },
    CreateArtist { name: Seq<char>, sort_name: Seq<char> },
    FindAlbum { artist_id: i64, title: Seq<char> },
    CreateAlbum {
        artist_id: i64,
        title: Seq<char>,
        sort_title: Seq<char>,
        art: Option<ArtView>,
        date: Option<Seq<char>>,
        label: Option<Seq<char>>,
        catalog: Option<Seq<char>>,
        isrc: Option<Seq<char>>,
        mbid: Option<Seq<char>>,
    },
    FindFolder { album_id: i64, disc: i64 },
    BindFolder { album_id: i64, disc: i64, folder: Seq<char> },
    CreateTrack {
        name: Seq<char>,
        album_id: i64,
        track: Option<u32>,
        disc_number: Option<u32>,
        duration: u64,
        path: Seq<char>,
        genre: Option<Seq<char>>,
        artist: Option<Seq<char>>,
        folder: Seq<char>,
    },
}

impl View for StoreQuery {
    type V = QueryView;

    open spec fn view(&self) -> QueryView {
        match self {
            StoreQuery::FindArtist { name } => QueryView::FindArtist { name: name@ },
            StoreQuery::CreateArtist { name, sort_name } => QueryView::CreateArtist {
                name: name@,
                sort_name: sort_name@,
            },
            StoreQuery::FindAlbum { artist_id, title } => QueryView::FindAlbum {
                artist_id: *artist_id,
                title: title@,
            },
            StoreQuery::CreateAlbum {
                artist_id,
                title,
                sort_title,
                art,
                date,
                label,
                catalog,
                isrc,
                mbid,
            } => QueryView::CreateAlbum {
                artist_id: *artist_id,
                title: title@,
                sort_title: sort_title@,
                art: art_view(*art),
                date: opt_view(*date),
                label: opt_view(*label),
                catalog: opt_view(*catalog),
                isrc: opt_view(*isrc),
                mbid: opt_view(*mbid),
            },
            StoreQuery::FindFolder { album_id, disc } => QueryView::FindFolder {
                album_id: *album_id,
                disc: *disc,
            },
            StoreQuery::BindFolder { album_id, disc, folder } => QueryView::BindFolder {
                album_id: *album_id,
                disc: *disc,
                folder: folder@,
            },
            StoreQuery::CreateTrack {
                name,
                album_id,
                track,
                disc_number,
                duration,
                path,
                genre,
                artist,
                folder,
            } => QueryView::CreateTrack {
                name: name@,
                album_id: *album_id,
                track: *track,
                disc_number: *disc_number,
                duration: *duration,
                path: path@,
                genre: opt_view(*genre),
                artist: opt_view(*artist),
                folder: folder@,
            },
        }
    }
}

/// The store's answer to a query.
pub enum StoreReply {
    /// A row id: found, or inserted.
    Row(i64),
    /// The folder bound to an album and disc.
    Folder(String),
    /// No row: nothing found, or an insert that met an existing row.
    Missing,
    /// A statement without result ran.
    Written,
    /// The store failed.
    Failed,
}

/// How the work on one file ended.
#[derive(Debug, PartialEq, Eq, Clone, Copy, Structural)]
pub enum JobOutcome {
    /// The track row exists.
    Stored,
    /// Neither an album artist nor an artist tag: the file is left out.
    Unclassified,
    /// No album tag: the file is left out.
    NoAlbum,
    /// Another folder is bound to this album and disc: the file is left out.
    OtherFolder,
    /// A store error, or no name for the track.
    Failed,
}

/// What a job asks for next.
pub enum JobStep {
    Query(StoreQuery),
    Finished(JobOutcome),
}

/// What a job asks for next, as a value.
pub enum StepView {
    Query(QueryView),
    Finished(JobOutcome),
}

impl View for JobStep {
    type V = StepView;

    open spec fn view(&self) -> StepView {
        match self {
            JobStep::Query(q) => StepView::Query(q@),
            JobStep::Finished(o) => StepView::Finished(*o),
        }
    }
}

/// Where a job stands: the query it waits on, or its end.
#[derive(Debug, PartialEq, Eq, Clone, Copy, Structural)]
pub enum Phase {
    Start,
    FindArtist,
    CreateArtist,
    RefindArtist,
    FindAlbum,
    CreateAlbum,
    RefindAlbum,
    FindFolder,
    BindFolder,
    CreateTrack,
    Finished(JobOutcome),
}

/// The identity tables of one scan pass.
pub struct PassTables {
    artists: ArtistTable,
    albums: AlbumTable,
}

/// The identity tables as values.
pub struct TablesView {
    pub artists: Map<Seq<char>, i64>,
    pub albums: Map<(i64, Seq<char>), i64>,
}

impl View for PassTables {
    type V = TablesView;

    closed spec fn view(&self) -> TablesView {
        TablesView { artists: self.artists@, albums: self.albums@ }
    }
}

impl PassTables {
    /// Both tables are well formed.
    pub closed spec fn wf(&self) -> bool {
        self.artists.wf() && self.albums.wf()
    }

    /// Empty tables, for a new pass.
    pub fn new() -> (r: PassTables)
        ensures
            r.wf(),
            r@.artists == Map::<Seq<char>, i64>::empty(),
            r@.albums == Map::<(i64, Seq<char>), i64>::empty(),
    {
        PassTables { artists: ArtistTable::new(), albums: AlbumTable::new() }
    }
}

/// Every id in `t` stays in `u` unchanged.
pub open spec fn tables_grow(t: TablesView, u: TablesView) -> bool {
    &&& forall|k: Seq<char>| #[trigger]
        t.artists.contains_key(k) ==> u.artists.contains_key(k) && u.artists[k] == t.artists[k]
    &&& forall|k: (i64, Seq<char>)| #[trigger]
        t.albums.contains_key(k) ==> u.albums.contains_key(k) && u.albums[k] == t.albums[k]
}

/// The work on one file.
pub struct UpsertJob {
    metadata: Metadata,
    path: String,
    duration: u64,
    art: Option<Vec<u8>>,
    phase: Phase,
    artist_id: i64,
    album_id: i64,
}

/// A job as a value.
pub struct JobView {
    pub metadata: Metadata,
    pub path: Seq<char>,
    pub duration: u64,
    pub art: Option<Seq<u8>>,
    pub phase: Phase,
    pub artist_id: i64,
    pub album_id: i64,
}

impl View for UpsertJob {
    type V = JobView;

    closed spec fn view(&self) -> JobView {
        JobView {
            metadata: self.metadata,
            path: self.path@,
            duration: self.duration,
            art: opt_bytes(self.art),
            phase: self.phase,
            artist_id: self.artist_id,
            album_id: self.album_id,
        }
    }
}

/// A job that ends now with `o`.
pub open spec fn finish(j: JobView, o: JobOutcome) -> (JobView, StepView) {
    (JobView { phase: Phase::Finished(o), ..j }, StepView::Finished(o))
}

/// Entering the track stage: create the track row, unless it has no name.
pub open spec fn enter_track(j: JobView) -> (JobView, StepView) {
    match track_name_of(j.metadata, j.path) {
        None => finish(j, JobOutcome::Failed),
        Some(n) => (
            JobView { phase: Phase::CreateTrack, ..j },
            StepView::Query(
                QueryView::CreateTrack {
                    name: n,
                    album_id: j.album_id,
                    track: j.metadata.track_current,
                    disc_number: j.metadata.disc_current,
                    duration: j.duration,
                    path: j.path,
                    genre: opt_view(j.metadata.genre),
                    artist: opt_view(j.metadata.artist),
                    folder: parent_of(j.path),
                },
            ),
        ),
    }
}

/// Entering the folder stage: ask which folder is bound to the album's disc.
pub open spec fn enter_folder(j: JobView) -> (JobView, StepView) {
    (
        JobView { phase: Phase::FindFolder, ..j },
        StepView::Query(QueryView::FindFolder { album_id: j.album_id, disc: disc_key_of(j.metadata) }),
    )
}

/// Entering the album stage: an album settled in this pass is reused,
/// otherwise the store is asked.
pub open spec fn enter_album(j: JobView, t: TablesView) -> (JobView, StepView) {
    match opt_view(j.metadata.album) {
        None => finish(j, JobOutcome::NoAlbum),
        Some(title) => if t.albums.contains_key((j.artist_id, title)) {
            enter_folder(JobView { album_id: t.albums[(j.artist_id, title)], ..j })
        } else {
            (
                JobView { phase: Phase::FindAlbum, ..j },
                StepView::Query(QueryView::FindAlbum { artist_id: j.artist_id, title }),
            )
        },
    }
}

/// Entering the artist stage: an artist settled in this pass is reused,
/// otherwise the store is asked.
pub open spec fn enter_artist(j: JobView, t: TablesView) -> (JobView, StepView) {
    match artist_key(j.metadata) {
        None => finish(j, JobOutcome::Unclassified),
        Some(a) => if t.artists.contains_key(a) {
            enter_album(JobView { artist_id: t.artists[a], ..j }, t)
        } else {
            (
                JobView { phase: Phase::FindArtist, ..j },
                StepView::Query(QueryView::FindArtist { name: a }),
            )
        },
    }
}

/// Optional bytes as a value.
pub open spec fn opt_bytes(o: Option<Vec<u8>>) -> Option<Seq<u8>> {
    match o {
        Some(b) => Some(b@),
        None => None,
    }
}

/// Whether `art` is what the art pipeline makes of the job's source art:
/// nothing without source art, else `made_from` the source bytes.
pub open spec fn art_for(source: Option<Seq<u8>>, art: Option<ArtView>) -> bool {
    match source {
        None => art is None,
        Some(b) => made_from(b, art),
    }
}

/// Whether a step inserts an album.
pub open spec fn creates_album(s: StepView) -> bool {
    s matches StepView::Query(q) && q is CreateAlbum
}

/// The art that a step inserts with an album, if it inserts one.
pub open spec fn step_art(s: StepView) -> Option<ArtView> {
    match s {
        StepView::Query(QueryView::CreateAlbum { art, .. }) => art,
        _ => None,
    }
}

/// The query that inserts the job's album with the stored forms `art`.
pub open spec fn create_album_query(j: JobView, art: Option<ArtView>) -> QueryView {
    let title = opt_view(j.metadata.album).unwrap();
    QueryView::CreateAlbum {
        artist_id: j.artist_id,
        title,
        sort_title: sort_key(j.metadata.sort_album, title),
        art,
        date: opt_view(j.metadata.date),
        label: opt_view(j.metadata.label),
        catalog: opt_view(j.metadata.catalog),
        isrc: opt_view(j.metadata.isrc),
        mbid: opt_view(j.metadata.mbid_album),
    }
}

/// The job, the tables and the next step after the store's reply `r` to
/// the query the job waits on. A row for the artist or album settles its
/// identity for the pass (an identity settled earlier wins). A missing row
/// leads from lookup to insert, and from an insert that met a concurrent
/// one back to a lookup. A bound folder other than the file's own leaves
/// the file out. A conflict on the track insert is no error. `art` is the
/// art that an album insert carries.
pub open spec fn after_reply(j: JobView, t: TablesView, r: ReplyView, art: Option<ArtView>) -> (
    JobView,
    TablesView,
    StepView,
) {
    let fail = finish(j, JobOutcome::Failed);
    match j.phase {
        Phase::FindArtist | Phase::CreateArtist | Phase::RefindArtist => {
            let a = artist_key(j.metadata).unwrap();
            match r {
                ReplyView::Row(id) => {
                    let id2 = if t.artists.contains_key(a) {
                        t.artists[a]
                    } else {
                        id
                    };
                    let t2 = TablesView { artists: t.artists.insert(a, id2), ..t };
                    let n = enter_album(JobView { artist_id: id2, ..j }, t2);
                    (n.0, t2, n.1)
                },
                ReplyView::Missing => if j.phase == Phase::FindArtist {
                    (
                        JobView { phase: Phase::CreateArtist, ..j },
                        t,
                        StepView::Query(
                            QueryView::CreateArtist {
                                name: a,
                                sort_name: sort_key(j.metadata.artist_sort, a),
                            },
                        ),
                    )
                } else if j.phase == Phase::CreateArtist {
                    (
                        JobView { phase: Phase::RefindArtist, ..j },
                        t,
                        StepView::Query(QueryView::FindArtist { name: a }),
                    )
                } else {
                    (fail.0, t, fail.1)
                },
                _ => (fail.0, t, fail.1),
            }
        },
        Phase::FindAlbum | Phase::CreateAlbum | Phase::RefindAlbum => {
            let title = opt_view(j.metadata.album).unwrap();
            let k = (j.artist_id, title);
            match r {
                ReplyView::Row(id) => {
                    let id2 = if t.albums.contains_key(k) {
                        t.albums[k]
                    } else {
                        id
                    };
                    let t2 = TablesView { albums: t.albums.insert(k, id2), ..t };
                    let n = enter_folder(JobView { album_id: id2, ..j });
                    (n.0, t2, n.1)
                },
                ReplyView::Missing => if j.phase == Phase::FindAlbum {
                    (
                        JobView { phase: Phase::CreateAlbum, ..j },
                        t,
                        StepView::Query(create_album_query(j, art)),
                    )
                } else if j.phase == Phase::CreateAlbum {
                    (
                        JobView { phase: Phase::RefindAlbum, ..j },
                        t,
                        StepView::Query(QueryView::FindAlbum { artist_id: j.artist_id, title }),
                    )
                } else {
                    (fail.0, t, fail.1)
                },
                _ => (fail.0, t, fail.1),
            }
        },
        Phase::FindFolder => match r {
            ReplyView::Folder(f) => if f == parent_of(j.path) {
                let n = enter_track(j);
                (n.0, t, n.1)
            } else {
                let n = finish(j, JobOutcome::OtherFolder);
                (n.0, t, n.1)
            },
            ReplyView::Missing => (
                JobView { phase: Phase::BindFolder, ..j },
                t,
                StepView::Query(
                    QueryView::BindFolder {
                        album_id: j.album_id,
                        disc: disc_key_of(j.metadata),
                        folder: parent_of(j.path),
                    },
                ),
            ),
            _ => (fail.0, t, fail.1),
        },
        Phase::BindFolder => match r {
            ReplyView::Written => {
                let n = enter_track(j);
                (n.0, t, n.1)
            },
            _ => (fail.0, t, fail.1),
        },
        Phase::CreateTrack => match r {
            ReplyView::Row(_) | ReplyView::Written | ReplyView::Missing => {
                let n = finish(j, JobOutcome::Stored);
                (n.0, t, n.1)
            },
            _ => (fail.0, t, fail.1),
        },
        Phase::Start => {
            let n = enter_artist(j, t);
            (n.0, t, n.1)
        },
        Phase::Finished(o) => (j, t, StepView::Finished(o)),
    }
}

impl UpsertJob {
    /// The job waits on a query that only its tags can have led to.
    pub closed spec fn wf(&self) -> bool {
        &&& (self.phase == Phase::FindArtist || self.phase == Phase::CreateArtist || self.phase
            == Phase::RefindArtist) ==> artist_key(self.metadata) is Some
        &&& (self.phase == Phase::FindAlbum || self.phase == Phase::CreateAlbum || self.phase
            == Phase::RefindAlbum) ==> self.metadata.album is Some
    }

    /// Starts the work on the file at `path`, with the tags, duration in
    /// seconds and art (embedded or found beside it) that were read from it.
    pub fn start(
        metadata: Metadata,
        path: String,
        duration: u64,
        art: Option<Vec<u8>>,
        tables: &PassTables,
    ) -> (r: (UpsertJob, JobStep))
        requires
            tables.wf(),
        ensures
            r.0.wf(),
            r.0@ == enter_artist(
                JobView {
                    metadata,
                    path: path@,
                    duration,
                    art: opt_bytes(art),
                    phase: Phase::Start,
                    artist_id: 0,
                    album_id: 0,
                },
                tables@,
            ).0,
            r.1@ == enter_artist(
                JobView {
                    metadata,
                    path: path@,
                    duration,
                    art: opt_bytes(art),
                    phase: Phase::Start,
                    artist_id: 0,
                    album_id: 0,
                },
                tables@,
            ).1,
    {
        let mut job = UpsertJob {
            metadata,
            path,
            duration,
            art,
            phase: Phase::Start,
            artist_id: 0,
            album_id: 0,
        };
        let step = job.enter_artist(tables);
        (job, step)
    }

    /// The job as a value.
    pub fn phase(&self) -> (r: Phase)
        ensures
            r == self@.phase,
    {
        self.phase
    }

    fn finish(&mut self, o: JobOutcome) -> (r: JobStep)
        ensures
            final(self)@ == finish(old(self)@, o).0,
            r@ == finish(old(self)@, o).1,
            final(self).art == old(self).art,
    {
        self.phase = Phase::Finished(o);
        JobStep::Finished(o)
    }

    fn enter_track(&mut self) -> (r: JobStep)
        ensures
            final(self)@ == enter_track(old(self)@).0,
            r@ == enter_track(old(self)@).1,
            final(self).art == old(self).art,
    {
        match track_name(&self.metadata, self.path.as_str()) {
            None => self.finish(JobOutcome::Failed),
            Some(name) => {
                self.phase = Phase::CreateTrack;
                JobStep::Query(
                    StoreQuery::CreateTrack {
                        name,
                        album_id: self.album_id,
                        track: self.metadata.track_current,
                        disc_number: self.metadata.disc_current,
                        duration: self.duration,
                        path: self.path.clone(),
                        genre: clone_opt(&self.metadata.genre),
                        artist: clone_opt(&self.metadata.artist),
                        folder: parent(self.path.as_str()),
                    },
                )
            },
        }
    }

    fn enter_folder(&mut self) -> (r: JobStep)
        ensures
            final(self)@ == enter_folder(old(self)@).0,
            r@ == enter_folder(old(self)@).1,
            final(self).art == old(self).art,
    {
        self.phase = Phase::FindFolder;
        JobStep::Query(StoreQuery::FindFolder { album_id: self.album_id, disc: disc_key(&self.metadata) })
    }

    fn enter_album(&mut self, tables: &PassTables) -> (r: JobStep)
        requires
            tables.wf(),
        ensures
            final(self)@ == enter_album(old(self)@, tables@).0,
            r@ == enter_album(old(self)@, tables@).1,
            final(self).wf(),
            final(self).art == old(self).art,
    {
        let title = match clone_opt(&self.metadata.album) {
            Some(t) => t,
            None => {
                return self.finish(JobOutcome::NoAlbum);
            },
        };
        match tables.albums.lookup(self.artist_id, title.as_str()) {
            Some(id) => {
                self.album_id = id;
                self.enter_folder()
            },
            None => {
                self.phase = Phase::FindAlbum;
                JobStep::Query(StoreQuery::FindAlbum { artist_id: self.artist_id, title })
            },
        }
    }

    fn enter_artist(&mut self, tables: &PassTables) -> (r: JobStep)
        requires
            tables.wf(),
        ensures
            final(self)@ == enter_artist(old(self)@, tables@).0,
            r@ == enter_artist(old(self)@, tables@).1,
            final(self).wf(),
            final(self).art == old(self).art,
    {
        let name = match artist_identity(&self.metadata) {
            Some(a) => a,
            None => {
                return self.finish(JobOutcome::Unclassified);
            },
        };
        match tables.artists.lookup(name.as_str()) {
            Some(id) => {
                self.artist_id = id;
                self.enter_album(tables)
            },
            None => {
                self.phase = Phase::FindArtist;
                JobStep::Query(StoreQuery::FindArtist { name })
            },
        }
    }

    /// Takes the store's reply to the query the job waits on, and returns
    /// what the job asks for next (see `after_reply`). Identities settled in
    /// `tables` keep their ids.
    pub fn advance(&mut self, tables: &mut PassTables, reply: StoreReply) -> (r: JobStep)
        requires
            old(self).wf(),
            old(tables).wf(),
        ensures
            final(self).wf(),
            final(tables).wf(),
            final(self)@ == after_reply(old(self)@, old(tables)@, reply@, step_art(r@)).0,
            final(tables)@ == after_reply(old(self)@, old(tables)@, reply@, step_art(r@)).1,
            r@ == after_reply(old(self)@, old(tables)@, reply@, step_art(r@)).2,
            creates_album(r@) ==> art_for(old(self)@.art, step_art(r@)),
            tables_grow(old(tables)@, final(tables)@),
    {
        match self.phase {
            Phase::FindArtist | Phase::CreateArtist | Phase::RefindArtist => {
                let name = match artist_identity(&self.metadata) {
                    Some(a) => a,
                    None => {
                        return self.finish(JobOutcome::Failed);
                    },
                };
                match reply {
                    StoreReply::Row(id) => {
                        let id2 = tables.artists.settle(name, id);
                        self.artist_id = id2;
                        self.enter_album(tables)
                    },
                    StoreReply::Missing => {
                        if self.phase == Phase::FindArtist {
                            let sort_name = sort_or(&self.metadata.artist_sort, &name);
                            self.phase = Phase::CreateArtist;
                            JobStep::Query(StoreQuery::CreateArtist { name, sort_name })
                        } else if self.phase == Phase::CreateArtist {
                            self.phase = Phase::RefindArtist;
                            JobStep::Query(StoreQuery::FindArtist { name })
                        } else {
                            self.finish(JobOutcome::Failed)
                        }
                    },
                    _ => self.finish(JobOutcome::Failed),
                }
            },
            Phase::FindAlbum | Phase::CreateAlbum | Phase::RefindAlbum => {
                let title = match clone_opt(&self.metadata.album) {
                    Some(t) => t,
                    None => {
                        return self.finish(JobOutcome::Failed);
                    },
                };
                match reply {
                    StoreReply::Row(id) => {
                        let id2 = tables.albums.settle(self.artist_id, title, id);
                        self.album_id = id2;
                        self.enter_folder()
                    },
                    StoreReply::Missing => {
                        if self.phase == Phase::FindAlbum {
                            let art = match &self.art {
                                Some(bytes) => process_art(bytes),
                                None => None,
                            };
                            let sort_title = sort_or(&self.metadata.sort_album, &title);
                            self.phase = Phase::CreateAlbum;
                            JobStep::Query(
                                StoreQuery::CreateAlbum {
                                    artist_id: self.artist_id,
                                    title,
                                    sort_title,
                                    art,
                                    date: clone_opt(&self.metadata.date),
                                    label: clone_opt(&self.metadata.label),
                                    catalog: clone_opt(&self.metadata.catalog),
                                    isrc: clone_opt(&self.metadata.isrc),
                                    mbid: clone_opt(&self.metadata.mbid_album),
                                },
                            )
                        } else if self.phase == Phase::CreateAlbum {
                            self.phase = Phase::RefindAlbum;
                            JobStep::Query(StoreQuery::FindAlbum { artist_id: self.artist_id, title })
                        } else {
                            self.finish(JobOutcome::Failed)
                        }
                    },
                    _ => self.finish(JobOutcome::Failed),
                }
            },
            Phase::FindFolder => match reply {
                StoreReply::Folder(f) => {
                    let own = parent(self.path.as_str());
                    if str_eq(f.as_str(), own.as_str()) {
                        self.enter_track()
                    } else {
                        self.finish(JobOutcome::OtherFolder)
                    }
                },
                StoreReply::Missing => {
                    self.phase = Phase::BindFolder;
                    JobStep::Query(
                        StoreQuery::BindFolder {
                            album_id: self.album_id,
                            disc: disc_key(&self.metadata),
                            folder: parent(self.path.as_str()),
                        },
                    )
                },
                _ => self.finish(JobOutcome::Failed),
            },
            Phase::BindFolder => match reply {
                StoreReply::Written => self.enter_track(),
                _ => self.finish(JobOutcome::Failed),
            },
            Phase::CreateTrack => match reply {
                StoreReply::Row(_) | StoreReply::Written | StoreReply::Missing => self.finish(
                    JobOutcome::Stored,
                ),
                _ => self.finish(JobOutcome::Failed),
            },
            Phase::Start => self.enter_artist(tables),
            Phase::Finished(o) => JobStep::Finished(o),
        }
    }
}

/// Whether a step asks the store for an artist, by lookup or insert.
pub open spec fn asks_for_artist(s: StepView) -> bool {
    s matches StepView::Query(q) && (q is FindArtist || q is CreateArtist)
}

/// Whether a step asks the store for an album, by lookup or insert.
pub open spec fn asks_for_album(s: StepView) -> bool {
    s matches StepView::Query(q) && (q is FindAlbum || q is CreateAlbum)
}

/// One artist row per identity: once a job has received the row of its
/// artist, any later job of the pass with the same artist identity (the
/// tables having only grown since) takes that same id and asks the store
/// for no artist.
pub proof fn lemma_one_artist_per_identity(
    first: JobView,
    t: TablesView,
    id: i64,
    later_tables: TablesView,
    later: JobView,
)
    requires
        first.phase == Phase::FindArtist || first.phase == Phase::CreateArtist || first.phase
            == Phase::RefindArtist,
        artist_key(first.metadata) is Some,
        later.phase == Phase::Start,
        artist_key(later.metadata) == artist_key(first.metadata),
        tables_grow(after_reply(first, t, ReplyView::Row(id), None).1, later_tables),
    ensures
        enter_artist(later, later_tables).0.artist_id == after_reply(
            first,
            t,
            ReplyView::Row(id),
            None,
        ).0.artist_id,
        !asks_for_artist(enter_artist(later, later_tables).1),
{
    let a = artist_key(first.metadata).unwrap();
    assert(after_reply(first, t, ReplyView::Row(id), None).1.artists.contains_key(a));
}

/// One album row per identity: once a job has received the row of its
/// album, any later job of the pass reaching the album stage with the same
/// artist id and album title takes that same id and asks the store for no
/// album.
pub proof fn lemma_one_album_per_identity(
    first: JobView,
    t: TablesView,
    id: i64,
    later_tables: TablesView,
    later: JobView,
)
    requires
        first.phase == Phase::FindAlbum || first.phase == Phase::CreateAlbum || first.phase
            == Phase::RefindAlbum,
        first.metadata.album is Some,
        later.artist_id == first.artist_id,
        opt_view(later.metadata.album) == opt_view(first.metadata.album),
        tables_grow(after_reply(first, t, ReplyView::Row(id), None).1, later_tables),
    ensures
        enter_album(later, later_tables).0.album_id == after_reply(
            first,
            t,
            ReplyView::Row(id),
            None,
        ).0.album_id,
        !asks_for_album(enter_album(later, later_tables).1),
{
    let k = (first.artist_id, opt_view(first.metadata.album).unwrap());
    assert(after_reply(first, t, ReplyView::Row(id), None).1.albums.contains_key(k));
}

/// Folder binding: a file whose album and disc are bound to another folder
/// is left out, and its job ends without creating a track.
pub proof fn lemma_other_folder_not_attached(j: JobView, t: TablesView, bound: Seq<char>)
    requires
        j.phase == Phase::FindFolder,
        bound != parent_of(j.path),
    ensures
        after_reply(j, t, ReplyView::Folder(bound), None).2 == StepView::Finished(JobOutcome::OtherFolder),
        after_reply(j, t, ReplyView::Folder(bound), None).0.phase == Phase::Finished(JobOutcome::OtherFolder),
        after_reply(j, t, ReplyView::Folder(bound), None).1 == t,
{
}

/// A store reply as a value.
pub enum ReplyView {
    Row(i64),
    Folder(Seq<char>),
    Missing,
    Written,
    Failed,
}

impl View for StoreReply {
    type V = ReplyView;

    open spec fn view(&self) -> ReplyView {
        match self {
            StoreReply::Row(id) => ReplyView::Row(*id),
            StoreReply::Folder(f) => ReplyView::Folder(f@),
            StoreReply::Missing => ReplyView::Missing,
            StoreReply::Written => ReplyView::Written,
            StoreReply::Failed => ReplyView::Failed,
        }
    }
}

} // verus!
