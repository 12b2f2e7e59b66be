//! The scan orchestrator: a state machine that runs a pass through cleanup,
//! discovery and scanning. It performs no I/O itself; its caller lists
//! directories, checks for vanished files, reads tags and talks to the
//! store, and hands the results back.
use vstd::prelude::*;
use std::sync::mpsc::{Receiver, Sender};
use crate::channel::send;
use crate::paths::{file_is_scannable_with_provider, has_extension_in};
use crate::record::{lemma_without, without, Entries, ScanRecord};
use crate::strings::{clone_strings, contains_str, opt_view, views};

verus! {

/// Notifications from the scanner to the application.
#[derive(Debug, PartialEq, Eq, Clone, Copy, Structural)]
pub enum ScanEvent {
    Cleaning,
    DiscoverProgress(u64),
    ScanProgress { current: u64, total: u64 },
    ScanCompleteWatching,
    ScanCompleteIdle,
}

/// Requests from the application to the scanner.
#[derive(Debug, PartialEq, Eq, Clone, Copy, Structural)]
pub enum ScanCommand {
    Scan,
    Stop,
}

/// The phase a scanner is in.
#[derive(Debug, PartialEq, Eq, Clone, Copy, Structural)]
pub enum ScanState {
    Idle,
    Cleanup,
    Discovering,
    Scanning,
}

/// One entry of a directory listing, as the caller observed it: its
/// canonical path, whether it is a directory, and for a file its
/// modification time in unix seconds when that could be read.
pub struct EntryInfo {
    pub path: String,
    pub is_dir: bool,
    pub modified: Option<u64>,
}

/// A directory entry as a value.
pub struct EntryView {
    pub path: Seq<char>,
    pub is_dir: bool,
    pub modified: Option<u64>,
}

impl View for EntryInfo {
    type V = EntryView;

    open spec fn view(&self) -> EntryView {
        EntryView { path: self.path@, is_dir: self.is_dir, modified: self.modified }
    }
}

/// The entries of a listing as values.
pub open spec fn entry_views(v: Seq<EntryInfo>) -> Seq<EntryView> {
    v.map_values(|e: EntryInfo| e@)
}

/// How the work on one candidate file ended.
#[derive(Debug, PartialEq, Eq, Clone, Copy, Structural)]
pub enum FileOutcome {
    /// No provider could read the file's tags.
    Unreadable,
    /// Tags were read but storing them failed.
    Failed,
    /// The file was stored, or deliberately left out of the library.
    Done,
}

/// Discovery reports progress once per this many candidates.
pub const DISCOVER_BATCH: u64 = 20;

/// Scanning reports progress once per this many files.
pub const SCAN_BATCH: u64 = 5;

/// The state of a scanner as a value.
pub struct ScanView {
    pub roots: Seq<Seq<char>>,
    pub table: Seq<Seq<Seq<char>>>,
    pub state: ScanState,
    pub visited: Seq<Seq<char>>,
    pub discovered: Seq<Seq<char>>,
    pub to_process: Seq<Seq<char>>,
    pub current: Option<Seq<char>>,
    pub record: Entries,
    pub scanned: u64,
    pub total: u64,
}

/// Whether some provider of `table` handles `path` by its extension.
pub open spec fn scannable_by(table: Seq<Seq<Seq<char>>>, path: Seq<char>) -> bool {
    exists|i: int| 0 <= i < table.len() && has_extension_in(path, #[trigger] table[i])
}

/// Whether discovery takes the file `path` last modified at `modified` as a
/// candidate: its time is known, a provider handles it, and the record does
/// not hold it with exactly that time.
pub open spec fn takes_file(
    table: Seq<Seq<Seq<char>>>,
    record: Entries,
    path: Seq<char>,
    modified: Option<u64>,
) -> bool {
    &&& modified is Some
    &&& scannable_by(table, path)
    &&& !(record.dom().contains(path) && record[path] == modified.unwrap())
}

/// The scanner after discovery has looked at one directory entry.
pub open spec fn after_entry(v: ScanView, e: EntryView) -> ScanView {
    if e.is_dir {
        ScanView { discovered: v.discovered.push(e.path), ..v }
    } else if takes_file(v.table, v.record, e.path, e.modified) {
        ScanView {
            to_process: v.to_process.push(e.path),
            record: v.record.insert(e.path, e.modified.unwrap()),
            total: (v.total + 1) as u64,
            ..v
        }
    } else {
        v
    }
}

/// The progress event that looking at one entry emits, if any.
pub open spec fn entry_events(v: ScanView, e: EntryView) -> Seq<ScanEvent> {
    if !e.is_dir && takes_file(v.table, v.record, e.path, e.modified) && (v.total + 1)
        % DISCOVER_BATCH as int == 0 {
        seq![ScanEvent::DiscoverProgress((v.total + 1) as u64)]
    } else {
        Seq::empty()
    }
}

/// The scanner after discovery has looked at the entries of a listing in order.
pub open spec fn after_listing(v: ScanView, entries: Seq<EntryView>) -> ScanView
    decreases entries.len(),
{
    if entries.len() == 0 {
        v
    } else {
        after_entry(after_listing(v, entries.drop_last()), entries.last())
    }
}

/// The progress events emitted while looking at a listing.
pub open spec fn listing_events(v: ScanView, entries: Seq<EntryView>) -> Seq<ScanEvent>
    decreases entries.len(),
{
    if entries.len() == 0 {
        Seq::empty()
    } else {
        listing_events(v, entries.drop_last()) + entry_events(
            after_listing(v, entries.drop_last()),
            entries.last(),
        )
    }
}

/// The candidates that a stop discards: the queue and the file in work.
pub open spec fn discarded(v: ScanView) -> Seq<Seq<char>> {
    match v.current {
        Some(p) => v.to_process.push(p),
        None => v.to_process,
    }
}

/// The scanner after a command.
pub open spec fn after_command(v: ScanView, c: ScanCommand) -> ScanView {
    match c {
        ScanCommand::Scan => if v.state == ScanState::Idle {
            ScanView {
                state: ScanState::Cleanup,
                visited: Seq::empty(),
                discovered: v.roots,
                to_process: Seq::empty(),
                current: None,
                scanned: 0,
                total: 0,
                ..v
            }
        } else {
            v
        },
        ScanCommand::Stop => ScanView {
            state: ScanState::Idle,
            visited: Seq::empty(),
            discovered: Seq::empty(),
            to_process: Seq::empty(),
            current: None,
            record: without(v.record, discarded(v)),
            ..v
        },
    }
}

/// The scanner once the file in work has ended with `o`.
pub open spec fn after_file(v: ScanView, o: FileOutcome) -> ScanView {
    match v.current {
        None => v,
        Some(p) => match o {
            FileOutcome::Unreadable => ScanView { current: None, record: v.record.remove(p), ..v },
            FileOutcome::Failed => ScanView {
                current: None,
                record: v.record.remove(p),
                scanned: (v.scanned + 1) as u64,
                ..v
            },
            FileOutcome::Done => ScanView { current: None, scanned: (v.scanned + 1) as u64, ..v },
        },
    }
}

/// The progress event that ending the file in work emits, if any.
pub open spec fn file_event(v: ScanView, o: FileOutcome) -> Option<ScanEvent> {
    if v.current is Some && o != FileOutcome::Unreadable && (v.scanned + 1) % SCAN_BATCH as int
        == 0 {
        Some(ScanEvent::ScanProgress { current: (v.scanned + 1) as u64, total: v.total })
    } else {
        None
    }
}

/// Whether a listing entry is a file that a pass has already taken up at its
/// present modification time (or one that discovery ignores anyway).
pub open spec fn settled(v: ScanView, e: EntryView) -> bool {
    e.is_dir || e.modified is None || !scannable_by(v.table, e.path) || (v.record.dom().contains(
        e.path,
    ) && v.record[e.path] == e.modified.unwrap())
}

/// Rediscovering an unchanged tree: when every file of a listing is recorded
/// with its present modification time, discovery adds no candidate, leaves
/// the record and the count as they were, and reports nothing.
pub proof fn lemma_unchanged_listing_adds_nothing(v: ScanView, entries: Seq<EntryView>)
    requires
        forall|k: int| 0 <= k < entries.len() ==> settled(v, #[trigger] entries[k]),
    ensures
        after_listing(v, entries).to_process == v.to_process,
        after_listing(v, entries).record == v.record,
        after_listing(v, entries).total == v.total,
        after_listing(v, entries).table == v.table,
        listing_events(v, entries).len() == 0,
    decreases entries.len(),
{
    if entries.len() > 0 {
        let rest = entries.drop_last();
        assert forall|k: int| 0 <= k < rest.len() implies settled(v, #[trigger] rest[k]) by {
            assert(rest[k] == entries[k]);
        }
        lemma_unchanged_listing_adds_nothing(v, rest);
        assert(settled(v, entries[entries.len() - 1]));
    }
}

/// Incremental skip: a file recorded at time `t` whose listing entries all
/// still show `t` never joins the candidates, so no provider opens it again,
/// and its record entry stays.
pub proof fn lemma_unchanged_file_not_reopened(
    v: ScanView,
    entries: Seq<EntryView>,
    path: Seq<char>,
    t: u64,
)
    requires
        v.record.dom().contains(path),
        v.record[path] == t,
        forall|k: int|
            0 <= k < entries.len() && (#[trigger] entries[k]).path == path && !entries[k].is_dir
                ==> entries[k].modified == Some(t),
    ensures
        after_listing(v, entries).to_process.len() >= v.to_process.len(),
        after_listing(v, entries).to_process.subrange(0, v.to_process.len() as int) == v.to_process,
        forall|k: int|
            v.to_process.len() <= k < after_listing(v, entries).to_process.len() ==> (
            #[trigger] after_listing(v, entries).to_process[k]) != path,
        after_listing(v, entries).record.dom().contains(path),
        after_listing(v, entries).record[path] == t,
    decreases entries.len(),
{
    if entries.len() > 0 {
        let rest = entries.drop_last();
        assert forall|k: int|
            0 <= k < rest.len() && (#[trigger] rest[k]).path == path && !rest[k].is_dir implies rest[k].modified
                == Some(t) by {
            assert(rest[k] == entries[k]);
        }
        lemma_unchanged_file_not_reopened(v, rest, path, t);
        let w = after_listing(v, rest);
        let e = entries[entries.len() - 1];
        assert(entries.last() == e);
        let u = after_entry(w, e);
        if !e.is_dir && takes_file(w.table, w.record, e.path, e.modified) {
            assert(e.path != path);
            assert(u.to_process.subrange(0, v.to_process.len() as int) =~= w.to_process.subrange(
                0,
                v.to_process.len() as int,
            ));
        }
    }
}

/// The scanner: it owns the scan record and the work lists of a pass.
pub struct ScanThread {
    roots: Vec<String>,
    provider_table: Vec<Vec<String>>,
    scan_state: ScanState,
    visited: Vec<String>,
    discovered: Vec<String>,
    to_process: Vec<String>,
    current: Option<String>,
    scan_record: ScanRecord,
    scanned: u64,
    discovered_total: u64,
}

/// The extension lists of a provider table as values.
pub open spec fn table_views(t: Seq<Vec<String>>) -> Seq<Seq<Seq<char>>> {
    t.map_values(|exts: Vec<String>| views(exts@))
}

impl View for ScanThread {
    type V = ScanView;

    closed spec fn view(&self) -> ScanView {
        ScanView {
            roots: views(self.roots@),
            table: table_views(self.provider_table@),
            state: self.scan_state,
            visited: views(self.visited@),
            discovered: views(self.discovered@),
            to_process: views(self.to_process@),
            current: opt_view(self.current),
            record: self.scan_record@,
            scanned: self.scanned,
            total: self.discovered_total,
        }
    }
}

/// The counters cover the files handed out: every file counted as scanned,
/// queued or in work was counted once by discovery.
pub open spec fn counters_ok(v: ScanView) -> bool {
    v.scanned + v.to_process.len() + (if v.current is Some {
        1int
    } else {
        0int
    }) <= v.total
}

impl ScanThread {
    /// An idle scanner over the root folders `roots`, with a provider table
    /// given as one extension list per provider, and a loaded record.
    pub fn new(roots: Vec<String>, provider_table: Vec<Vec<String>>, record: ScanRecord) -> (r:
        ScanThread)
        ensures
            r@.roots == views(roots@),
            r@.table == table_views(provider_table@),
            r@.state == ScanState::Idle,
            r@.visited.len() == 0,
            r@.discovered.len() == 0,
            r@.to_process.len() == 0,
            r@.current is None,
            r@.record == record@,
            r@.scanned == 0,
            r@.total == 0,
    {
        ScanThread {
            roots,
            provider_table,
            scan_state: ScanState::Idle,
            visited: Vec::new(),
            discovered: Vec::new(),
            to_process: Vec::new(),
            current: None,
            scan_record: record,
            scanned: 0,
            discovered_total: 0,
        }
    }

    /// The current phase.
    pub fn state(&self) -> (r: ScanState)
        ensures
            r == self@.state,
    {
        self.scan_state
    }

    /// The scan record as it stands.
    pub fn record(&self) -> (r: &ScanRecord)
        ensures
            r@ == self@.record,
    {
        &self.scan_record
    }

    /// Files discovered as candidates in this pass.
    pub fn discovered_total(&self) -> (r: u64)
        ensures
            r == self@.total,
    {
        self.discovered_total
    }

    /// Files whose tags were read in this pass.
    pub fn scanned(&self) -> (r: u64)
        ensures
            r == self@.scanned,
    {
        self.scanned
    }

    /// Applies a command. `Scan` starts a pass from idle (and is ignored
    /// otherwise), emitting `Cleaning`; `Stop` returns to idle, dropping the
    /// pending candidates and their record entries so that a later pass
    /// takes them up again.
    pub fn read_command(&mut self, command: ScanCommand) -> (r: Option<ScanEvent>)
        requires
            counters_ok(old(self)@),
        ensures
            final(self)@ == after_command(old(self)@, command),
            counters_ok(final(self)@),
            r == (if command == ScanCommand::Scan && old(self)@.state == ScanState::Idle {
                Some(ScanEvent::Cleaning)
            } else {
                None
            }),
    {
        match command {
            ScanCommand::Scan => {
                if self.scan_state == ScanState::Idle {
                    self.discovered = clone_strings(&self.roots);
                    self.scan_state = ScanState::Cleanup;
                    self.visited = Vec::new();
                    self.to_process = Vec::new();
                    self.current = None;
                    self.scanned = 0;
                    self.discovered_total = 0;
                    assert(views(self.visited@) =~= Seq::<Seq<char>>::empty());
                    assert(views(self.to_process@) =~= Seq::<Seq<char>>::empty());
                    assert(self@ =~= after_command(old(self)@, command));
                    Some(ScanEvent::Cleaning)
                } else {
                    None
                }
            },
            ScanCommand::Stop => {
                let ghost before = self@;
                let mut dropped = Vec::new();
                std::mem::swap(&mut dropped, &mut self.to_process);
                assert(views(dropped@) == before.to_process);
                match self.current.take() {
                    Some(p) => {
                        dropped.push(p);
                    },
                    None => {},
                }
                assert(views(dropped@) =~= discarded(before));
                self.scan_record.remove_all(&dropped);
                self.scan_state = ScanState::Idle;
                self.visited = Vec::new();
                self.discovered = Vec::new();
                assert(views(self.visited@) =~= Seq::<Seq<char>>::empty());
                assert(views(self.discovered@) =~= Seq::<Seq<char>>::empty());
                assert(views(self.to_process@) =~= Seq::<Seq<char>>::empty());
                assert(self@ =~= after_command(old(self)@, command));
                None
            },
        }
    }

    /// The recorded paths, each once: the cleanup phase checks each of them
    /// for a backing file.
    pub fn cleanup_paths(&self) -> (r: Vec<String>)
        ensures
            views(r@).to_set() == self@.record.dom(),
            views(r@).no_duplicates(),
    {
        self.scan_record.paths()
    }

    /// Ends the cleanup phase: the paths in `removed`, whose files are gone
    /// and whose tracks were deleted, leave the record, and discovery begins.
    pub fn finish_cleanup(&mut self, removed: &Vec<String>)
        requires
            counters_ok(old(self)@),
        ensures
            counters_ok(final(self)@),
            forall|p: Seq<char>|
                #[trigger] final(self)@.record.dom().contains(p) <==> (old(self)@.record.dom().contains(p) && !views(removed@).contains(p)),
            forall|p: Seq<char>| #[trigger]
                final(self)@.record.dom().contains(p) ==> final(self)@.record[p] == old(self)@.record[p],
            final(self)@.state == (if old(self)@.state == ScanState::Cleanup {
                ScanState::Discovering
            } else {
                old(self)@.state
            }),
            final(self)@.visited == old(self)@.visited,
            final(self)@.discovered == old(self)@.discovered,
            final(self)@.to_process == old(self)@.to_process,
            final(self)@.current == old(self)@.current,
            final(self)@.scanned == old(self)@.scanned,
            final(self)@.total == old(self)@.total,
            final(self)@.roots == old(self)@.roots,
            final(self)@.table == old(self)@.table,
    {
        self.scan_record.remove_all(removed);
        proof {
            lemma_without(old(self)@.record, views(removed@));
        }
        if self.scan_state == ScanState::Cleanup {
            self.scan_state = ScanState::Discovering;
        }
    }

    /// Whether the file `path`, last modified at `modified`, becomes a
    /// candidate; if so its time is recorded.
    pub fn file_is_scannable(&mut self, path: &str, modified: Option<u64>) -> (r: bool)
        ensures
            r == takes_file(old(self)@.table, old(self)@.record, path@, modified),
            final(self)@ == (if r {
                (ScanView { record: old(self)@.record.insert(path@, modified.unwrap()), ..old(self)@ })
            } else {
                old(self)@
            }),
    {
        let timestamp = match modified {
            Some(t) => t,
            None => {
                return false;
            },
        };
        let ghost table = table_views(self.provider_table@);
        let mut i: usize = 0;
        while i < self.provider_table.len()
            invariant
                i <= self.provider_table.len(),
                self == old(self),
                modified == Some(timestamp),
                table == table_views(self.provider_table@),
                forall|j: int| 0 <= j < i ==> !has_extension_in(path@, #[trigger] table[j]),
            decreases self.provider_table.len() - i,
        {
            if file_is_scannable_with_provider(path, &self.provider_table[i]) {
                assert(table[i as int] == views(self.provider_table@[i as int]@));
                assert(has_extension_in(path@, table[i as int]));
                assert(scannable_by(old(self)@.table, path@));
                if self.scan_record.contains_unchanged(path, timestamp) {
                    return false;
                }
                self.scan_record.record(path.to_owned(), timestamp);
                return true;
            }
            i = i + 1;
        }
        false
    }

    /// The providers that handle `path` by its extension, as positions in
    /// the provider table, in table order: the caller tries them in turn
    /// until one reads the file.
    pub fn providers_for(&self, path: &str) -> (r: Vec<usize>)
        ensures
            forall|k: int|
                0 <= k < r@.len() ==> (#[trigger] r@[k]) < self@.table.len() && has_extension_in(
                    path@,
                    self@.table[r@[k] as int],
                ),
            forall|i: int|
                0 <= i < self@.table.len() && has_extension_in(path@, #[trigger] self@.table[i])
                    ==> r@.contains(i as usize),
            forall|a: int, b: int| 0 <= a < b < r@.len() ==> r@[a] < r@[b],
    {
        let ghost table = table_views(self.provider_table@);
        let mut r: Vec<usize> = Vec::new();
        let mut i: usize = 0;
        while i < self.provider_table.len()
            invariant
                i <= self.provider_table.len(),
                table == table_views(self.provider_table@),
                forall|k: int|
                    0 <= k < r@.len() ==> (#[trigger] r@[k]) < i && has_extension_in(
                        path@,
                        table[r@[k] as int],
                    ),
                forall|j: int|
                    0 <= j < i && has_extension_in(path@, #[trigger] table[j]) ==> r@.contains(
                        j as usize,
                    ),
                forall|a: int, b: int| 0 <= a < b < r@.len() ==> r@[a] < r@[b],
            decreases self.provider_table.len() - i,
        {
            let hit = file_is_scannable_with_provider(path, &self.provider_table[i]);
            assert(table[i as int] == views(self.provider_table@[i as int]@));
            if hit {
                let ghost before = r@;
                r.push(i);
                assert forall|j: int|
                    0 <= j < i + 1 && has_extension_in(path@, #[trigger] table[j]) implies r@.contains(
                    j as usize,
                ) by {
                    if j < i {
                        let k = choose|k: int| 0 <= k < before.len() && before[k] == j as usize;
                        assert(r@[k] == j as usize);
                    } else {
                        assert(r@[r@.len() - 1] == j as usize);
                    }
                }
            }
            i = i + 1;
        }
        r
    }

    /// The next directory to list. Outside discovery nothing happens. With
    /// no directory left, discovery ends and scanning begins. A directory
    /// already visited in this pass is dropped, giving `None`; any other is
    /// marked visited and returned.
    pub fn next_directory(&mut self) -> (r: Option<String>)
        requires
            counters_ok(old(self)@),
        ensures
            counters_ok(final(self)@),
            old(self)@.state != ScanState::Discovering ==> r is None && final(self)@ == old(self)@,
            old(self)@.state == ScanState::Discovering && old(self)@.discovered.len() == 0 ==> r is None
                && final(self)@ == (ScanView { state: ScanState::Scanning, ..old(self)@ }),
            old(self)@.state == ScanState::Discovering && old(self)@.discovered.len() > 0
                && old(self)@.visited.contains(old(self)@.discovered.last()) ==> r is None && final(self)@ == (ScanView { discovered: old(self)@.discovered.drop_last(), ..old(self)@ }),
            old(self)@.state == ScanState::Discovering && old(self)@.discovered.len() > 0
                && !old(self)@.visited.contains(old(self)@.discovered.last()) ==> r is Some && r.unwrap()@
                == old(self)@.discovered.last() && final(self)@ == (ScanView {
                discovered: old(self)@.discovered.drop_last(),
                visited: old(self)@.visited.push(old(self)@.discovered.last()),
                ..old(self)@
            }),
    {
        if self.scan_state != ScanState::Discovering {
            return None;
        }
        match self.discovered.pop() {
            None => {
                self.scan_state = ScanState::Scanning;
                assert(self@ =~= ScanView { state: ScanState::Scanning, ..old(self)@ });
                None
            },
            Some(path) => {
                assert(views(self.discovered@) =~= old(self)@.discovered.drop_last());
                if contains_str(&self.visited, path.as_str()) {
                    return None;
                }
                self.visited.push(path.clone());
                assert(views(self.visited@) =~= old(self)@.visited.push(path@));
                Some(path)
            },
        }
    }

    /// Takes in the listing of the directory last returned by
    /// `next_directory`, in order: subdirectories join the traversal, files
    /// that `file_is_scannable` accepts become candidates. Returns the
    /// progress events, one per `DISCOVER_BATCH` candidates. A directory that
    /// could not be read is passed as an empty listing.
    pub fn accept_listing(&mut self, entries: &Vec<EntryInfo>) -> (r: Vec<ScanEvent>)
        requires
            counters_ok(old(self)@),
            old(self)@.total + entries@.len() <= u64::MAX,
        ensures
            counters_ok(final(self)@),
            final(self)@ == after_listing(old(self)@, entry_views(entries@)),
            r@ == listing_events(old(self)@, entry_views(entries@)),
    {
        let ghost ev = entry_views(entries@);
        let mut events: Vec<ScanEvent> = Vec::new();
        let mut i: usize = 0;
        while i < entries.len()
            invariant
                i <= entries.len(),
                ev == entry_views(entries@),
                counters_ok(self@),
                self@.total <= old(self)@.total + i,
                old(self)@.total + entries@.len() <= u64::MAX,
                self@ == after_listing(old(self)@, ev.subrange(0, i as int)),
                events@ == listing_events(old(self)@, ev.subrange(0, i as int)),
            decreases entries.len() - i,
        {
            let ghost before = self@;
            let e = &entries[i];
            assert(ev.subrange(0, i + 1).drop_last() =~= ev.subrange(0, i as int));
            assert(ev.subrange(0, i + 1).last() == e@);
            if e.is_dir {
                self.discovered.push(e.path.clone());
                assert(views(self.discovered@) =~= before.discovered.push(e.path@));
                assert(self@ =~= after_entry(before, e@));
            } else if self.file_is_scannable(e.path.as_str(), e.modified) {
                self.to_process.push(e.path.clone());
                assert(views(self.to_process@) =~= before.to_process.push(e.path@));
                self.discovered_total = self.discovered_total + 1;
                if self.discovered_total % DISCOVER_BATCH == 0 {
                    events.push(ScanEvent::DiscoverProgress(self.discovered_total));
                }
                assert(self@ =~= after_entry(before, e@));
            } else {
                assert(self@ =~= after_entry(before, e@));
            }
            assert(events@ =~= listing_events(old(self)@, ev.subrange(0, i + 1)));
            i = i + 1;
        }
        assert(ev.subrange(0, entries.len() as int) =~= ev);
        events
    }

    /// The file to work on next. Outside scanning nothing happens. A file
    /// already in work is returned again. With none left, the pass ends and
    /// the scanner is idle; the caller then persists the record and reports
    /// `ScanCompleteIdle`.
    pub fn next_candidate(&mut self) -> (r: Option<String>)
        requires
            counters_ok(old(self)@),
        ensures
            counters_ok(final(self)@),
            old(self)@.state != ScanState::Scanning ==> r is None && final(self)@ == old(self)@,
            old(self)@.state == ScanState::Scanning && old(self)@.current is Some ==> opt_view(r)
                == old(self)@.current && final(self)@ == old(self)@,
            old(self)@.state == ScanState::Scanning && old(self)@.current is None
                && old(self)@.to_process.len() == 0 ==> r is None && final(self)@ == (ScanView {
                state: ScanState::Idle,
                ..old(self)@
            }),
            old(self)@.state == ScanState::Scanning && old(self)@.current is None
                && old(self)@.to_process.len() > 0 ==> r is Some && r.unwrap()@ == old(self)@.to_process.last() && final(self)@ == (ScanView {
                to_process: old(self)@.to_process.drop_last(),
                current: Some(old(self)@.to_process.last()),
                ..old(self)@
            }),
    {
        if self.scan_state != ScanState::Scanning {
            return None;
        }
        match &self.current {
            Some(p) => {
                return Some(p.clone());
            },
            None => {},
        }
        match self.to_process.pop() {
            None => {
                self.scan_state = ScanState::Idle;
                assert(self@ =~= ScanView { state: ScanState::Idle, ..old(self)@ });
                None
            },
            Some(path) => {
                assert(views(self.to_process@) =~= old(self)@.to_process.drop_last());
                self.current = Some(path.clone());
                Some(path)
            },
        }
    }

    /// Ends the work on the current file. A file that could not be read, or
    /// whose storing failed, leaves the record so that the next pass tries it
    /// again. Returns a progress event once per `SCAN_BATCH` files read.
    pub fn finish_file(&mut self, outcome: FileOutcome) -> (r: Option<ScanEvent>)
        requires
            counters_ok(old(self)@),
        ensures
            counters_ok(final(self)@),
            final(self)@ == after_file(old(self)@, outcome),
            r == file_event(old(self)@, outcome),
    {
        let path = match self.current.take() {
            Some(p) => p,
            None => {
                assert(self@ =~= old(self)@);
                return None;
            },
        };
        match outcome {
            FileOutcome::Unreadable => {
                self.scan_record.remove(path.as_str());
                assert(self@ =~= after_file(old(self)@, outcome));
                None
            },
            _ => {
                if outcome == FileOutcome::Failed {
                    self.scan_record.remove(path.as_str());
                }
                self.scanned = self.scanned + 1;
                assert(self@ =~= after_file(old(self)@, outcome));
                if self.scanned % SCAN_BATCH == 0 {
                    Some(ScanEvent::ScanProgress { current: self.scanned, total: self.discovered_total })
                } else {
                    None
                }
            },
        }
    }
}

/// The application's handle on a running scanner: a command channel, and
/// the event channel until someone takes it.
pub struct ScanInterface {
    events_rx: Option<Receiver<ScanEvent>>,
    command_tx: Sender<ScanCommand>,
}

impl ScanInterface {
    /// The receiving end of the event channel, while it has not been taken.
    pub closed spec fn events(&self) -> Option<Receiver<ScanEvent>> {
        self.events_rx
    }

    /// The sending end of the command channel.
    pub closed spec fn commands(&self) -> Sender<ScanCommand> {
        self.command_tx
    }

    /// A handle over the two channels.
    pub fn new(events_rx: Option<Receiver<ScanEvent>>, command_tx: Sender<ScanCommand>) -> (r:
        ScanInterface)
        ensures
            r.events() == events_rx,
            r.commands() == command_tx,
    {
        ScanInterface { events_rx, command_tx }
    }

    /// Asks the scanner to start a pass; the command comes back as an error
    /// when the scanner is gone.
    pub fn scan(&self) -> (r: Result<(), ScanCommand>)
        ensures
            r matches Err(c) ==> c == ScanCommand::Scan,
    {
        send(&self.command_tx, ScanCommand::Scan)
    }

    /// Asks the scanner to stop; the command comes back as an error when the
    /// scanner is gone.
    pub fn stop(&self) -> (r: Result<(), ScanCommand>)
        ensures
            r matches Err(c) ==> c == ScanCommand::Stop,
    {
        send(&self.command_tx, ScanCommand::Stop)
    }

    /// Takes the event channel out of the handle, for a loop that forwards
    /// events to the application; later calls give `None`.
    pub fn take_events(&mut self) -> (r: Option<Receiver<ScanEvent>>)
        ensures
            r == old(self).events(),
            final(self).events() is None,
            final(self).commands() == old(self).commands(),
    {
        self.events_rx.take()
    }
}

} // verus!
