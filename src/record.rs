//! The scan record: absolute file path to the modification time (unix
//! seconds) observed when the file was last taken up by a scan pass.
use vstd::prelude::*;
use ahash::{AHashMap, RandomState};
use crate::strings::views;

verus! {

#[verifier::external_type_specification]
#[verifier::external_body]
pub struct ExRandomState(RandomState);

#[verifier::external_type_specification]
#[verifier::external_body]
#[verifier::reject_recursive_types(K)]
#[verifier::reject_recursive_types(V)]
#[verifier::reject_recursive_types(S)]
pub struct ExAHashMap<K, V, S>(AHashMap<K, V, S>);

/// A mapping from path to timestamp.
pub type Entries = Map<Seq<char>, u64>;

/// The entries of a path-to-timestamp map.
pub uninterp spec fn entries_of(m: AHashMap<String, u64>) -> Map<Seq<char>, u64>;

/// The mapping that a JSON text denotes when read as an object of paths to
/// unsigned integers, or none when it is not such a text.
pub uninterp spec fn json_record(text: Seq<char>) -> Option<Map<Seq<char>, u64>>;

/// Relies on `AHashMap::new`: a new map is empty.
#[verifier::external_body]
fn map_new() -> (r: AHashMap<String, u64>)
    ensures
        entries_of(r) == Entries::empty(),
{
    AHashMap::new()
}

/// Relies on `AHashMap::get`: the value stored under `key`, if any.
#[verifier::external_body]
fn map_get(m: &AHashMap<String, u64>, key: &str) -> (r: Option<u64>)
    ensures
        r == (if entries_of(*m).dom().contains(key@) {
            Some(entries_of(*m)[key@])
        } else {
            None
        }),
{
    m.get(key).copied()
}

/// Relies on `AHashMap::insert`: `key` then maps to `value`, all other
/// entries unchanged.
#[verifier::external_body]
fn map_insert(m: &mut AHashMap<String, u64>, key: String, value: u64)
    ensures
        entries_of(*final(m)) == entries_of(*old(m)).insert(key@, value),
{
    m.insert(key, value);
}

/// Relies on `AHashMap::remove`: the entry of `key` is gone, all others kept.
#[verifier::external_body]
fn map_remove(m: &mut AHashMap<String, u64>, key: &str)
    ensures
        entries_of(*final(m)) == entries_of(*old(m)).remove(key@),
{
    m.remove(key);
}

/// Relies on `HashMap::keys`: every key exactly once, in an unspecified order.
#[verifier::external_body]
fn map_keys(m: &AHashMap<String, u64>) -> (r: Vec<String>)
    ensures
        r@.map_values(|k: String| k@).to_set() == entries_of(*m).dom(),
        r@.map_values(|k: String| k@).no_duplicates(),
{
    m.keys().cloned().collect()
}

/// Relies on `serde_json::from_str`, reading a JSON object into an
/// `AHashMap<String, u64>`.
#[verifier::external_body]
fn map_from_json(text: &str) -> (r: Option<AHashMap<String, u64>>)
    ensures
        match r {
            Some(m) => json_record(text@) == Some(entries_of(m)),
            None => json_record(text@) is None,
        },
{
    serde_json::from_str(text).ok()
}

/// Relies on `serde_json::to_string`, writing the map as a JSON object of
/// string keys and integer values, which cannot fail; reading that text back
/// gives the same entries. The order of its keys follows the map's walk and
/// is not specified.
#[verifier::external_body]
fn map_to_json(m: &AHashMap<String, u64>) -> (r: Option<String>)
    ensures
        r is Some,
        r matches Some(t) ==> json_record(t@) == Some(entries_of(*m)),
{
    serde_json::to_string(m).ok()
}

/// `m` without the entries of `keys`.
pub open spec fn without(m: Entries, keys: Seq<Seq<char>>) -> Entries
    decreases keys.len(),
{
    if keys.len() == 0 {
        m
    } else {
        without(m, keys.drop_last()).remove(keys.last())
    }
}

/// The entries left by `without` are exactly those of `m` whose key is not
/// listed, with their values unchanged.
pub proof fn lemma_without(m: Entries, keys: Seq<Seq<char>>)
    ensures
        forall|p: Seq<char>|
            #[trigger] without(m, keys).dom().contains(p) <==> (m.dom().contains(p) && !keys.contains(p)),
        forall|p: Seq<char>| #[trigger] without(m, keys).dom().contains(p) ==> without(m, keys)[p] == m[p],
    decreases keys.len(),
{
    if keys.len() > 0 {
        let rest = keys.drop_last();
        lemma_without(m, rest);
        assert forall|p: Seq<char>| keys.contains(p) <==> (rest.contains(p) || p == keys.last()) by {
            if keys.contains(p) {
                let i = choose|i: int| 0 <= i < keys.len() && keys[i] == p;
                if i < keys.len() - 1 {
                    assert(rest[i] == p);
                }
            }
            if rest.contains(p) {
                let i = choose|i: int| 0 <= i < rest.len() && rest[i] == p;
                assert(keys[i] == p);
            }
            if p == keys.last() {
                assert(keys[keys.len() - 1] == p);
            }
        }
        assert forall|p: Seq<char>|
            #[trigger] without(m, keys).dom().contains(p) <==> (m.dom().contains(p) && !keys.contains(p)) by {
            assert(without(m, keys).dom().contains(p) <==> (without(m, rest).dom().contains(p) && p != keys.last()));
        }
        assert forall|p: Seq<char>| #[trigger] without(m, keys).dom().contains(p) implies without(m, keys)[p] == m[p] by {
            assert(without(m, rest).dom().contains(p));
        }
    }
}

/// The persisted path-to-timestamp index used to skip unchanged files.
pub struct ScanRecord {
    map: AHashMap<String, u64>,
}

impl View for ScanRecord {
    type V = Map<Seq<char>, u64>;

    closed spec fn view(&self) -> Map<Seq<char>, u64> {
        entries_of(self.map)
    }
}

impl ScanRecord {
    /// An empty record.
    pub fn new() -> (r: ScanRecord)
        ensures
            r@ == Entries::empty(),
    {
        ScanRecord { map: map_new() }
    }

    /// Reads a persisted record. A text that is not a JSON object of paths
    /// to timestamps gives an empty record and a warning flag (`true`): the
    /// next pass then rescans everything instead of failing.
    pub fn from_json(text: &str) -> (r: (ScanRecord, bool))
        ensures
            match json_record(text@) {
                Some(m) => r.0@ == m && !r.1,
                None => r.0@ == Entries::empty() && r.1,
            },
    {
        match map_from_json(text) {
            Some(map) => (ScanRecord { map }, false),
            None => (ScanRecord::new(), true),
        }
    }

    /// The record as JSON text, for an atomic write by the caller: text
    /// that `from_json` reads back as this very record.
    pub fn to_json(&self) -> (r: Option<String>)
        ensures
            r is Some,
            r matches Some(t) ==> json_record(t@) == Some(self@),
    {
        map_to_json(&self.map)
    }

    /// The timestamp recorded for `path`.
    pub fn get(&self, path: &str) -> (r: Option<u64>)
        ensures
            r == (if self@.dom().contains(path@) {
                Some(self@[path@])
            } else {
                None
            }),
    {
        map_get(&self.map, path)
    }

    /// Whether `path` is recorded with exactly `timestamp`.
    pub fn contains_unchanged(&self, path: &str, timestamp: u64) -> (r: bool)
        ensures
            r == (self@.dom().contains(path@) && self@[path@] == timestamp),
    {
        match map_get(&self.map, path) {
            Some(t) => t == timestamp,
            None => false,
        }
    }

    /// Records `timestamp` for `path`, replacing any earlier entry.
    pub fn record(&mut self, path: String, timestamp: u64)
        ensures
            final(self)@ == old(self)@.insert(path@, timestamp),
    {
        map_insert(&mut self.map, path, timestamp);
    }

    /// Forgets `path`.
    pub fn remove(&mut self, path: &str)
        ensures
            final(self)@ == old(self)@.remove(path@),
    {
        map_remove(&mut self.map, path);
    }

    /// Forgets every path in `paths`.
    pub fn remove_all(&mut self, paths: &Vec<String>)
        ensures
            final(self)@ == without(old(self)@, views(paths@)),
    {
        let mut i: usize = 0;
        while i < paths.len()
            invariant
                i <= paths.len(),
                self@ == without(old(self)@, views(paths@).subrange(0, i as int)),
            decreases paths.len() - i,
        {
            self.remove(paths[i].as_str());
            assert(views(paths@).subrange(0, i + 1).drop_last() =~= views(paths@).subrange(0, i as int));
            i = i + 1;
        }
        assert(views(paths@).subrange(0, paths.len() as int) =~= views(paths@));
    }

    /// Every recorded path once, in no particular order.
    pub fn paths(&self) -> (r: Vec<String>)
        ensures
            r@.map_values(|k: String| k@).to_set() == self@.dom(),
            r@.map_values(|k: String| k@).no_duplicates(),
    {
        map_keys(&self.map)
    }
}

} // verus!
