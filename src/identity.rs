//! Pass-scoped identity tables: which store row an artist name, or an
//! (artist, album title) pair, resolved to earlier in the same pass. The
//! first id settled for a key stays; later ones are ignored.
use vstd::prelude::*;
use crate::strings::str_eq;

verus! {

/// Artist name to artist id.
pub struct ArtistTable {
    entries: Vec<(String, i64)>,
    ids: Ghost<Map<Seq<char>, i64>>,
}

impl View for ArtistTable {
    type V = Map<Seq<char>, i64>;

    closed spec fn view(&self) -> Map<Seq<char>, i64> {
        self.ids@
    }
}

impl ArtistTable {
    /// The entry list and the map agree.
    pub closed spec fn wf(&self) -> bool {
        &&& forall|i: int|
            0 <= i < self.entries.len() ==> self.ids@.contains_key(#[trigger] self.entries@[i].0@)
                && self.ids@[self.entries@[i].0@] == self.entries@[i].1
        &&& forall|k: Seq<char>|
            #[trigger] self.ids@.contains_key(k) ==> exists|i: int|
                0 <= i < self.entries.len() && #[trigger] self.entries@[i].0@ == k
    }

    /// An empty table, as each pass starts with.
    pub fn new() -> (r: ArtistTable)
        ensures
            r.wf(),
            r@ == Map::<Seq<char>, i64>::empty(),
    {
        ArtistTable { entries: Vec::new(), ids: Ghost(Map::empty()) }
    }

    /// The id settled for `name`.
    pub fn lookup(&self, name: &str) -> (r: Option<i64>)
        requires
            self.wf(),
        ensures
            r == (if self@.contains_key(name@) {
                Some(self@[name@])
            } else {
                None
            }),
    {
        let mut i: usize = 0;
        while i < self.entries.len()
            invariant
                i <= self.entries.len(),
                self.wf(),
                forall|j: int| 0 <= j < i ==> self.entries@[j].0@ != name@,
            decreases self.entries.len() - i,
        {
            if str_eq(self.entries[i].0.as_str(), name) {
                assert(self.ids@.contains_key(self.entries@[i as int].0@));
                return Some(self.entries[i].1);
            }
            i = i + 1;
        }
        None
    }

    /// Settles `name` on `id` unless it already has an id; returns the id
    /// that `name` stands for afterwards.
    pub fn settle(&mut self, name: String, id: i64) -> (r: i64)
        requires
            old(self).wf(),
        ensures
            final(self).wf(),
            r == (if old(self)@.contains_key(name@) {
                old(self)@[name@]
            } else {
                id
            }),
            final(self)@ == old(self)@.insert(name@, r),
    {
        match self.lookup(name.as_str()) {
            Some(x) => {
                assert(old(self)@.insert(name@, x) =~= old(self)@);
                x
            },
            None => {
                let ghost key = name@;
                self.entries.push((name, id));
                self.ids = Ghost(self.ids@.insert(key, id));
                assert forall|k: Seq<char>| #[trigger] self.ids@.contains_key(k) implies exists|i: int|
                    0 <= i < self.entries.len() && #[trigger] self.entries@[i].0@ == k by {
                    if k == key {
                        assert(self.entries@[self.entries.len() - 1].0@ == k);
                    } else {
                        assert(old(self).ids@.contains_key(k));
                        let i = choose|i: int|
                            0 <= i < old(self).entries.len() && #[trigger] old(self).entries@[i].0@ == k;
                        assert(self.entries@[i] == old(self).entries@[i]);
                    }
                }
                assert forall|i: int| 0 <= i < self.entries.len() implies self.ids@.contains_key(
                    #[trigger] self.entries@[i].0@,
                ) && self.ids@[self.entries@[i].0@] == self.entries@[i].1 by {
                    if i < old(self).entries.len() {
                        assert(self.entries@[i] == old(self).entries@[i]);
                    }
                }
                id
            },
        }
    }
}

/// (artist id, album title) to album id.
pub struct AlbumTable {
    entries: Vec<(i64, String, i64)>,
    ids: Ghost<Map<(i64, Seq<char>), i64>>,
}

impl View for AlbumTable {
    type V = Map<(i64, Seq<char>), i64>;

    closed spec fn view(&self) -> Map<(i64, Seq<char>), i64> {
        self.ids@
    }
}

impl AlbumTable {
    /// The entry list and the map agree.
    pub closed spec fn wf(&self) -> bool {
        &&& forall|i: int|
            0 <= i < self.entries.len() ==> self.ids@.contains_key(
                ((#[trigger] self.entries@[i]).0, self.entries@[i].1@),
            ) && self.ids@[(self.entries@[i].0, self.entries@[i].1@)] == self.entries@[i].2
        &&& forall|k: (i64, Seq<char>)|
            #[trigger] self.ids@.contains_key(k) ==> exists|i: int|
                0 <= i < self.entries.len() && (#[trigger] self.entries@[i]).0 == k.0
                    && self.entries@[i].1@ == k.1
    }

    /// An empty table, as each pass starts with.
    pub fn new() -> (r: AlbumTable)
        ensures
            r.wf(),
            r@ == Map::<(i64, Seq<char>), i64>::empty(),
    {
        AlbumTable { entries: Vec::new(), ids: Ghost(Map::empty()) }
    }

    /// The id settled for the album `title` of artist `artist_id`.
    pub fn lookup(&self, artist_id: i64, title: &str) -> (r: Option<i64>)
        requires
            self.wf(),
        ensures
            r == (if self@.contains_key((artist_id, title@)) {
                Some(self@[(artist_id, title@)])
            } else {
                None
            }),
    {
        let mut i: usize = 0;
        while i < self.entries.len()
            invariant
                i <= self.entries.len(),
                self.wf(),
                forall|j: int|
                    0 <= j < i ==> !((#[trigger] self.entries@[j]).0 == artist_id && self.entries@[j].1@
                        == title@),
            decreases self.entries.len() - i,
        {
            if self.entries[i].0 == artist_id && str_eq(self.entries[i].1.as_str(), title) {
                assert(self.ids@.contains_key((self.entries@[i as int].0, self.entries@[i as int].1@)));
                return Some(self.entries[i].2);
            }
            i = i + 1;
        }
        None
    }

    /// Settles the album on `id` unless it already has an id; returns the
    /// id that it stands for afterwards.
    pub fn settle(&mut self, artist_id: i64, title: String, id: i64) -> (r: i64)
        requires
            old(self).wf(),
        ensures
            final(self).wf(),
            r == (if old(self)@.contains_key((artist_id, title@)) {
                old(self)@[(artist_id, title@)]
            } else {
                id
            }),
            final(self)@ == old(self)@.insert((artist_id, title@), r),
    {
        match self.lookup(artist_id, title.as_str()) {
            Some(x) => {
                assert(old(self)@.insert((artist_id, title@), x) =~= old(self)@);
                x
            },
            None => {
                let ghost key = (artist_id, title@);
                self.entries.push((artist_id, title, id));
                self.ids = Ghost(self.ids@.insert(key, id));
                assert forall|k: (i64, Seq<char>)| #[trigger] self.ids@.contains_key(k) implies exists|
                    i: int,
                |
                    0 <= i < self.entries.len() && (#[trigger] self.entries@[i]).0 == k.0
                        && self.entries@[i].1@ == k.1 by {
                    if k == key {
                        let i = self.entries.len() - 1;
                        assert(self.entries@[i].0 == k.0 && self.entries@[i].1@ == k.1);
                    } else {
                        assert(old(self).ids@.contains_key(k));
                        let i = choose|i: int|
                            0 <= i < old(self).entries.len() && (#[trigger] old(self).entries@[i]).0
                                == k.0 && old(self).entries@[i].1@ == k.1;
                        assert(self.entries@[i] == old(self).entries@[i]);
                    }
                }
                assert forall|i: int| 0 <= i < self.entries.len() implies self.ids@.contains_key(
                    ((#[trigger] self.entries@[i]).0, self.entries@[i].1@),
                ) && self.ids@[(self.entries@[i].0, self.entries@[i].1@)] == self.entries@[i].2 by {
                    if i < old(self).entries.len() {
                        assert(self.entries@[i] == old(self).entries@[i]);
                    }
                }
                id
            },
        }
    }
}

} // verus!
