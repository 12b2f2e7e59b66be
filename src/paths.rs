//! Path strings: the final component, its extension and the parent folder.
use vstd::prelude::*;
use crate::strings::views;

verus! {

/// Index of the last `c` in `s`, or -1 when there is none.
pub open spec fn last_index_of(s: Seq<char>, c: char) -> int
    decreases s.len(),
{
    if s.len() == 0 {
        -1
    } else if s.last() == c {
        s.len() - 1
    } else {
        last_index_of(s.drop_last(), c)
    }
}

/// The final component of a path: everything after the last `/`.
pub open spec fn file_name_of(p: Seq<char>) -> Seq<char> {
    p.subrange(last_index_of(p, '/') + 1, p.len() as int)
}

/// The extension of a path's final component: the text after the last `.`,
/// absent when the name has no `.` past its first character. This is
/// `Path::extension` for paths without a trailing `/` and without a final
/// `..` component (the canonical file paths discovery produces); on those
/// two forms `Path` looks at an earlier component or gives none.
pub open spec fn extension_of(p: Seq<char>) -> Option<Seq<char>> {
    let name = file_name_of(p);
    let d = last_index_of(name, '.');
    if d > 0 {
        Some(name.subrange(d + 1, name.len() as int))
    } else {
        None
    }
}

/// The folder holding a path: everything before the last `/` (the root `/`
/// itself for a top-level entry, empty for a bare name).
pub open spec fn parent_of(p: Seq<char>) -> Seq<char> {
    let i = last_index_of(p, '/');
    if i == 0 {
        seq!['/']
    } else if i < 0 {
        Seq::empty()
    } else {
        p.subrange(0, i)
    }
}

proof fn lemma_last_index_bounds(s: Seq<char>, c: char)
    ensures
        -1 <= last_index_of(s, c) < s.len(),
        last_index_of(s, c) >= 0 ==> s[last_index_of(s, c)] == c,
        forall|j: int| last_index_of(s, c) < j < s.len() ==> s[j] != c,
    decreases s.len(),
{
    if s.len() > 0 && s.last() != c {
        let t = s.drop_last();
        lemma_last_index_bounds(t, c);
        assert forall|j: int| last_index_of(s, c) < j < s.len() implies s[j] != c by {
            if j < s.len() - 1 {
                assert(s[j] == t[j]);
            }
        }
    }
}

proof fn lemma_last_index_char(s: Seq<char>, c: char, i: int)
    requires
        0 <= i < s.len(),
        s[i] == c,
        forall|j: int| i < j < s.len() ==> s[j] != c,
    ensures
        last_index_of(s, c) == i,
    decreases s.len(),
{
    if s.last() != c {
        lemma_last_index_char(s.drop_last(), c, i);
    }
}

proof fn lemma_last_index_none(s: Seq<char>, c: char)
    requires
        forall|j: int| 0 <= j < s.len() ==> s[j] != c,
    ensures
        last_index_of(s, c) == -1,
    decreases s.len(),
{
    if s.len() > 0 {
        lemma_last_index_none(s.drop_last(), c);
    }
}

/// Position of the last `c` in `s`.
fn find_last(s: &str, c: char) -> (r: Option<usize>)
    ensures
        match r {
            Some(i) => i as int == last_index_of(s@, c),
            None => last_index_of(s@, c) == -1,
        },
{
    let n = s.unicode_len();
    let mut i: usize = n;
    while i > 0
        invariant
            i <= n,
            n == s@.len(),
            forall|j: int| i <= j < n ==> s@[j] != c,
        decreases i,
    {
        if s.get_char(i - 1) == c {
            proof {
                lemma_last_index_char(s@, c, i - 1);
            }
            return Some(i - 1);
        }
        i = i - 1;
    }
    proof {
        lemma_last_index_none(s@, c);
    }
    None
}

/// The final component of `path`.
pub fn file_name(path: &str) -> (r: &str)
    ensures
        r@ == file_name_of(path@),
{
    let n = path.unicode_len();
    match find_last(path, '/') {
        Some(i) => {
            proof {
                lemma_last_index_bounds(path@, '/');
            }
            path.substring_char(i + 1, n)
        },
        None => path.substring_char(0, n),
    }
}

/// The extension of the final component of `path`.
pub fn extension(path: &str) -> (r: Option<&str>)
    ensures
        match r {
            Some(e) => extension_of(path@) == Some(e@),
            None => extension_of(path@) is None,
        },
{
    let name = file_name(path);
    let n = name.unicode_len();
    match find_last(name, '.') {
        Some(d) => {
            proof {
                lemma_last_index_bounds(name@, '.');
            }
            if d > 0 {
                Some(name.substring_char(d + 1, n))
            } else {
                None
            }
        },
        None => None,
    }
}

/// The folder that holds `path`.
pub fn parent(path: &str) -> (r: String)
    ensures
        r@ == parent_of(path@),
{
    match find_last(path, '/') {
        Some(i) => {
            proof {
                lemma_last_index_bounds(path@, '/');
            }
            if i == 0 {
                let r = String::from_str("/");
                proof {
                    reveal_strlit("/");
                }
                assert(r@ =~= seq!['/']);
                r
            } else {
                path.substring_char(0, i).to_owned()
            }
        },
        None => {
            let r = String::new();
            assert(r@ =~= Seq::<char>::empty());
            r
        },
    }
}

/// Whether `path` carries one of the extensions in `exts`, compared exactly.
pub open spec fn has_extension_in(path: Seq<char>, exts: Seq<Seq<char>>) -> bool {
    exists|i: int| 0 <= i < exts.len() && extension_of(path) == Some(#[trigger] exts[i])
}

/// Whether a provider whose table lists `exts` handles the file at `path`.
pub fn file_is_scannable_with_provider(path: &str, exts: &Vec<String>) -> (r: bool)
    ensures
        r == has_extension_in(path@, views(exts@)),
{
    let ghost names = views(exts@);
    let ext = match extension(path) {
        Some(e) => e.to_owned(),
        None => {
            return false;
        },
    };
    let mut i: usize = 0;
    while i < exts.len()
        invariant
            i <= exts.len(),
            names == views(exts@),
            extension_of(path@) == Some(ext@),
            forall|j: int| 0 <= j < i ==> names[j] != ext@,
        decreases exts.len() - i,
    {
        if ext.eq(&exts[i]) {
            assert(names[i as int] == ext@);
            return true;
        }
        i = i + 1;
    }
    false
}

} // verus!
