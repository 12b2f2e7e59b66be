//! Albums as items of the search palette.
use vstd::prelude::*;
use std::sync::Arc;

verus! {

/// The decimal digits of `n`, most significant first.
pub open spec fn decimal(n: nat) -> Seq<char>
    decreases n,
{
    let d = seq!['0', '1', '2', '3', '4', '5', '6', '7', '8', '9'][(n % 10) as int];
    if n < 10 {
        seq![d]
    } else {
        decimal(n / 10).push(d)
    }
}

/// Appends the decimal digits of `n` to `out`.
fn push_decimal(n: u32, out: &mut String)
    ensures
        final(out)@ == old(out)@ + decimal(n as nat),
    decreases n,
{
    if n >= 10 {
        push_decimal(n / 10, out);
    }
    let d = (n % 10) as usize;
    let digits = "0123456789";
    proof {
        reveal_strlit("0123456789");
    }
    let s = digits.substring_char(d, d + 1);
    assert(s@ =~= seq![seq!['0', '1', '2', '3', '4', '5', '6', '7', '8', '9'][d as int]]);
    out.append(s);
    assert(final(out)@ =~= old(out)@ + decimal(n as nat));
}

/// An album found by a search: its id, title and artist.
#[derive(Debug, Clone, PartialEq)]
pub struct AlbumPaletteItem {
    pub id: u32,
    pub title: String,
    pub artist: String,
}

impl AlbumPaletteItem {
    /// An item for the album `id`.
    pub fn new(id: u32, title: String, artist: String) -> (r: AlbumPaletteItem)
        ensures
            r.id == id,
            r.title == title,
            r.artist == artist,
    {
        AlbumPaletteItem { id, title, artist }
    }

    /// One shared item per search result row (id, title, artist), in order.
    pub fn from_search_results(results: Vec<(u32, String, String)>) -> (r: Vec<Arc<AlbumPaletteItem>>)
        ensures
            r@.len() == results@.len(),
            forall|i: int|
                0 <= i < r@.len() ==> (#[trigger] r@[i]).id == results@[i].0 && r@[i].title
                    == results@[i].1 && r@[i].artist == results@[i].2,
    {
        let mut r: Vec<Arc<AlbumPaletteItem>> = Vec::new();
        let mut i: usize = 0;
        while i < results.len()
            invariant
                i <= results.len(),
                r@.len() == i,
                forall|k: int|
                    0 <= k < i ==> (#[trigger] r@[k]).id == results@[k].0 && r@[k].title
                        == results@[k].1 && r@[k].artist == results@[k].2,
            decreases results.len() - i,
        {
            let row = &results[i];
            let item = AlbumPaletteItem::new(row.0, row.1.clone(), row.2.clone());
            r.push(Arc::new(item));
            i = i + 1;
        }
        r
    }

    /// The image path under which the album's thumbnail is served.
    pub fn thumbnail_path(&self) -> (r: String)
        ensures
            r@ == "!db://album/"@ + decimal(self.id as nat) + "/thumb"@,
    {
        let mut r = String::from_str("!db://album/");
        push_decimal(self.id, &mut r);
        r.append("/thumb");
        r
    }
}

} // verus!
