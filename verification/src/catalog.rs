//! The two tables as mathematical values, and what each query and mutation
//! of the storage layer means on them.

use crate::models::{band_fields, band_record_of, leading, sole, BandView, SongView};
use crate::payload::{patched, PatchView};
use vstd::prelude::*;

verus! {

/// The bands whose name is `name`.
pub open spec fn named(name: Seq<char>) -> spec_fn(BandView) -> bool {
    |b: BandView| b.name == name
}

/// The songs whose title is `title`.
pub open spec fn titled(title: Seq<char>) -> spec_fn(SongView) -> bool {
    |s: SongView| s.title == title
}

/// The songs whose band field is `band`.
pub open spec fn played_by(band: Seq<char>) -> spec_fn(SongView) -> bool {
    |s: SongView| s.band == band
}

/// The songs whose id is `id`.
pub open spec fn identified(id: int) -> spec_fn(SongView) -> bool {
    |s: SongView| s.id == id
}

/// The songs whose id is not `id`.
pub open spec fn not_identified(id: int) -> spec_fn(SongView) -> bool {
    |s: SongView| s.id != id
}

/// The rewriting that an update applies to every song: the song with the
/// given id is patched, every other song stays as it is.
pub open spec fn patching(id: int, patch: PatchView, now: Seq<char>) -> spec_fn(
    SongView,
) -> SongView {
    |s: SongView|
        if s.id == id {
            patched(s, patch, now)
        } else {
            s
        }
}

/// The largest id among `songs`, and 0 where none is positive.
pub open spec fn largest_id(songs: Seq<SongView>) -> int
    decreases songs.len(),
{
    if songs.len() == 0 {
        0
    } else {
        let before = largest_id(songs.drop_last());
        if songs.last().id > before {
            songs.last().id
        } else {
            before
        }
    }
}

/// The contents of the store: the rows of both tables in storage order.
pub struct Catalog {
    pub bands: Seq<BandView>,
    pub songs: Seq<SongView>,
}

impl Catalog {
    /// The band that a lookup by name finds: the one band of that name.
    /// Where no band or more than one band has the name, the lookup finds
    /// nothing.
    pub open spec fn band_named(self, name: Seq<char>) -> Option<BandView> {
        sole(self.bands.filter(named(name)))
    }

    /// The songs with the given title, in storage order.
    pub open spec fn songs_titled(self, title: Seq<char>) -> Seq<SongView> {
        self.songs.filter(titled(title))
    }

    /// The songs of the given band, in storage order.
    pub open spec fn songs_of_band(self, band: Seq<char>) -> Seq<SongView> {
        self.songs.filter(played_by(band))
    }

    /// The song that a lookup by id finds: the first one with that id.
    pub open spec fn song_with_id(self, id: int) -> Option<SongView> {
        leading(self.songs.filter(identified(id)))
    }

    /// The id that a dependable backend gives the next song: one more than
    /// the largest id in the table, and 1 in an empty table.
    pub open spec fn next_id(self) -> int {
        largest_id(self.songs) + 1
    }

    /// The store with one more song behind the others.
    pub open spec fn with_song(self, song: SongView) -> Catalog {
        Catalog { bands: self.bands, songs: self.songs.push(song) }
    }

    /// The store after an update of the song with the given id.
    pub open spec fn updated(self, id: int, patch: PatchView, now: Seq<char>) -> Catalog {
        Catalog { bands: self.bands, songs: self.songs.map_values(patching(id, patch, now)) }
    }

    /// The store without the song with the given id.
    pub open spec fn deleted(self, id: int) -> Catalog {
        Catalog { bands: self.bands, songs: self.songs.filter(not_identified(id)) }
    }
}

/// Which songs a listing asks for.
pub enum SongFilter {
    /// Every song.
    All,
    /// The songs of a title.
    Title(String),
    /// The songs of a band.
    Band(String),
}

/// A song filter as mathematical values.
pub enum FilterView {
    All,
    Title(Seq<char>),
    Band(Seq<char>),
}

impl View for SongFilter {
    type V = FilterView;

    open spec fn view(&self) -> FilterView {
        match self {
            SongFilter::All => FilterView::All,
            SongFilter::Title(t) => FilterView::Title(t@),
            SongFilter::Band(b) => FilterView::Band(b@),
        }
    }
}

/// The songs that a filter lets through.
pub open spec fn accepted(filter: FilterView) -> spec_fn(SongView) -> bool {
    match filter {
        FilterView::All => |s: SongView| true,
        FilterView::Title(t) => titled(t),
        FilterView::Band(b) => played_by(b),
    }
}

/// The songs that a listing under `filter` holds, in storage order.
pub open spec fn selected(catalog: Catalog, filter: FilterView) -> Seq<SongView> {
    match filter {
        FilterView::All => catalog.songs,
        FilterView::Title(t) => catalog.songs_titled(t),
        FilterView::Band(b) => catalog.songs_of_band(b),
    }
}

/// No song has an id above the largest, and the largest is not negative.
pub proof fn lemma_largest_id(songs: Seq<SongView>)
    ensures
        largest_id(songs) >= 0,
        forall|j: int| 0 <= j < songs.len() ==> (#[trigger] songs[j]).id <= largest_id(songs),
    decreases songs.len(),
{
    if songs.len() > 0 {
        lemma_largest_id(songs.drop_last());
        assert forall|j: int| 0 <= j < songs.len() implies (#[trigger] songs[j]).id <= largest_id(
            songs,
        ) by {
            if j < songs.len() - 1 {
                assert(songs.drop_last()[j] == songs[j]);
            }
        }
    }
}

/// The id that a dependable backend gives next is held by no song.
pub proof fn lemma_next_id_unused(catalog: Catalog)
    ensures
        catalog.song_with_id(catalog.next_id()) is None,
{
    lemma_largest_id(catalog.songs);
    lemma_filter_none(catalog.songs, identified(catalog.next_id()));
}

/// A selection is empty where no element is selected.
pub proof fn lemma_filter_none<A>(s: Seq<A>, pred: spec_fn(A) -> bool)
    requires
        forall|j: int| 0 <= j < s.len() ==> !pred(#[trigger] s[j]),
    ensures
        s.filter(pred).len() == 0,
    decreases s.len(),
{
    reveal(Seq::filter);
    if s.len() > 0 {
        lemma_filter_none(s.drop_last(), pred);
    }
}

/// A selection begins with the first element that is selected.
pub proof fn lemma_filter_first<A>(s: Seq<A>, pred: spec_fn(A) -> bool, i: int)
    requires
        0 <= i < s.len(),
        pred(s[i]),
        forall|j: int| 0 <= j < i ==> !pred(#[trigger] s[j]),
    ensures
        s.filter(pred).len() > 0,
        s.filter(pred)[0] == s[i],
    decreases s.len(),
{
    reveal(Seq::filter);
    let front = s.drop_last();
    if i == s.len() - 1 {
        lemma_filter_none(front, pred);
    } else {
        lemma_filter_first(front, pred, i);
    }
}

/// The selection of a single element holds that element and no other.
pub proof fn lemma_filter_only<A>(s: Seq<A>, pred: spec_fn(A) -> bool, i: int)
    requires
        0 <= i < s.len(),
        pred(s[i]),
        forall|j: int| 0 <= j < s.len() && j != i ==> !pred(#[trigger] s[j]),
    ensures
        s.filter(pred) == seq![s[i]],
    decreases s.len(),
{
    reveal(Seq::filter);
    let front = s.drop_last();
    if i == s.len() - 1 {
        lemma_filter_none(front, pred);
        assert(s.filter(pred) =~= seq![s[i]]);
    } else {
        lemma_filter_only(front, pred, i);
    }
}

/// A selection of two different elements holds at least two.
pub proof fn lemma_filter_two<A>(s: Seq<A>, pred: spec_fn(A) -> bool, i: int, k: int)
    requires
        0 <= i < k < s.len(),
        pred(s[i]),
        pred(s[k]),
    ensures
        s.filter(pred).len() >= 2,
    decreases s.len(),
{
    reveal(Seq::filter);
    let front = s.drop_last();
    if k == s.len() - 1 {
        assert(front[i] == s[i]);
        front.lemma_filter_contains(pred, i);
    } else {
        lemma_filter_two(front, pred, i, k);
    }
}

/// A selection that selects everything changes nothing.
pub proof fn lemma_filter_all<A>(s: Seq<A>, pred: spec_fn(A) -> bool)
    requires
        forall|j: int| 0 <= j < s.len() ==> pred(#[trigger] s[j]),
    ensures
        s.filter(pred) == s,
    decreases s.len(),
{
    reveal(Seq::filter);
    if s.len() > 0 {
        lemma_filter_all(s.drop_last(), pred);
        assert(s.drop_last().push(s.last()) =~= s);
    }
}

/// Selecting from one more element: the selection grows by that element
/// where it is selected, and stays otherwise.
pub proof fn lemma_filter_step<A>(s: Seq<A>, pred: spec_fn(A) -> bool, i: int)
    requires
        0 <= i < s.len(),
    ensures
        s.take(i + 1).filter(pred) == if pred(s[i]) {
            s.take(i).filter(pred).push(s[i])
        } else {
            s.take(i).filter(pred)
        },
{
    assert(s.take(i + 1) =~= s.take(i).push(s[i]));
    s.take(i).lemma_filter_push(s[i], pred);
}

/// A selection that holds anything begins with the first element that is
/// selected; the position of that element is returned.
pub proof fn lemma_first_selected<A>(s: Seq<A>, pred: spec_fn(A) -> bool) -> (i: int)
    requires
        s.filter(pred).len() > 0,
    ensures
        0 <= i < s.len(),
        pred(s[i]),
        forall|j: int| 0 <= j < i ==> !pred(#[trigger] s[j]),
        s.filter(pred)[0] == s[i],
    decreases s.len(),
{
    reveal(Seq::filter);
    let front = s.drop_last();
    if front.filter(pred).len() > 0 {
        let i = lemma_first_selected(front, pred);
        assert(front[i] == s[i]);
        assert forall|j: int| 0 <= j < i implies !pred(#[trigger] s[j]) by {
            assert(front[j] == s[j]);
        }
        i
    } else {
        let i = s.len() - 1;
        assert forall|j: int| 0 <= j < i implies !pred(#[trigger] s[j]) by {
            if pred(s[j]) {
                assert(front[j] == s[j]);
                front.lemma_filter_contains(pred, j);
            }
        }
        i
    }
}

/// A band whose name no other band has is found under its name, with
/// exactly the fields that the store holds.
pub proof fn lemma_band_found(catalog: Catalog, i: int)
    requires
        0 <= i < catalog.bands.len(),
        forall|j: int|
            0 <= j < catalog.bands.len() && j != i ==> (#[trigger] catalog.bands[j]).name
                != catalog.bands[i].name,
    ensures
        catalog.band_named(catalog.bands[i].name) == Some(catalog.bands[i]),
        band_record_of(catalog.band_named(catalog.bands[i].name)) == Some(
            band_fields(catalog.bands[i]),
        ),
{
    lemma_filter_only(catalog.bands, named(catalog.bands[i].name), i);
}

/// A name that no band has finds nothing.
pub proof fn lemma_band_missing(catalog: Catalog, name: Seq<char>)
    requires
        forall|j: int| 0 <= j < catalog.bands.len() ==> (#[trigger] catalog.bands[j]).name != name,
    ensures
        catalog.band_named(name) is None,
{
    lemma_filter_none(catalog.bands, named(name));
}

/// A song that is put into the store under an id that no song had is found
/// under that id afterwards, and every other lookup by id finds what it
/// found before.
pub proof fn lemma_new_song_found(catalog: Catalog, song: SongView, id: int)
    requires
        catalog.song_with_id(song.id) is None,
    ensures
        catalog.with_song(song).song_with_id(song.id) == Some(song),
        id != song.id ==> catalog.with_song(song).song_with_id(id) == catalog.song_with_id(id),
        catalog.with_song(song).songs.len() == catalog.songs.len() + 1,
{
    catalog.songs.lemma_filter_push(song, identified(song.id));
    catalog.songs.lemma_filter_push(song, identified(id));
}

/// After an update the song is found under its id in its patched form, and
/// every song of another id is found as it was.
pub proof fn lemma_updated_song_found(
    catalog: Catalog,
    id: int,
    patch: PatchView,
    now: Seq<char>,
    other: int,
)
    ensures
        catalog.updated(id, patch, now).songs.len() == catalog.songs.len(),
        catalog.updated(id, patch, now).song_with_id(id) == match catalog.song_with_id(id) {
            Some(song) => Some(patched(song, patch, now)),
            None => None,
        },
        other != id ==> catalog.updated(id, patch, now).song_with_id(other)
            == catalog.song_with_id(other),
{
    let after = catalog.songs.map_values(patching(id, patch, now));
    lemma_mapped_lookup(catalog.songs, after, id, patching(id, patch, now));
    lemma_mapped_lookup(catalog.songs, after, other, patching(id, patch, now));
}

/// Where a rewriting keeps every id, a lookup by id in the rewritten songs
/// finds the rewritten form of what it found before.
proof fn lemma_mapped_lookup(
    before: Seq<SongView>,
    after: Seq<SongView>,
    id: int,
    rewrite: spec_fn(SongView) -> SongView,
)
    requires
        after == before.map_values(rewrite),
        forall|s: SongView| (#[trigger] rewrite(s)).id == s.id,
    ensures
        after.filter(identified(id)).len() > 0 <==> before.filter(identified(id)).len() > 0,
        before.filter(identified(id)).len() > 0 ==> after.filter(identified(id))[0] == rewrite(
            before.filter(identified(id))[0],
        ),
{
    let pred = identified(id);
    if before.filter(pred).len() > 0 {
        let i = lemma_first_selected(before, pred);
        assert forall|j: int| 0 <= j < i implies !pred(#[trigger] after[j]) by {
            assert(after[j] == rewrite(before[j]));
            assert(!pred(before[j]));
        }
        assert(after[i] == rewrite(before[i]));
        lemma_filter_first(after, pred, i);
    } else {
        assert forall|j: int| 0 <= j < after.len() implies !pred(#[trigger] after[j]) by {
            assert(after[j] == rewrite(before[j]));
            if pred(before[j]) {
                before.lemma_filter_contains(pred, j);
            }
        }
        lemma_filter_none(after, pred);
    }
}

/// After a deletion no song is found under the id, and no band has changed.
pub proof fn lemma_deleted_song_missing(catalog: Catalog, id: int)
    ensures
        catalog.deleted(id).song_with_id(id) is None,
        catalog.deleted(id).bands == catalog.bands,
        catalog.deleted(id).songs.len() <= catalog.songs.len(),
{
    let kept = catalog.songs.filter(not_identified(id));
    assert forall|j: int| 0 <= j < kept.len() implies !identified(id)(#[trigger] kept[j]) by {
        catalog.songs.lemma_filter_pred(not_identified(id), j);
    }
    lemma_filter_none(kept, identified(id));
    catalog.songs.lemma_filter_len(not_identified(id));
}

/// An update that holds a title and nothing else changes the title and the
/// time of the last update, and leaves every other field as it was.
pub proof fn lemma_title_only(song: SongView, title: Seq<char>, now: Seq<char>)
    ensures
        patched(song, PatchView { title: Some(title), author: None, lyrics: None, band: None }, now)
            == (SongView { title: title, updated_at: now, ..song }),
{
}

} // verus!
