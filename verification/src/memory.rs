//! A provider that keeps both tables in memory.

use crate::catalog::{
    accepted, identified, largest_id, lemma_filter_all, lemma_filter_first, lemma_filter_none,
    lemma_filter_only, lemma_filter_step, lemma_filter_two, lemma_largest_id, lemma_new_song_found,
    lemma_next_id_unused, lemma_updated_song_found, named, not_identified, patching, selected,
    Catalog, SongFilter,
};
use crate::db_provider::{
    creates, creation, listing_view, lookup_view, removal, revision, DatabaseProvider, Listing,
    Lookup, ProviderError,
};
use crate::models::{
    band_list, band_record, band_record_of, band_records, band_views, copy_optional, song_fields,
    song_record, song_record_of, song_records, song_views, str_eq, BandRow, Fields, Record,
    SongRow,
};
use crate::mutation::{
    advance, advanced, begin_create, begin_delete, begin_update, begun_creation, begun_deletion,
    begun_update, lemma_advanced_is_nearer, outcome_view, statements_left, Reply, ReplyView,
    Statement, StatementView, Step, StepView, Verdict, VerdictView,
};
use crate::payload::{created_song, json_text_members, new_song_of, patch_of, NewSong, SongPatch};
use vstd::prelude::*;

verus! {

/// What one statement does to a store in memory: the store afterwards, and
/// the answer. Only an insertion can fail, where the next id does not fit
/// the id column.
pub open spec fn effect(before: Catalog, statement: StatementView) -> (
    Catalog,
    Result<ReplyView, ProviderError>,
) {
    match statement {
        StatementView::FindBand { name } => (
            before,
            Ok(ReplyView::Band(before.band_named(name) is Some)),
        ),
        StatementView::FindSong { id } => (
            before,
            Ok(ReplyView::Song(song_record_of(before.song_with_id(id as int)))),
        ),
        StatementView::InsertSong { song, now } => if before.next_id() > i64::MAX {
            (before, Err(ProviderError::Exhausted))
        } else {
            (
                before.with_song(created_song(song, before.next_id(), now)),
                Ok(ReplyView::Inserted(before.next_id() as i64)),
            )
        },
        StatementView::UpdateSong { id, patch, now } => (
            before.updated(id as int, patch, now),
            Ok(ReplyView::Done),
        ),
        StatementView::DeleteSong { id } => (before.deleted(id as int), Ok(ReplyView::Done)),
    }
}

/// What a mutation that stands at `step` comes to over a store in memory:
/// each statement is carried out and its outcome, an answer or a failure,
/// decides the next step, until the mutation is over.
pub open spec fn completed(before: Catalog, step: StepView) -> (Catalog, VerdictView)
    decreases statements_left(step),
{
    match step {
        StepView::Finish(verdict) => (before, verdict),
        StepView::Ask(statement, progress) => {
            let (after, outcome) = effect(before, statement);
            proof {
                lemma_advanced_is_nearer(statement, progress, outcome);
            }
            completed(after, advanced(progress, outcome))
        },
    }
}

/// The dialogue of a creation comes to what creation means.
pub proof fn lemma_creation_dialogue(
    before: Catalog,
    members: Map<Seq<char>, Seq<char>>,
    now: Seq<char>,
)
    ensures
        completed(before, begun_creation(members, now)).0 == creation(before, members, now).0,
        Verdict::as_found(completed(before, begun_creation(members, now)).1) == creation(
            before,
            members,
            now,
        ).1,
{
    reveal_with_fuel(completed, 5);
    match new_song_of(members) {
        Some(new) => {
            if before.band_named(new.band) is Some && before.next_id() <= i64::MAX {
                lemma_largest_id(before.songs);
                lemma_next_id_unused(before);
                lemma_new_song_found(before, created_song(new, before.next_id(), now), 0);
            }
        },
        None => {},
    }
}

/// The dialogue of an update comes to what an update means.
pub proof fn lemma_update_dialogue(
    before: Catalog,
    id: i64,
    members: Map<Seq<char>, Seq<char>>,
    now: Seq<char>,
)
    ensures
        completed(before, begun_update(id, members, now)).0 == revision(
            before,
            id as int,
            patch_of(members),
            now,
        ).0,
        Verdict::as_found(completed(before, begun_update(id, members, now)).1) == revision(
            before,
            id as int,
            patch_of(members),
            now,
        ).1,
{
    reveal_with_fuel(completed, 4);
    lemma_updated_song_found(before, id as int, patch_of(members), now, 0);
}

/// The dialogue of a deletion comes to what a deletion means.
pub proof fn lemma_deletion_dialogue(before: Catalog, id: i64)
    ensures
        completed(before, begun_deletion(id)).0 == removal(before, id).0,
        Verdict::as_deleted(completed(before, begun_deletion(id)).1) == removal(before, id).1,
{
    reveal_with_fuel(completed, 3);
}

fn copy_song(row: &SongRow) -> (r: SongRow)
    ensures
        r@ == row@,
{
    SongRow {
        id: row.id,
        title: row.title.clone(),
        author: copy_optional(&row.author),
        lyrics: copy_optional(&row.lyrics),
        band: row.band.clone(),
        created_at: row.created_at.clone(),
        updated_at: row.updated_at.clone(),
    }
}

/// A store in memory. It can be depended on: it never fails for want of a
/// store, and a new song gets one more than the largest id in the table, so
/// its id is held by no other song.
pub struct MemoryDatabase {
    bands: Vec<BandRow>,
    songs: Vec<SongRow>,
}

impl MemoryDatabase {
    /// An empty store.
    pub fn new() -> (db: MemoryDatabase)
        ensures
            db.catalog() == (Catalog { bands: Seq::empty(), songs: Seq::empty() }),
    {
        let db = MemoryDatabase { bands: Vec::new(), songs: Vec::new() };
        assert(band_views(db.bands@) =~= Seq::empty());
        assert(song_views(db.songs@) =~= Seq::empty());
        db
    }

    /// Puts one more band behind the others. Band names are expected to
    /// differ, but nothing here enforces it.
    pub fn add_band(&mut self, band: BandRow)
        ensures
            final(self).catalog().bands == old(self).catalog().bands.push(band@),
            final(self).catalog().songs == old(self).catalog().songs,
    {
        self.bands.push(band);
        assert(band_views(self.bands@) =~= band_views(old(self).bands@).push(band@));
    }

    /// Puts one more song behind the others, under the id that the row
    /// carries. Song ids are expected to differ, but nothing here enforces it.
    pub fn add_song(&mut self, song: SongRow)
        ensures
            final(self).catalog().bands == old(self).catalog().bands,
            final(self).catalog().songs == old(self).catalog().songs.push(song@),
    {
        self.songs.push(song);
        assert(song_views(self.songs@) =~= song_views(old(self).songs@).push(song@));
    }

    /// The position of the one band of the given name.
    fn find_band(&self, name: &str) -> (r: Option<usize>)
        ensures
            match r {
                Some(i) => i < self.bands@.len() && self.catalog().band_named(name@) == Some(
                    self.bands@[i as int]@,
                ),
                None => self.catalog().band_named(name@) is None,
            },
    {
        let ghost views = band_views(self.bands@);
        let mut first: Option<usize> = None;
        let mut i: usize = 0;
        while i < self.bands.len()
            invariant
                i <= self.bands@.len(),
                views == band_views(self.bands@),
                match first {
                    Some(k) => k < i && named(name@)(views[k as int]) && forall|j: int|
                        0 <= j < i && j != k ==> !named(name@)(#[trigger] views[j]),
                    None => forall|j: int| 0 <= j < i ==> !named(name@)(#[trigger] views[j]),
                },
            decreases self.bands.len() - i,
        {
            if str_eq(self.bands[i].name.as_str(), name) {
                match first {
                    Some(k) => {
                        proof {
                            lemma_filter_two(views, named(name@), k as int, i as int);
                        }
                        return None;
                    },
                    None => {
                        first = Some(i);
                    },
                }
            }
            i = i + 1;
        }
        proof {
            match first {
                Some(k) => {
                    lemma_filter_only(views, named(name@), k as int);
                },
                None => {
                    lemma_filter_none(views, named(name@));
                },
            }
        }
        first
    }

    /// The position of the first song of the given id.
    fn find_song(&self, id: i64) -> (r: Option<usize>)
        ensures
            match r {
                Some(i) => i < self.songs@.len() && self.catalog().song_with_id(id as int) == Some(
                    self.songs@[i as int]@,
                ),
                None => self.catalog().song_with_id(id as int) is None,
            },
    {
        let ghost views = song_views(self.songs@);
        let mut i: usize = 0;
        while i < self.songs.len()
            invariant
                i <= self.songs@.len(),
                views == song_views(self.songs@),
                forall|j: int| 0 <= j < i ==> !identified(id as int)(#[trigger] views[j]),
            decreases self.songs.len() - i,
        {
            if self.songs[i].id == id {
                proof {
                    lemma_filter_first(views, identified(id as int), i as int);
                }
                return Some(i);
            }
            i = i + 1;
        }
        proof {
            lemma_filter_none(views, identified(id as int));
        }
        None
    }

    /// The largest id in the songs table, and 0 where none is positive.
    fn largest(&self) -> (m: i64)
        ensures
            m == largest_id(self.catalog().songs),
    {
        let ghost views = song_views(self.songs@);
        let mut m: i64 = 0;
        let mut i: usize = 0;
        while i < self.songs.len()
            invariant
                i <= self.songs@.len(),
                views == song_views(self.songs@),
                m == largest_id(views.take(i as int)),
            decreases self.songs.len() - i,
        {
            assert(views.take(i + 1).drop_last() =~= views.take(i as int));
            if self.songs[i].id > m {
                m = self.songs[i].id;
            }
            i = i + 1;
        }
        assert(views.take(i as int) =~= views);
        m
    }

    /// Writes a new song under the next id.
    fn insert(&mut self, song: &NewSong, now: &str) -> (r: Result<i64, ProviderError>)
        ensures
            old(self).catalog().next_id() > i64::MAX ==> r == Err::<i64, ProviderError>(
                ProviderError::Exhausted,
            ) && final(self).catalog() == old(self).catalog(),
            old(self).catalog().next_id() <= i64::MAX ==> r == Ok::<i64, ProviderError>(
                old(self).catalog().next_id() as i64,
            ) && final(self).catalog() == old(self).catalog().with_song(
                created_song(song@, old(self).catalog().next_id(), now@),
            ),
    {
        let top = self.largest();
        if top == i64::MAX {
            return Err(ProviderError::Exhausted);
        }
        let row = song.to_row(top + 1, now);
        self.songs.push(row);
        assert(song_views(self.songs@) =~= song_views(old(self).songs@).push(row@));
        Ok(top + 1)
    }

    /// Patches every song of the given id.
    fn write(&mut self, id: i64, patch: &SongPatch, now: &str)
        ensures
            final(self).catalog() == old(self).catalog().updated(id as int, patch@, now@),
    {
        let ghost before = song_views(self.songs@);
        let ghost bands = self.bands@;
        let ghost rewrite = patching(id as int, patch@, now@);
        let n = self.songs.len();
        let mut i: usize = 0;
        while i < n
            invariant
                i <= n,
                n == self.songs@.len(),
                n == before.len(),
                self.bands@ == bands,
                rewrite == patching(id as int, patch@, now@),
                forall|j: int| 0 <= j < i ==> (#[trigger] self.songs@[j])@ == rewrite(before[j]),
                forall|j: int| i <= j < n ==> (#[trigger] self.songs@[j])@ == before[j],
            decreases n - i,
        {
            if self.songs[i].id == id {
                let mut row = copy_song(&self.songs[i]);
                patch.apply(&mut row, now);
                self.songs.set(i, row);
            }
            i = i + 1;
        }
        assert(song_views(self.songs@) =~= before.map_values(rewrite));
    }

    /// Removes every song of the given id.
    fn remove(&mut self, id: i64)
        ensures
            final(self).catalog() == old(self).catalog().deleted(id as int),
    {
        let ghost views = song_views(self.songs@);
        let ghost pred = not_identified(id as int);
        let mut kept: Vec<SongRow> = Vec::new();
        let mut i: usize = 0;
        assert(song_views(kept@) =~= views.take(0).filter(pred)) by {
            lemma_filter_none(views.take(0), pred);
        }
        while i < self.songs.len()
            invariant
                i <= self.songs@.len(),
                views == song_views(self.songs@),
                pred == not_identified(id as int),
                self.bands@ == old(self).bands@,
                song_views(kept@) == views.take(i as int).filter(pred),
            decreases self.songs.len() - i,
        {
            proof {
                lemma_filter_step(views, pred, i as int);
            }
            if self.songs[i].id != id {
                let ghost before = song_views(kept@);
                kept.push(copy_song(&self.songs[i]));
                assert(song_views(kept@) =~= before.push(views[i as int]));
            }
            i = i + 1;
        }
        assert(views.take(i as int) =~= views);
        self.songs = kept;
    }

    /// Carries one statement out.
    pub fn execute(&mut self, statement: Statement) -> (r: Result<Reply, ProviderError>)
        ensures
            (final(self).catalog(), outcome_view(r)) == effect(old(self).catalog(), statement@),
    {
        match statement {
            Statement::FindBand { name } => Ok(
                Reply::Band(self.find_band(name.as_str()).is_some()),
            ),
            Statement::FindSong { id } => match self.find_song(id) {
                Some(i) => Ok(Reply::Song(Some(song_record(&self.songs[i])))),
                None => Ok(Reply::Song(None)),
            },
            Statement::InsertSong { song, now } => match self.insert(&song, now.as_str()) {
                Ok(id) => Ok(Reply::Inserted(id)),
                Err(e) => Err(e),
            },
            Statement::UpdateSong { id, patch, now } => {
                self.write(id, &patch, now.as_str());
                Ok(Reply::Done)
            },
            Statement::DeleteSong { id } => {
                self.remove(id);
                Ok(Reply::Done)
            },
        }
    }

    /// Carries a mutation through from the step at which it stands.
    pub fn complete(&mut self, first: Step) -> (verdict: Verdict)
        ensures
            (final(self).catalog(), verdict@) == completed(old(self).catalog(), first@),
    {
        let ghost start = first@;
        let mut step = first;
        loop
            invariant
                start == first@,
                completed(self.catalog(), step@) == completed(old(self).catalog(), start),
            decreases statements_left(step@),
        {
            match step {
                Step::Finish(verdict) => {
                    return verdict;
                },
                Step::Ask(statement, progress) => {
                    let ghost asked = statement@;
                    let outcome = self.execute(statement);
                    proof {
                        lemma_advanced_is_nearer(asked, progress@, outcome_view(outcome));
                    }
                    step = advance(progress, outcome);
                },
            }
        }
    }

    /// The records of the songs that `filter` lets through, in storage order.
    pub fn list_songs(&self, filter: &SongFilter) -> (out: Vec<Record>)
        ensures
            out.deep_view() == song_records(selected(self.catalog(), filter@)),
    {
        let ghost views = song_views(self.songs@);
        let ghost pred = accepted(filter@);
        let mut out: Vec<Record> = Vec::new();
        let mut i: usize = 0;
        assert(views.take(0).filter(pred) =~= Seq::empty()) by {
            lemma_filter_none(views.take(0), pred);
        }
        assert(out.deep_view() =~= song_records(views.take(0).filter(pred)));
        while i < self.songs.len()
            invariant
                i <= self.songs@.len(),
                views == song_views(self.songs@),
                pred == accepted(filter@),
                out.deep_view() == song_records(views.take(i as int).filter(pred)),
            decreases self.songs.len() - i,
        {
            let row = &self.songs[i];
            let keep = match filter {
                SongFilter::All => true,
                SongFilter::Title(t) => str_eq(row.title.as_str(), t.as_str()),
                SongFilter::Band(b) => str_eq(row.band.as_str(), b.as_str()),
            };
            proof {
                lemma_filter_step(views, pred, i as int);
                assert(keep == pred(views[i as int]));
            }
            if keep {
                let ghost before = out.deep_view();
                out.push(song_record(row));
                assert(out.deep_view() =~= before.push(song_fields(views[i as int])));
                assert(song_records(views.take(i as int).filter(pred).push(views[i as int]))
                    =~= song_records(views.take(i as int).filter(pred)).push(
                    song_fields(views[i as int]),
                ));
            }
            i = i + 1;
        }
        proof {
            assert(views.take(i as int) =~= views);
            if filter@ is All {
                lemma_filter_all(views, pred);
            }
        }
        out
    }
}

impl DatabaseProvider for MemoryDatabase {
    closed spec fn catalog(&self) -> Catalog {
        Catalog { bands: band_views(self.bands@), songs: song_views(self.songs@) }
    }

    open spec fn dependable(&self) -> bool {
        true
    }

    fn get_all_bands(&self) -> (r: Listing)
        ensures
            listing_view(r) == Ok::<Option<Seq<Fields>>, ProviderError>(
                Some(band_records(self.catalog().bands)),
            ),
    {
        let out = band_list(&self.bands);
        Ok(Some(out))
    }

    fn get_band_by_name(&self, name: String) -> (r: Lookup)
        ensures
            lookup_view(r) == Ok::<Option<Fields>, ProviderError>(
                band_record_of(self.catalog().band_named(name@)),
            ),
    {
        match self.find_band(name.as_str()) {
            Some(i) => Ok(Some(band_record(&self.bands[i]))),
            None => Ok(None),
        }
    }

    fn get_all_songs(&self) -> (r: Listing)
        ensures
            listing_view(r) == Ok::<Option<Seq<Fields>>, ProviderError>(
                Some(song_records(self.catalog().songs)),
            ),
    {
        Ok(Some(self.list_songs(&SongFilter::All)))
    }

    fn get_song_by_title(&self, title: String) -> (r: Listing)
        ensures
            listing_view(r) == Ok::<Option<Seq<Fields>>, ProviderError>(
                Some(song_records(self.catalog().songs_titled(title@))),
            ),
    {
        Ok(Some(self.list_songs(&SongFilter::Title(title))))
    }

    fn get_song_by_band(&self, band: String) -> (r: Listing)
        ensures
            listing_view(r) == Ok::<Option<Seq<Fields>>, ProviderError>(
                Some(song_records(self.catalog().songs_of_band(band@))),
            ),
    {
        Ok(Some(self.list_songs(&SongFilter::Band(band))))
    }

    fn get_song_by_id(&self, id: i64) -> (r: Lookup)
        ensures
            lookup_view(r) == Ok::<Option<Fields>, ProviderError>(
                song_record_of(self.catalog().song_with_id(id as int)),
            ),
    {
        match self.find_song(id) {
            Some(i) => Ok(Some(song_record(&self.songs[i]))),
            None => Ok(None),
        }
    }

    fn create_song(&mut self, data: serde_json::Value, now: &str) -> (r: Lookup)
        ensures
            (final(self).catalog(), lookup_view(r)) == creation(
                old(self).catalog(),
                json_text_members(data),
                now@,
            ),
    {
        proof {
            lemma_creation_dialogue(self.catalog(), json_text_members(data), now@);
            lemma_next_id_unused(self.catalog());
        }
        let r = self.complete(begin_create(&data, now)).into_lookup();
        proof {
            match lookup_view(r) {
                Ok(Some(record)) => {
                    assert(creates(
                        old(self).catalog(),
                        self.catalog(),
                        new_song_of(json_text_members(data))->0,
                        old(self).catalog().next_id(),
                        now@,
                        record,
                    ));
                },
                _ => {},
            }
        }
        r
    }

    fn delete_song(&mut self, id: i64) -> (r: Result<i64, ProviderError>)
        ensures
            (final(self).catalog(), r) == removal(old(self).catalog(), id),
    {
        proof {
            lemma_deletion_dialogue(self.catalog(), id);
        }
        self.complete(begin_delete(id)).into_deleted()
    }

    fn update_song(&mut self, id: i64, data: serde_json::Value, now: &str) -> (r: Lookup)
        ensures
            (final(self).catalog(), lookup_view(r)) == revision(
                old(self).catalog(),
                id as int,
                patch_of(json_text_members(data)),
                now@,
            ),
    {
        proof {
            lemma_update_dialogue(self.catalog(), id, json_text_members(data), now@);
        }
        self.complete(begin_update(id, &data, now)).into_lookup()
    }
}

} // verus!
