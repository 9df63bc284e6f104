//! The provider interface: what any backend that stores the two tables owes
//! its callers.

use crate::catalog::{
    lemma_deleted_song_missing, lemma_largest_id, lemma_new_song_found, lemma_next_id_unused,
    lemma_updated_song_found, Catalog,
};
use crate::models::{
    band_record_of, band_records, field_value, lemma_song_field_values, song_fields,
    song_record_of, song_records, Fields, Record, SongView,
};
use crate::payload::{
    created_song, json_text_members, new_song_of, patch_of, patched, NewSongView, PatchView,
};
use vstd::prelude::*;

verus! {

/// A hard failure of the store. Absence of a row is never reported this way,
/// except by deletion, which has no other way to say that the row is missing.
#[derive(Clone, Copy, Debug, PartialEq, Eq, Structural)]
pub enum ProviderError {
    /// The existence check before a deletion found no row.
    NotFound,
    /// The store could not be reached, or what it sent could not be read.
    Transport,
    /// The store has no identifier left for a new row.
    Exhausted,
}

/// Why a query of the store failed.
#[derive(Clone, Copy, Debug, PartialEq, Eq, Structural)]
pub enum Failure {
    /// The store could not be reached.
    Connectivity,
    /// The store was reached, but the query failed or its rows could not be
    /// read.
    Query,
}

/// What a query for one row returns: the record, or absence, or a failure.
pub type Lookup = Result<Option<Record>, ProviderError>;

/// What a query for several rows returns.
pub type Listing = Result<Option<Vec<Record>>, ProviderError>;

/// A lookup as mathematical values.
pub open spec fn lookup_view(r: Lookup) -> Result<Option<Fields>, ProviderError> {
    match r {
        Ok(found) => Ok(found.deep_view()),
        Err(e) => Err(e),
    }
}

/// A listing as mathematical values.
pub open spec fn listing_view(r: Listing) -> Result<Option<Seq<Fields>>, ProviderError> {
    match r {
        Ok(Some(list)) => Ok(Some(list.deep_view())),
        Ok(None) => Ok(None),
        Err(e) => Err(e),
    }
}

/// The listing that a backend answers with after its query. Rows are passed
/// on. A query that failed for a reason other than connectivity is
/// downgraded to absence; a failure of connectivity is a failure of the
/// listing.
pub open spec fn downgraded(fetched: Result<Seq<Fields>, Failure>) -> Result<
    Option<Seq<Fields>>,
    ProviderError,
> {
    match fetched {
        Ok(rows) => Ok(Some(rows)),
        Err(Failure::Query) => Ok(None),
        Err(Failure::Connectivity) => Err(ProviderError::Transport),
    }
}

/// Turns the outcome of a backend's query into the listing that it answers
/// with.
pub fn listing_of(fetched: Result<Vec<Record>, Failure>) -> (r: Listing)
    ensures
        listing_view(r) == downgraded(
            match fetched {
                Ok(rows) => Ok(rows.deep_view()),
                Err(e) => Err(e),
            },
        ),
{
    match fetched {
        Ok(rows) => Ok(Some(rows)),
        Err(Failure::Query) => Ok(None),
        Err(Failure::Connectivity) => Err(ProviderError::Transport),
    }
}

/// A listing that answers with rows answers with exactly `rows`. A backend
/// may still answer with absence, where its query failed for a reason other
/// than connectivity, or with a failure.
pub open spec fn lists(r: Result<Option<Seq<Fields>>, ProviderError>, rows: Seq<Fields>) -> bool {
    r matches Ok(Some(list)) ==> list == rows
}

/// A lookup that does not fail answers with exactly `row`.
pub open spec fn finds(r: Result<Option<Fields>, ProviderError>, row: Option<Fields>) -> bool {
    r matches Ok(found) ==> found == row
}

/// Creation under the id `id`: no song had the id, the store holds the new
/// row behind the old ones, and `record` is that row's.
pub open spec fn creates(
    before: Catalog,
    after: Catalog,
    new: NewSongView,
    id: int,
    now: Seq<char>,
    record: Fields,
) -> bool {
    &&& before.song_with_id(id) is None
    &&& after == before.with_song(created_song(new, id, now))
    &&& record == song_fields(created_song(new, id, now))
}

/// What creation owes. `members` are the text members of the payload.
///
/// - A record is returned only for a complete payload whose band is found by
///   name; the store then holds one more song, under an id that no song had,
///   with both timestamps equal to `now`, and the record is that row's.
/// - Absence is answered only where the payload is incomplete or its band
///   is not found, and nothing was written. A backend that cannot look the
///   band up fails; it does not answer with absence for a band that exists.
/// - Where the payload is incomplete or its band is not found, nothing is
///   written and no record is returned.
pub open spec fn creation_outcome(
    before: Catalog,
    after: Catalog,
    members: Map<Seq<char>, Seq<char>>,
    now: Seq<char>,
    r: Result<Option<Fields>, ProviderError>,
) -> bool {
    let accepted = new_song_of(members) matches Some(new) && before.band_named(new.band) is Some;
    &&& r matches Ok(Some(record)) ==> accepted && exists|id: int| #[trigger]
        creates(before, after, new_song_of(members)->0, id, now, record)
    &&& r matches Ok(None) ==> after == before && !accepted
    &&& !accepted ==> after == before && !(r matches Ok(Some(_)))
}

/// What an update owes. `members` are the text members of the payload.
///
/// - A record is returned only where a song has the id; the store is then
///   the old one with that song patched, and the record is the patched row's.
/// - Absence is returned only where no song has the id.
/// - Where no song has the id, nothing is written and no record is returned.
pub open spec fn update_outcome(
    before: Catalog,
    after: Catalog,
    id: int,
    members: Map<Seq<char>, Seq<char>>,
    now: Seq<char>,
    r: Result<Option<Fields>, ProviderError>,
) -> bool {
    let patch = patch_of(members);
    &&& r matches Ok(Some(record)) ==> {
        &&& before.song_with_id(id) matches Some(song)
        &&& after == before.updated(id, patch, now)
        &&& record == song_fields(patched(song, patch, now))
    }
    &&& r matches Ok(None) ==> before.song_with_id(id) is None
    &&& before.song_with_id(id) is None ==> after == before && !(r matches Ok(Some(_)))
}

/// What a deletion owes.
///
/// - Success returns the id that was asked for, only where a song had it;
///   the store is then the old one without that song.
/// - Where no song has the id, the call fails and nothing is written.
pub open spec fn deletion_outcome(
    before: Catalog,
    after: Catalog,
    id: int,
    r: Result<i64, ProviderError>,
) -> bool {
    &&& r matches Ok(deleted) ==> {
        &&& deleted == id
        &&& before.song_with_id(id) is Some
        &&& after == before.deleted(id)
    }
    &&& before.song_with_id(id) is None ==> after == before && r is Err
}

/// What a lookup answers.
pub type Answer = Result<Option<Fields>, ProviderError>;

/// Creation by a dependable backend: the store afterwards and the answer.
///
/// - Where the payload lacks title or band, or its band is not found by
///   name, nothing is written and the answer is absence.
/// - Where the next id does not fit the id column, nothing is written and
///   the call fails.
/// - Otherwise the new row goes behind the others under the next id, and the
///   answer is its record.
pub open spec fn creation(before: Catalog, members: Map<Seq<char>, Seq<char>>, now: Seq<char>) -> (
    Catalog,
    Answer,
) {
    match new_song_of(members) {
        Some(new) => {
            let row = created_song(new, before.next_id(), now);
            if before.band_named(new.band) is None {
                (before, Ok(None))
            } else if before.next_id() > i64::MAX {
                (before, Err(ProviderError::Exhausted))
            } else {
                (before.with_song(row), Ok(Some(song_fields(row))))
            }
        },
        None => (before, Ok(None)),
    }
}

/// Update by a dependable backend: where no song has the id, nothing is
/// written and the answer is absence; otherwise the song is patched and the
/// answer is the patched row's record.
pub open spec fn revision(before: Catalog, id: int, patch: PatchView, now: Seq<char>) -> (
    Catalog,
    Answer,
) {
    match before.song_with_id(id) {
        Some(song) => (
            before.updated(id, patch, now),
            Ok(Some(song_fields(patched(song, patch, now)))),
        ),
        None => (before, Ok(None)),
    }
}

/// Deletion by a dependable backend: where no song has the id, nothing is
/// written and the call fails; otherwise the song leaves and the id is
/// returned.
pub open spec fn removal(before: Catalog, id: i64) -> (Catalog, Result<i64, ProviderError>) {
    if before.song_with_id(id as int) is Some {
        (before.deleted(id as int), Ok(id))
    } else {
        (before, Err(ProviderError::NotFound))
    }
}

/// Creation by a dependable backend succeeds for a complete payload whose
/// band exists, as long as the next id fits the id column. The record that
/// it returns carries `now` as the time of creation and of the last update
/// alike, and a lookup by the new id finds that record afterwards.
pub proof fn lemma_dependable_creation(
    before: Catalog,
    members: Map<Seq<char>, Seq<char>>,
    now: Seq<char>,
)
    requires
        new_song_of(members) matches Some(new) && before.band_named(new.band) is Some,
        before.next_id() <= i64::MAX,
    ensures
        creation(before, members, now).1 matches Ok(Some(record)) && {
            &&& field_value(record, "created_at"@) == Some(now)
            &&& field_value(record, "updated_at"@) == Some(now)
            &&& field_value(record, "title"@) == Some(new_song_of(members)->0.title)
            &&& field_value(record, "band"@) == Some(new_song_of(members)->0.band)
            &&& song_record_of(
                creation(before, members, now).0.song_with_id(before.next_id()),
            ) == Some(record)
        },
{
    let song = created_song(new_song_of(members)->0, before.next_id(), now);
    lemma_next_id_unused(before);
    lemma_new_song_found(before, song, 0);
    lemma_song_field_values(song);
}

/// The life of a song over a dependable backend. A song that was created
/// under an id is updated under that id: the update returns the record of
/// the patched song, with `created_at` as it was and `updated_at` set to
/// the instant of the update. It is then deleted under that id: the
/// deletion returns the id, and a lookup by the id finds nothing any more.
pub proof fn lemma_life_of_a_song(
    before: Catalog,
    members: Map<Seq<char>, Seq<char>>,
    created_at: Seq<char>,
    patch: PatchView,
    updated_at: Seq<char>,
)
    requires
        new_song_of(members) matches Some(new) && before.band_named(new.band) is Some,
        before.next_id() <= i64::MAX,
    ensures
        ({
            let id = before.next_id();
            let song = created_song(new_song_of(members)->0, id, created_at);
            let stored = creation(before, members, created_at).0;
            let revised = revision(stored, id, patch, updated_at);
            let removed = removal(revised.0, id as i64);
            &&& revised.1 == Ok::<Option<Fields>, ProviderError>(
                Some(song_fields(patched(song, patch, updated_at))),
            )
            &&& patched(song, patch, updated_at).created_at == created_at
            &&& patched(song, patch, updated_at).updated_at == updated_at
            &&& removed.1 == Ok::<i64, ProviderError>(id as i64)
            &&& removed.0.song_with_id(id) is None
        }),
{
    let id = before.next_id();
    let song = created_song(new_song_of(members)->0, id, created_at);
    let stored = creation(before, members, created_at).0;
    lemma_largest_id(before.songs);
    lemma_next_id_unused(before);
    lemma_new_song_found(before, song, 0);
    lemma_updated_song_found(stored, id, patch, updated_at, 0);
    lemma_deleted_song_missing(revision(stored, id, patch, updated_at).0, id);
}

/// A song that creation returned can be fetched afterwards: some song of the
/// store has the returned record, is found under its id, and carries `now`
/// as the time of its creation and of its last update alike. The store has
/// grown by that one song.
pub proof fn lemma_created_song_is_kept(
    before: Catalog,
    after: Catalog,
    members: Map<Seq<char>, Seq<char>>,
    now: Seq<char>,
    record: Fields,
)
    requires
        creation_outcome(before, after, members, now, Ok(Some(record))),
    ensures
        exists|song: SongView|
            {
                &&& #[trigger] after.song_with_id(song.id) == Some(song)
                &&& song_fields(song) == record
                &&& song.created_at == now
                &&& song.updated_at == now
            },
        field_value(record, "created_at"@) == field_value(record, "updated_at"@),
        after.bands == before.bands,
        after.songs.len() == before.songs.len() + 1,
{
    let new = new_song_of(members)->0;
    let id = choose|id: int| #[trigger] creates(before, after, new, id, now, record);
    let song = created_song(new, id, now);
    lemma_new_song_found(before, song, id);
    assert(after.song_with_id(song.id) == Some(song));
    lemma_song_field_values(song);
}

/// A creation that names no existing band, or whose payload lacks title or
/// band, writes nothing and returns no record.
pub proof fn lemma_rejected_creation_writes_nothing(
    before: Catalog,
    after: Catalog,
    members: Map<Seq<char>, Seq<char>>,
    now: Seq<char>,
    r: Result<Option<Fields>, ProviderError>,
)
    requires
        creation_outcome(before, after, members, now, r),
        new_song_of(members) matches Some(new) ==> before.band_named(new.band) is None,
    ensures
        after == before,
        after.songs.len() == before.songs.len(),
        !(r matches Ok(Some(_))),
{
}

/// A song that an update returned is what a lookup by its id finds
/// afterwards, and a lookup by any other id finds what it found before.
pub proof fn lemma_updated_song_is_kept(
    before: Catalog,
    after: Catalog,
    id: int,
    members: Map<Seq<char>, Seq<char>>,
    now: Seq<char>,
    record: Fields,
    other: int,
)
    requires
        update_outcome(before, after, id, members, now, Ok(Some(record))),
    ensures
        song_record_of(after.song_with_id(id)) == Some(record),
        other != id ==> after.song_with_id(other) == before.song_with_id(other),
        after.bands == before.bands,
        after.songs.len() == before.songs.len(),
{
    lemma_updated_song_found(before, id, patch_of(members), now, other);
}

/// A deletion that succeeded leaves no song under the id. A deletion of an
/// id that no song has fails and leaves the store as it was.
pub proof fn lemma_deletion(before: Catalog, after: Catalog, id: int, r: Result<i64, ProviderError>)
    requires
        deletion_outcome(before, after, id, r),
    ensures
        r is Ok ==> after.song_with_id(id) is None,
        before.song_with_id(id) is None ==> r is Err && after == before,
{
    lemma_deleted_song_missing(before, id);
}

/// A backend that holds the bands and the songs.
///
/// Every operation may fail with a [`ProviderError`] where the store cannot
/// be reached. Absence of a row is an answer, not a failure. The instant that
/// creation and update stamp on a row is handed in by the caller.
///
/// Each operation states what it owes of any backend, and what it owes in
/// full of a backend that is [`dependable`](DatabaseProvider::dependable): there
/// every answer is pinned down, and so is the store after a mutation.
///
/// `catalog` exists for contracts only. A backend whose rows live outside the
/// program gives it a body that is never run.
pub trait DatabaseProvider {
    /// The rows that the store holds.
    spec fn catalog(&self) -> Catalog;

    /// Whether this backend can be depended on: it never fails for want of
    /// its store, its queries answer with exactly the rows of the catalog,
    /// and its mutations do exactly what [`creation`], [`revision`] and
    /// [`removal`] say. A store in memory is dependable. A backend whose
    /// store lies outside the program is not, unless it says so.
    open spec fn dependable(&self) -> bool {
        false
    }

    /// All bands, in storage order.
    fn get_all_bands(&self) -> (r: Listing)
        ensures
            lists(listing_view(r), band_records(self.catalog().bands)),
            self.dependable() ==> listing_view(r) == Ok::<Option<Seq<Fields>>, ProviderError>(
                Some(band_records(self.catalog().bands)),
            ),
    ;

    /// The one band of the given name.
    fn get_band_by_name(&self, name: String) -> (r: Lookup)
        ensures
            finds(lookup_view(r), band_record_of(self.catalog().band_named(name@))),
            self.dependable() ==> lookup_view(r) == Ok::<Option<Fields>, ProviderError>(
                band_record_of(self.catalog().band_named(name@)),
            ),
    ;

    /// All songs, in storage order.
    fn get_all_songs(&self) -> (r: Listing)
        ensures
            lists(listing_view(r), song_records(self.catalog().songs)),
            self.dependable() ==> listing_view(r) == Ok::<Option<Seq<Fields>>, ProviderError>(
                Some(song_records(self.catalog().songs)),
            ),
    ;

    /// The songs of the given title, in storage order.
    fn get_song_by_title(&self, title: String) -> (r: Listing)
        ensures
            lists(listing_view(r), song_records(self.catalog().songs_titled(title@))),
            self.dependable() ==> listing_view(r) == Ok::<Option<Seq<Fields>>, ProviderError>(
                Some(song_records(self.catalog().songs_titled(title@))),
            ),
    ;

    /// The songs of the given band, in storage order.
    fn get_song_by_band(&self, band: String) -> (r: Listing)
        ensures
            lists(listing_view(r), song_records(self.catalog().songs_of_band(band@))),
            self.dependable() ==> listing_view(r) == Ok::<Option<Seq<Fields>>, ProviderError>(
                Some(song_records(self.catalog().songs_of_band(band@))),
            ),
    ;

    /// The song of the given id.
    fn get_song_by_id(&self, id: i64) -> (r: Lookup)
        ensures
            finds(lookup_view(r), song_record_of(self.catalog().song_with_id(id as int))),
            self.dependable() ==> lookup_view(r) == Ok::<Option<Fields>, ProviderError>(
                song_record_of(self.catalog().song_with_id(id as int)),
            ),
    ;

    /// Creates a song from a JSON payload, stamped with `now`.
    fn create_song(&mut self, data: serde_json::Value, now: &str) -> (r: Lookup)
        ensures
            creation_outcome(
                old(self).catalog(),
                final(self).catalog(),
                json_text_members(data),
                now@,
                lookup_view(r),
            ),
            old(self).dependable() ==> final(self).dependable() && (
                final(self).catalog(),
                lookup_view(r),
            ) == creation(old(self).catalog(), json_text_members(data), now@),
    ;

    /// Deletes the song of the given id.
    fn delete_song(&mut self, id: i64) -> (r: Result<i64, ProviderError>)
        ensures
            deletion_outcome(old(self).catalog(), final(self).catalog(), id as int, r),
            old(self).dependable() ==> final(self).dependable() && (final(self).catalog(), r)
                == removal(old(self).catalog(), id),
    ;

    /// Writes the fields that a JSON payload holds into the song of the
    /// given id, and stamps it with `now`.
    fn update_song(&mut self, id: i64, data: serde_json::Value, now: &str) -> (r: Lookup)
        ensures
            update_outcome(
                old(self).catalog(),
                final(self).catalog(),
                id as int,
                json_text_members(data),
                now@,
                lookup_view(r),
            ),
            old(self).dependable() ==> final(self).dependable() && (
                final(self).catalog(),
                lookup_view(r),
            ) == revision(old(self).catalog(), id as int, patch_of(json_text_members(data)), now@),
    ;
}

} // verus!
