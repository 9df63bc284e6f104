//! The access facade: one shared handle on one provider.

use crate::catalog::Catalog;
use crate::db_provider::{
    creation, creation_outcome, deletion_outcome, finds, listing_view, lists, lookup_view,
    removal, revision, update_outcome, DatabaseProvider, Listing, Lookup, ProviderError,
};
use crate::models::{band_record_of, band_records, song_record_of, song_records, Fields};
use crate::payload::{json_text_members, patch_of};
use vstd::prelude::*;

verus! {

/// A pass-through to one provider. It caches nothing, retries nothing and
/// changes nothing: each operation owes exactly what the provider's owes, of
/// any provider and in full of a dependable one.
pub struct DatabaseAccess<P: DatabaseProvider> {
    db_provider: Box<P>,
}

impl<P: DatabaseProvider> DatabaseAccess<P> {
    /// The provider behind the facade.
    pub closed spec fn provider(&self) -> P {
        *self.db_provider
    }

    /// The rows that the provider's store holds.
    pub open spec fn catalog(&self) -> Catalog {
        self.provider().catalog()
    }

    /// Whether the provider behind the facade can be depended on.
    pub open spec fn dependable(&self) -> bool {
        self.provider().dependable()
    }

    /// Wraps a provider.
    pub fn new(db_provider: Box<P>) -> (db: DatabaseAccess<P>)
        ensures
            db.provider() == *db_provider,
    {
        return DatabaseAccess { db_provider: db_provider };
    }

    /// The provider behind the facade.
    pub fn backend(&self) -> (p: &P)
        ensures
            *p == self.provider(),
    {
        &*self.db_provider
    }

    /// All bands, in storage order.
    pub fn get_all_bands(&self) -> (r: Listing)
        ensures
            lists(listing_view(r), band_records(self.catalog().bands)),
            self.dependable() ==> listing_view(r) == Ok::<Option<Seq<Fields>>, ProviderError>(
                Some(band_records(self.catalog().bands)),
            ),
    {
        self.db_provider.get_all_bands()
    }

    /// The one band of the given name.
    pub fn get_band_by_name(&self, name: String) -> (r: Lookup)
        ensures
            finds(lookup_view(r), band_record_of(self.catalog().band_named(name@))),
            self.dependable() ==> lookup_view(r) == Ok::<Option<Fields>, ProviderError>(
                band_record_of(self.catalog().band_named(name@)),
            ),
    {
        self.db_provider.get_band_by_name(name)
    }

    /// All songs, in storage order.
    pub fn get_all_songs(&self) -> (r: Listing)
        ensures
            lists(listing_view(r), song_records(self.catalog().songs)),
            self.dependable() ==> listing_view(r) == Ok::<Option<Seq<Fields>>, ProviderError>(
                Some(song_records(self.catalog().songs)),
            ),
    {
        self.db_provider.get_all_songs()
    }

    /// The songs of the given title, in storage order.
    pub fn get_song_by_title(&self, title: String) -> (r: Listing)
        ensures
            lists(listing_view(r), song_records(self.catalog().songs_titled(title@))),
            self.dependable() ==> listing_view(r) == Ok::<Option<Seq<Fields>>, ProviderError>(
                Some(song_records(self.catalog().songs_titled(title@))),
            ),
    {
        self.db_provider.get_song_by_title(title)
    }

    /// The songs of the given band, in storage order.
    pub fn get_song_by_band(&self, band: String) -> (r: Listing)
        ensures
            lists(listing_view(r), song_records(self.catalog().songs_of_band(band@))),
            self.dependable() ==> listing_view(r) == Ok::<Option<Seq<Fields>>, ProviderError>(
                Some(song_records(self.catalog().songs_of_band(band@))),
            ),
    {
        self.db_provider.get_song_by_band(band)
    }

    /// The song of the given id.
    pub fn get_song_by_id(&self, id: i64) -> (r: Lookup)
        ensures
            finds(lookup_view(r), song_record_of(self.catalog().song_with_id(id as int))),
            self.dependable() ==> lookup_view(r) == Ok::<Option<Fields>, ProviderError>(
                song_record_of(self.catalog().song_with_id(id as int)),
            ),
    {
        self.db_provider.get_song_by_id(id)
    }

    /// Creates a song from a JSON payload, stamped with `now`.
    pub fn create_song(&mut self, data: serde_json::Value, now: &str) -> (r: Lookup)
        ensures
            creation_outcome(
                old(self).catalog(),
                final(self).catalog(),
                json_text_members(data),
                now@,
                lookup_view(r),
            ),
            old(self).dependable() ==> final(self).dependable() && (
                final(self).catalog(),
                lookup_view(r),
            ) == creation(old(self).catalog(), json_text_members(data), now@),
    {
        self.db_provider.create_song(data, now)
    }

    /// Deletes the song of the given id.
    pub fn delete_song(&mut self, id: i64) -> (r: Result<i64, ProviderError>)
        ensures
            deletion_outcome(old(self).catalog(), final(self).catalog(), id as int, r),
            old(self).dependable() ==> final(self).dependable() && (final(self).catalog(), r)
                == removal(old(self).catalog(), id),
    {
        self.db_provider.delete_song(id)
    }

    /// Writes the fields that a JSON payload holds into the song of the
    /// given id, and stamps it with `now`.
    pub fn update_song(&mut self, id: i64, data: serde_json::Value, now: &str) -> (r: Lookup)
        ensures
            update_outcome(
                old(self).catalog(),
                final(self).catalog(),
                id as int,
                json_text_members(data),
                now@,
                lookup_view(r),
            ),
            old(self).dependable() ==> final(self).dependable() && (
                final(self).catalog(),
                lookup_view(r),
            ) == revision(old(self).catalog(), id as int, patch_of(json_text_members(data)), now@),
    {
        self.db_provider.update_song(id, data, now)
    }
}

} // verus!
