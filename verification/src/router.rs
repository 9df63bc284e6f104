//! The request logic: which query a request runs, how a result set is paged,
//! and which reply each outcome of the store gets.

use crate::catalog::{selected, FilterView, SongFilter};
use crate::db_manager::DatabaseAccess;
use crate::db_provider::{
    creation, creation_outcome, deletion_outcome, finds, listing_view, lists, lookup_view,
    removal, revision, update_outcome, DatabaseProvider, Listing, Lookup, ProviderError,
};
use crate::models::{
    band_record_of, band_records, opt_text, song_record_of, song_records, Fields, Record,
};
use crate::paging::{lemma_page_sizes, page_count, page_of, paginate};
use crate::payload::{json_text_members, patch_of};
use crate::text::{parse_count, parsed_count};
use vstd::prelude::*;
use vstd::string::StringExecFns;

verus! {

/// The request succeeded.
pub const OK: u16 = 200;

/// The request succeeded and there is nothing to send.
pub const NO_CONTENT: u16 = 204;

/// The request is at fault.
pub const BAD_REQUEST: u16 = 400;

/// What the request names does not exist.
pub const NOT_FOUND: u16 = 404;

/// The store failed.
pub const INTERNAL_SERVER_ERROR: u16 = 500;

/// The page size of a listing that names none.
pub const DEFAULT_PAGE_SIZE: usize = 10;

/// The page index of a listing that names none.
pub const DEFAULT_PAGE_INDEX: usize = 1;

/// What an error body says.
#[derive(Clone, Copy, Debug, PartialEq, Eq, Structural)]
pub enum Problem {
    /// No such song.
    SongMissing,
    /// The request is malformed or failed validation.
    BadRequest,
    /// The store failed.
    ServerError,
}

impl Problem {
    /// The text of the `detail` member of the error body.
    pub open spec fn detail_text(self) -> Seq<char> {
        match self {
            Problem::SongMissing => "歌曲不存在"@,
            Problem::BadRequest => "请求格式错误"@,
            Problem::ServerError => "INTERNAL_SERVER_ERROR"@,
        }
    }

    /// The text of the `detail` member of the error body.
    pub fn detail(&self) -> (r: String)
        ensures
            r@ == self.detail_text(),
    {
        match self {
            Problem::SongMissing => String::from_str("歌曲不存在"),
            Problem::BadRequest => String::from_str("请求格式错误"),
            Problem::ServerError => String::from_str("INTERNAL_SERVER_ERROR"),
        }
    }
}

/// The body of a reply, before it is put into its wire format.
pub enum Body {
    /// An empty object.
    Empty,
    /// An object with a `detail` text.
    Detail(Problem),
    /// One record.
    Item(Record),
    /// A list of one element: the band that was asked for by name, or null.
    OneBand(Option<Record>),
    /// The list of all bands, or null.
    Bands(Option<Vec<Record>>),
    /// One page of songs, with the size of the whole result set and the page
    /// that was asked for.
    Songs { songs: Vec<Record>, total: usize, page_size: usize, page_index: usize },
}

/// A reply body as mathematical values.
pub enum BodyView {
    Empty,
    Detail(Problem),
    Item(Fields),
    OneBand(Option<Fields>),
    Bands(Option<Seq<Fields>>),
    Songs { songs: Seq<Fields>, total: nat, page_size: usize, page_index: usize },
}

impl View for Body {
    type V = BodyView;

    open spec fn view(&self) -> BodyView {
        match self {
            Body::Empty => BodyView::Empty,
            Body::Detail(p) => BodyView::Detail(*p),
            Body::Item(record) => BodyView::Item(record@),
            Body::OneBand(found) => BodyView::OneBand(found.deep_view()),
            Body::Bands(Some(list)) => BodyView::Bands(Some(list.deep_view())),
            Body::Bands(None) => BodyView::Bands(None),
            Body::Songs { songs, total, page_size, page_index } => BodyView::Songs {
                songs: songs.deep_view(),
                total: *total as nat,
                page_size: *page_size,
                page_index: *page_index,
            },
        }
    }
}

/// A reply: a status code and a body.
pub struct Reply {
    pub status: u16,
    pub body: Body,
}

/// A reply as mathematical values.
pub struct ReplyView {
    pub status: u16,
    pub body: BodyView,
}

impl View for Reply {
    type V = ReplyView;

    open spec fn view(&self) -> ReplyView {
        ReplyView { status: self.status, body: self.body@ }
    }
}

/// The parameters of a song listing as the request carries them.
pub struct SongQuery {
    pub page_size: Option<String>,
    pub page_index: Option<String>,
    pub title: Option<String>,
    pub band: Option<String>,
}

/// What a store answers to a query for several rows.
pub type Listed = Result<Option<Seq<Fields>>, ProviderError>;

/// What a store answers to a query for one row.
pub type Found = Result<Option<Fields>, ProviderError>;

/// The count that a parameter asks for: its own where it is given and can be
/// read, the default where it is not given.
pub open spec fn requested(param: Option<Seq<char>>, default: usize) -> Option<usize> {
    match param {
        Some(text) => parsed_count(text),
        None => Some(default),
    }
}

/// The page that a listing asks for, as size and index. There is none where
/// a parameter cannot be read or the size is 0.
pub open spec fn page_request(size: Option<Seq<char>>, index: Option<Seq<char>>) -> Option<
    (usize, usize),
> {
    match (requested(size, DEFAULT_PAGE_SIZE), requested(index, DEFAULT_PAGE_INDEX)) {
        (Some(s), Some(i)) => if s > 0 {
            Some((s, i))
        } else {
            None
        },
        _ => None,
    }
}

/// The filter of a listing: by title where a title is given, else by band
/// where a band is given, else none. At most one of the two is honoured.
pub open spec fn filter_choice(title: Option<Seq<char>>, band: Option<Seq<char>>) -> FilterView {
    match (title, band) {
        (Some(t), _) => FilterView::Title(t),
        (None, Some(b)) => FilterView::Band(b),
        (None, None) => FilterView::All,
    }
}

/// The reply to a request that cannot be read.
pub open spec fn rejected() -> ReplyView {
    ReplyView { status: BAD_REQUEST, body: BodyView::Detail(Problem::BadRequest) }
}

/// The reply to a song listing.
///
/// - A failure of the store is a server error.
/// - Absence of a result set is reported as not found.
/// - A page within the result set is a success; it holds the page's items.
/// - A page index outside the result set is a client error with an empty
///   page.
/// Both page replies report the size of the whole result set and echo the
/// page size and index.
pub open spec fn songs_answer(fetched: Listed, page_size: usize, page_index: usize) -> ReplyView {
    match fetched {
        Err(_) => ReplyView { status: INTERNAL_SERVER_ERROR, body: BodyView::Empty },
        Ok(None) => ReplyView { status: NOT_FOUND, body: BodyView::Detail(Problem::SongMissing) },
        Ok(Some(all)) => match page_of(all, page_size as nat, page_index as nat) {
            Some(page) => ReplyView {
                status: OK,
                body: BodyView::Songs { songs: page, total: all.len(), page_size, page_index },
            },
            None => ReplyView {
                status: BAD_REQUEST,
                body: BodyView::Songs {
                    songs: Seq::empty(),
                    total: all.len(),
                    page_size,
                    page_index,
                },
            },
        },
    }
}

/// The reply to a band lookup by name: always a list of one element.
pub open spec fn band_answer(found: Found) -> ReplyView {
    match found {
        Ok(band) => ReplyView { status: OK, body: BodyView::OneBand(band) },
        Err(_) => ReplyView { status: INTERNAL_SERVER_ERROR, body: BodyView::Empty },
    }
}

/// The reply to a listing of all bands.
pub open spec fn bands_answer(fetched: Listed) -> ReplyView {
    match fetched {
        Ok(bands) => ReplyView { status: OK, body: BodyView::Bands(bands) },
        Err(_) => ReplyView { status: INTERNAL_SERVER_ERROR, body: BodyView::Empty },
    }
}

/// The reply to a lookup of one song: the record, or not found, or a server
/// error where the store failed.
pub open spec fn detail_answer(found: Found) -> ReplyView {
    match found {
        Ok(Some(song)) => ReplyView { status: OK, body: BodyView::Item(song) },
        Ok(None) => ReplyView { status: NOT_FOUND, body: BodyView::Detail(Problem::SongMissing) },
        Err(_) => ReplyView { status: INTERNAL_SERVER_ERROR, body: BodyView::Empty },
    }
}

/// The reply to a creation: the new record; a client error where the store
/// answered with absence, which means that validation failed; a server error
/// where the store failed.
pub open spec fn creation_answer(created: Found) -> ReplyView {
    match created {
        Ok(Some(song)) => ReplyView { status: OK, body: BodyView::Item(song) },
        Ok(None) => ReplyView {
            status: BAD_REQUEST,
            body: BodyView::Detail(Problem::BadRequest),
        },
        Err(_) => ReplyView {
            status: INTERNAL_SERVER_ERROR,
            body: BodyView::Detail(Problem::ServerError),
        },
    }
}

/// The reply to an update: as for a lookup of one song.
pub open spec fn update_answer(updated: Found) -> ReplyView {
    detail_answer(updated)
}

/// The reply to a deletion: nothing to send where it succeeded; a client
/// error where the store failed, since deletion reports a missing song as a
/// failure.
pub open spec fn deletion_answer(deleted: Result<i64, ProviderError>) -> ReplyView {
    match deleted {
        Ok(_) => ReplyView { status: NO_CONTENT, body: BodyView::Empty },
        Err(_) => ReplyView { status: BAD_REQUEST, body: BodyView::Detail(Problem::SongMissing) },
    }
}

/// The pages of a listing. A result set of `total` items has
/// `total / page_size` full pages and one more where items are left over.
/// Every page up to that count is a success: each before the last holds
/// `page_size` songs, the last holds what the pages before it leave. A page
/// index of 0 or beyond the count gets an empty page and a client error.
pub proof fn lemma_listing_pages(all: Seq<Fields>, page_size: usize, page_index: usize)
    requires
        page_size > 0,
    ensures
        page_count(all.len(), page_size as nat) == all.len() / (page_size as nat) + if all.len() % (
        page_size as nat) != 0 {
            1nat
        } else {
            0nat
        },
        songs_answer(Ok(Some(all)), page_size, page_index).body is Songs,
        songs_answer(Ok(Some(all)), page_size, page_index).body->total == all.len(),
        1 <= page_index <= page_count(all.len(), page_size as nat) ==> {
            &&& songs_answer(Ok(Some(all)), page_size, page_index).status == OK
            &&& songs_answer(Ok(Some(all)), page_size, page_index).body->songs.len() == if page_index
                < page_count(all.len(), page_size as nat) {
                page_size as int
            } else {
                all.len() - (page_index - 1) * page_size
            }
        },
        page_index == 0 || page_index > page_count(all.len(), page_size as nat) ==> {
            &&& songs_answer(Ok(Some(all)), page_size, page_index).status == BAD_REQUEST
            &&& songs_answer(Ok(Some(all)), page_size, page_index).body->songs.len() == 0
        },
{
    lemma_page_sizes(all, page_size as nat, page_index as nat);
}

fn read_count(param: &Option<String>, default: usize) -> (r: Option<usize>)
    ensures
        r == requested(opt_text(*param), default),
{
    match param {
        Some(text) => parse_count(text.as_str()),
        None => Some(default),
    }
}

/// Reads the page that a listing asks for.
pub fn read_page_request(page_size: &Option<String>, page_index: &Option<String>) -> (r: Option<
    (usize, usize),
>)
    ensures
        r == page_request(opt_text(*page_size), opt_text(*page_index)),
{
    let size = read_count(page_size, DEFAULT_PAGE_SIZE);
    let index = read_count(page_index, DEFAULT_PAGE_INDEX);
    match (size, index) {
        (Some(s), Some(i)) => if s > 0 {
            Some((s, i))
        } else {
            None
        },
        _ => None,
    }
}

/// Chooses the filter of a listing.
pub fn select_filter(title: Option<String>, band: Option<String>) -> (filter: SongFilter)
    ensures
        filter@ == filter_choice(opt_text(title), opt_text(band)),
{
    match (title, band) {
        (Some(t), _) => SongFilter::Title(t),
        (None, Some(b)) => SongFilter::Band(b),
        (None, None) => SongFilter::All,
    }
}

/// The reply to a request that cannot be read.
pub fn reject() -> (reply: Reply)
    ensures
        reply@ == rejected(),
{
    Reply { status: BAD_REQUEST, body: Body::Detail(Problem::BadRequest) }
}

/// Replies to a song listing with the page that was asked for.
pub fn songs_reply(fetched: Listing, page_size: usize, page_index: usize) -> (reply: Reply)
    requires
        page_size > 0,
    ensures
        reply@ == songs_answer(listing_view(fetched), page_size, page_index),
{
    match fetched {
        Err(_) => Reply { status: INTERNAL_SERVER_ERROR, body: Body::Empty },
        Ok(None) => Reply { status: NOT_FOUND, body: Body::Detail(Problem::SongMissing) },
        Ok(Some(all)) => {
            let total = all.len();
            match paginate(&all, page_size, page_index) {
                Some(songs) => Reply {
                    status: OK,
                    body: Body::Songs { songs, total, page_size, page_index },
                },
                None => {
                    let songs: Vec<Record> = Vec::new();
                    assert(songs.deep_view() =~= Seq::empty());
                    Reply {
                        status: BAD_REQUEST,
                        body: Body::Songs { songs, total, page_size, page_index },
                    }
                },
            }
        },
    }
}

/// Replies to a band lookup by name.
pub fn band_reply(found: Lookup) -> (reply: Reply)
    ensures
        reply@ == band_answer(lookup_view(found)),
{
    match found {
        Ok(band) => Reply { status: OK, body: Body::OneBand(band) },
        Err(_) => Reply { status: INTERNAL_SERVER_ERROR, body: Body::Empty },
    }
}

/// Replies to a listing of all bands.
pub fn bands_reply(fetched: Listing) -> (reply: Reply)
    ensures
        reply@ == bands_answer(listing_view(fetched)),
{
    match fetched {
        Ok(bands) => Reply { status: OK, body: Body::Bands(bands) },
        Err(_) => Reply { status: INTERNAL_SERVER_ERROR, body: Body::Empty },
    }
}

/// Replies to a lookup of one song.
pub fn detail_reply(found: Lookup) -> (reply: Reply)
    ensures
        reply@ == detail_answer(lookup_view(found)),
{
    match found {
        Ok(Some(song)) => Reply { status: OK, body: Body::Item(song) },
        Ok(None) => Reply { status: NOT_FOUND, body: Body::Detail(Problem::SongMissing) },
        Err(_) => Reply { status: INTERNAL_SERVER_ERROR, body: Body::Empty },
    }
}

/// Replies to a creation.
pub fn creation_reply(created: Lookup) -> (reply: Reply)
    ensures
        reply@ == creation_answer(lookup_view(created)),
{
    match created {
        Ok(Some(song)) => Reply { status: OK, body: Body::Item(song) },
        Ok(None) => Reply { status: BAD_REQUEST, body: Body::Detail(Problem::BadRequest) },
        Err(_) => Reply { status: INTERNAL_SERVER_ERROR, body: Body::Detail(Problem::ServerError) },
    }
}

/// Replies to an update.
pub fn update_reply(updated: Lookup) -> (reply: Reply)
    ensures
        reply@ == update_answer(lookup_view(updated)),
{
    detail_reply(updated)
}

/// Replies to a deletion.
pub fn deletion_reply(deleted: Result<i64, ProviderError>) -> (reply: Reply)
    ensures
        reply@ == deletion_answer(deleted),
{
    match deleted {
        Ok(_) => Reply { status: NO_CONTENT, body: Body::Empty },
        Err(_) => Reply { status: BAD_REQUEST, body: Body::Detail(Problem::SongMissing) },
    }
}

/// Lists the bands: the one of the given name as a list of one element
/// where a name is given, all bands otherwise.
pub fn get_bands<P: DatabaseProvider>(db: &DatabaseAccess<P>, name: Option<String>) -> (reply:
    Reply)
    ensures
        match name {
            Some(n) => exists|found: Found|
                finds(found, band_record_of(db.catalog().band_named(n@))) && reply@
                    == #[trigger] band_answer(found),
            None => exists|fetched: Listed|
                lists(fetched, band_records(db.catalog().bands)) && reply@
                    == #[trigger] bands_answer(fetched),
        },
        db.dependable() ==> reply@ == match name {
            Some(n) => band_answer(Ok(band_record_of(db.catalog().band_named(n@)))),
            None => bands_answer(Ok(Some(band_records(db.catalog().bands)))),
        },
{
    match name {
        Some(n) => {
            let found = db.get_band_by_name(n);
            let ghost answer = lookup_view(found);
            let reply = band_reply(found);
            assert(reply@ == band_answer(answer));
            reply
        },
        None => {
            let fetched = db.get_all_bands();
            let ghost answer = listing_view(fetched);
            let reply = bands_reply(fetched);
            assert(reply@ == bands_answer(answer));
            reply
        },
    }
}

/// Lists one page of songs.
///
/// The request is rejected where a page parameter cannot be read or the page
/// size is 0. Otherwise the listing runs under the chosen filter and the
/// reply is the one that [`songs_answer`] gives for what the store answered.
/// Over a dependable provider the store answers with the rows of the
/// catalog, so the reply is pinned down.
pub fn get_songs<P: DatabaseProvider>(db: &DatabaseAccess<P>, query: SongQuery) -> (reply: Reply)
    ensures
        match page_request(opt_text(query.page_size), opt_text(query.page_index)) {
            None => reply@ == rejected(),
            Some((size, index)) => exists|fetched: Listed|
                lists(
                    fetched,
                    song_records(
                        selected(
                            db.catalog(),
                            filter_choice(opt_text(query.title), opt_text(query.band)),
                        ),
                    ),
                ) && reply@ == #[trigger] songs_answer(fetched, size, index),
        },
        db.dependable() ==> match page_request(
            opt_text(query.page_size),
            opt_text(query.page_index),
        ) {
            None => reply@ == rejected(),
            Some((size, index)) => reply@ == songs_answer(
                Ok(
                    Some(
                        song_records(
                            selected(
                                db.catalog(),
                                filter_choice(opt_text(query.title), opt_text(query.band)),
                            ),
                        ),
                    ),
                ),
                size,
                index,
            ),
        },
{
    let (page_size, page_index) = match read_page_request(&query.page_size, &query.page_index) {
        Some(page) => page,
        None => {
            return reject();
        },
    };
    let fetched = match select_filter(query.title, query.band) {
        SongFilter::Title(title) => db.get_song_by_title(title),
        SongFilter::Band(band) => db.get_song_by_band(band),
        SongFilter::All => db.get_all_songs(),
    };
    let ghost answer = listing_view(fetched);
    let reply = songs_reply(fetched, page_size, page_index);
    assert(reply@ == songs_answer(answer, page_size, page_index));
    reply
}

/// Looks up one song.
pub fn get_song_id<P: DatabaseProvider>(db: &DatabaseAccess<P>, id: i64) -> (reply: Reply)
    ensures
        exists|found: Found|
            finds(found, song_record_of(db.catalog().song_with_id(id as int))) && reply@
                == #[trigger] detail_answer(found),
        db.dependable() ==> reply@ == detail_answer(
            Ok(song_record_of(db.catalog().song_with_id(id as int))),
        ),
{
    let found = db.get_song_by_id(id);
    let ghost answer = lookup_view(found);
    let reply = detail_reply(found);
    assert(reply@ == detail_answer(answer));
    reply
}

/// Creates a song.
pub fn post_songs<P: DatabaseProvider>(
    db: &mut DatabaseAccess<P>,
    data: serde_json::Value,
    now: &str,
) -> (reply: Reply)
    ensures
        exists|created: Found|
            creation_outcome(
                old(db).catalog(),
                final(db).catalog(),
                json_text_members(data),
                now@,
                created,
            ) && reply@ == #[trigger] creation_answer(created),
        old(db).dependable() ==> {
            &&& final(db).dependable()
            &&& final(db).catalog() == creation(
                old(db).catalog(),
                json_text_members(data),
                now@,
            ).0
            &&& reply@ == creation_answer(
                creation(old(db).catalog(), json_text_members(data), now@).1,
            )
        },
{
    let created = db.create_song(data, now);
    let ghost answer = lookup_view(created);
    let reply = creation_reply(created);
    assert(reply@ == creation_answer(answer));
    reply
}

/// Updates a song.
pub fn put_song_id<P: DatabaseProvider>(
    db: &mut DatabaseAccess<P>,
    id: i64,
    data: serde_json::Value,
    now: &str,
) -> (reply: Reply)
    ensures
        exists|updated: Found|
            update_outcome(
                old(db).catalog(),
                final(db).catalog(),
                id as int,
                json_text_members(data),
                now@,
                updated,
            ) && reply@ == #[trigger] update_answer(updated),
        old(db).dependable() ==> {
            &&& final(db).dependable()
            &&& final(db).catalog() == revision(
                old(db).catalog(),
                id as int,
                patch_of(json_text_members(data)),
                now@,
            ).0
            &&& reply@ == update_answer(
                revision(old(db).catalog(), id as int, patch_of(json_text_members(data)), now@).1,
            )
        },
{
    let updated = db.update_song(id, data, now);
    let ghost answer = lookup_view(updated);
    let reply = update_reply(updated);
    assert(reply@ == update_answer(answer));
    reply
}

/// Deletes a song.
pub fn delete_song_id<P: DatabaseProvider>(db: &mut DatabaseAccess<P>, id: i64) -> (reply: Reply)
    ensures
        exists|deleted: Result<i64, ProviderError>|
            deletion_outcome(old(db).catalog(), final(db).catalog(), id as int, deleted) && reply@
                == #[trigger] deletion_answer(deleted),
        old(db).dependable() ==> {
            &&& final(db).dependable()
            &&& final(db).catalog() == removal(old(db).catalog(), id).0
            &&& reply@ == deletion_answer(removal(old(db).catalog(), id).1)
        },
{
    let deleted = db.delete_song(id);
    let reply = deletion_reply(deleted);
    assert(reply@ == deletion_answer(deleted));
    reply
}

} // verus!
