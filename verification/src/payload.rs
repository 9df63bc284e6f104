//! The payloads of song creation and song update, read from a JSON value.

use crate::models::{copy_optional, opt_text, SongRow, SongView};
use vstd::prelude::*;
use vstd::string::StringExecFns;

verus! {

#[verifier::external_type_specification]
#[verifier::external_body]
pub struct ExJsonValue(serde_json::Value);

/// The text members of a JSON value: for a JSON object, its member names that
/// hold a JSON string, each with that string; for any other value, nothing.
pub uninterp spec fn json_text_members(data: serde_json::Value) -> Map<Seq<char>, Seq<char>>;

/// What `members` holds under `key`.
pub open spec fn member(members: Map<Seq<char>, Seq<char>>, key: Seq<char>) -> Option<Seq<char>> {
    if members.contains_key(key) {
        Some(members[key])
    } else {
        None
    }
}

/// Reads one text member of a JSON value.
///
/// Trusted: calls `serde_json::Value::get` with a string index, which finds a
/// member only in a JSON object, and `serde_json::Value::as_str`, which gives
/// a text only for a JSON string. The contract claims that the result is the
/// member's text where `key` names a text member, and nothing otherwise.
#[verifier::external_body]
pub(crate) fn text_member(data: &serde_json::Value, key: &str) -> (r: Option<String>)
    ensures
        r matches Some(s) ==> json_text_members(*data).contains_key(key@) && json_text_members(
            *data,
        )[key@] == s@,
        r is None ==> !json_text_members(*data).contains_key(key@),
{
    match data.get(key) {
        Some(member) => match member.as_str() {
            Some(text) => Some(text.to_owned()),
            None => None,
        },
        None => None,
    }
}

/// The payload of song creation: title and band are required, author and
/// lyrics are optional.
pub struct NewSong {
    pub title: String,
    pub author: Option<String>,
    pub lyrics: Option<String>,
    pub band: String,
}

/// A creation payload as mathematical values.
pub struct NewSongView {
    pub title: Seq<char>,
    pub author: Option<Seq<char>>,
    pub lyrics: Option<Seq<char>>,
    pub band: Seq<char>,
}

impl View for NewSong {
    type V = NewSongView;

    open spec fn view(&self) -> NewSongView {
        NewSongView {
            title: self.title@,
            author: opt_text(self.author),
            lyrics: opt_text(self.lyrics),
            band: self.band@,
        }
    }
}

/// The payload of song update: each field is written only if it is present.
pub struct SongPatch {
    pub title: Option<String>,
    pub author: Option<String>,
    pub lyrics: Option<String>,
    pub band: Option<String>,
}

/// An update payload as mathematical values.
pub struct PatchView {
    pub title: Option<Seq<char>>,
    pub author: Option<Seq<char>>,
    pub lyrics: Option<Seq<char>>,
    pub band: Option<Seq<char>>,
}

impl View for SongPatch {
    type V = PatchView;

    open spec fn view(&self) -> PatchView {
        PatchView {
            title: opt_text(self.title),
            author: opt_text(self.author),
            lyrics: opt_text(self.lyrics),
            band: opt_text(self.band),
        }
    }
}

/// The creation payload that four optional texts make: one exists where both
/// title and band are given.
pub open spec fn new_song_from(
    title: Option<Seq<char>>,
    author: Option<Seq<char>>,
    lyrics: Option<Seq<char>>,
    band: Option<Seq<char>>,
) -> Option<NewSongView> {
    match (title, band) {
        (Some(title), Some(band)) => Some(NewSongView { title, author, lyrics, band }),
        _ => None,
    }
}

/// The creation payload that a set of text members carries: one exists where
/// both `title` and `band` are among them.
pub open spec fn new_song_of(members: Map<Seq<char>, Seq<char>>) -> Option<NewSongView> {
    new_song_from(
        member(members, "title"@),
        member(members, "author"@),
        member(members, "lyrics"@),
        member(members, "band"@),
    )
}

/// The update payload that a set of text members carries.
pub open spec fn patch_of(members: Map<Seq<char>, Seq<char>>) -> PatchView {
    PatchView {
        title: member(members, "title"@),
        author: member(members, "author"@),
        lyrics: member(members, "lyrics"@),
        band: member(members, "band"@),
    }
}

/// The row that creation writes: the payload's fields under the assigned id,
/// with both timestamps set to the same instant.
pub open spec fn created_song(new: NewSongView, id: int, now: Seq<char>) -> SongView {
    SongView {
        id,
        title: new.title,
        author: new.author,
        lyrics: new.lyrics,
        band: new.band,
        created_at: now,
        updated_at: now,
    }
}

/// The value of a column after an update: the payload's where it has one, the
/// old one otherwise.
pub open spec fn replaced(old: Seq<char>, new: Option<Seq<char>>) -> Seq<char> {
    match new {
        Some(t) => t,
        None => old,
    }
}

/// The value of an optional column after an update.
pub open spec fn replaced_optional(old: Option<Seq<char>>, new: Option<Seq<char>>) -> Option<
    Seq<char>,
> {
    match new {
        Some(t) => Some(t),
        None => old,
    }
}

/// The row that an update leaves: each field that the payload holds is
/// replaced, every other field stays, and `updated_at` becomes `now` whether
/// or not any field was written. Id and `created_at` never change.
pub open spec fn patched(song: SongView, patch: PatchView, now: Seq<char>) -> SongView {
    SongView {
        id: song.id,
        title: replaced(song.title, patch.title),
        author: replaced_optional(song.author, patch.author),
        lyrics: replaced_optional(song.lyrics, patch.lyrics),
        band: replaced(song.band, patch.band),
        created_at: song.created_at,
        updated_at: now,
    }
}

impl NewSong {
    /// Makes a creation payload of four optional texts. There is none where
    /// title or band is missing.
    pub fn from_texts(
        title: Option<String>,
        author: Option<String>,
        lyrics: Option<String>,
        band: Option<String>,
    ) -> (r: Option<NewSong>)
        ensures
            match r {
                Some(new) => new_song_from(
                    opt_text(title),
                    opt_text(author),
                    opt_text(lyrics),
                    opt_text(band),
                ) == Some(new@),
                None => new_song_from(
                    opt_text(title),
                    opt_text(author),
                    opt_text(lyrics),
                    opt_text(band),
                ) is None,
            },
    {
        match (title, band) {
            (Some(title), Some(band)) => Some(NewSong { title, author, lyrics, band }),
            _ => None,
        }
    }

    /// Reads a creation payload. There is none where `title` or `band` is
    /// missing or is no JSON string.
    pub fn from_json(data: &serde_json::Value) -> (r: Option<NewSong>)
        ensures
            match r {
                Some(new) => new_song_of(json_text_members(*data)) == Some(new@),
                None => new_song_of(json_text_members(*data)) is None,
            },
    {
        NewSong::from_texts(
            text_member(data, "title"),
            text_member(data, "author"),
            text_member(data, "lyrics"),
            text_member(data, "band"),
        )
    }

    /// The row that creation writes for this payload under `id` at `now`.
    pub fn to_row(&self, id: i64, now: &str) -> (row: SongRow)
        ensures
            row@ == created_song(self@, id as int, now@),
    {
        SongRow {
            id,
            title: self.title.clone(),
            author: copy_optional(&self.author),
            lyrics: copy_optional(&self.lyrics),
            band: self.band.clone(),
            created_at: String::from_str(now),
            updated_at: String::from_str(now),
        }
    }
}

impl SongPatch {
    /// Makes an update payload of four optional texts. A text that is missing
    /// leaves its field unwritten.
    pub fn from_texts(
        title: Option<String>,
        author: Option<String>,
        lyrics: Option<String>,
        band: Option<String>,
    ) -> (r: SongPatch)
        ensures
            r@ == (PatchView {
                title: opt_text(title),
                author: opt_text(author),
                lyrics: opt_text(lyrics),
                band: opt_text(band),
            }),
    {
        SongPatch { title, author, lyrics, band }
    }

    /// Reads an update payload. A member that is missing or is no JSON string
    /// leaves its field unwritten.
    pub fn from_json(data: &serde_json::Value) -> (r: SongPatch)
        ensures
            r@ == patch_of(json_text_members(*data)),
    {
        SongPatch::from_texts(
            text_member(data, "title"),
            text_member(data, "author"),
            text_member(data, "lyrics"),
            text_member(data, "band"),
        )
    }

    /// Writes the payload's fields into `row` and stamps it with `now`.
    pub fn apply(&self, row: &mut SongRow, now: &str)
        ensures
            final(row)@ == patched(old(row)@, self@, now@),
    {
        match &self.title {
            Some(t) => {
                row.title = t.clone();
            },
            None => {},
        }
        match &self.author {
            Some(t) => {
                row.author = Some(t.clone());
            },
            None => {},
        }
        match &self.lyrics {
            Some(t) => {
                row.lyrics = Some(t.clone());
            },
            None => {},
        }
        match &self.band {
            Some(t) => {
                row.band = t.clone();
            },
            None => {},
        }
        row.updated_at = String::from_str(now);
    }
}

} // verus!
