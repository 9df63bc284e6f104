//! Storage rows, and the string-keyed record that stands for a row of either
//! table once it has left the storage layer.

use crate::text::{decimal, render_int};
use vstd::prelude::*;
use vstd::string::StringExecFns;

verus! {

/// One row of the `bands` table, columns in table order.
pub struct BandRow {
    pub id: i32,
    pub name: String,
    pub description: String,
    pub created_at: String,
}

/// One row of the `songs` table, columns in table order. `band` holds the
/// name of the band, not its id.
pub struct SongRow {
    pub id: i64,
    pub title: String,
    pub author: Option<String>,
    pub lyrics: Option<String>,
    pub band: String,
    pub created_at: String,
    pub updated_at: String,
}

/// What a band row holds, as mathematical values.
pub struct BandView {
    pub id: int,
    pub name: Seq<char>,
    pub description: Seq<char>,
    pub created_at: Seq<char>,
}

/// What a song row holds, as mathematical values.
pub struct SongView {
    pub id: int,
    pub title: Seq<char>,
    pub author: Option<Seq<char>>,
    pub lyrics: Option<Seq<char>>,
    pub band: Seq<char>,
    pub created_at: Seq<char>,
    pub updated_at: Seq<char>,
}

/// The text of an optional column.
pub open spec fn opt_text(s: Option<String>) -> Option<Seq<char>> {
    match s {
        Some(t) => Some(t@),
        None => None,
    }
}

impl View for BandRow {
    type V = BandView;

    open spec fn view(&self) -> BandView {
        BandView {
            id: self.id as int,
            name: self.name@,
            description: self.description@,
            created_at: self.created_at@,
        }
    }
}

impl View for SongRow {
    type V = SongView;

    open spec fn view(&self) -> SongView {
        SongView {
            id: self.id as int,
            title: self.title@,
            author: opt_text(self.author),
            lyrics: opt_text(self.lyrics),
            band: self.band@,
            created_at: self.created_at@,
            updated_at: self.updated_at@,
        }
    }
}

/// The fields of a record: pairs of field name and rendered value, in the
/// order in which they were written.
pub type Fields = Seq<(Seq<char>, Seq<char>)>;

/// The value that `fields` holds under `key`: that of the first pair with
/// that name, if there is one.
pub open spec fn field_value(fields: Fields, key: Seq<char>) -> Option<Seq<char>>
    decreases fields.len(),
{
    if fields.len() == 0 {
        None
    } else if fields[0].0 == key {
        Some(fields[0].1)
    } else {
        field_value(fields.drop_first(), key)
    }
}

/// The rendering of an optional column: its text, or the empty text where the
/// column holds nothing.
pub open spec fn text_or_empty(s: Option<Seq<char>>) -> Seq<char> {
    match s {
        Some(t) => t,
        None => Seq::empty(),
    }
}

/// The record of a band: the four column names of the table, each with the
/// rendering of its column.
pub open spec fn band_fields(b: BandView) -> Fields {
    seq![
        ("id"@, decimal(b.id)),
        ("name"@, b.name),
        ("description"@, b.description),
        ("created_at"@, b.created_at),
    ]
}

/// The record of a song: the seven column names of the table, each with the
/// rendering of its column.
pub open spec fn song_fields(s: SongView) -> Fields {
    seq![
        ("id"@, decimal(s.id)),
        ("title"@, s.title),
        ("author"@, text_or_empty(s.author)),
        ("lyrics"@, text_or_empty(s.lyrics)),
        ("band"@, s.band),
        ("created_at"@, s.created_at),
        ("updated_at"@, s.updated_at),
    ]
}

/// Whether every field name occurs once.
pub open spec fn names_differ(fields: Fields) -> bool {
    forall|i: int, j: int| 0 <= i < j < fields.len() ==> fields[i].0 != fields[j].0
}

/// The position of the field of the given name, and the number of fields
/// where there is none.
pub open spec fn name_position(fields: Fields, key: Seq<char>) -> int
    decreases fields.len(),
{
    if fields.len() == 0 {
        0
    } else if fields[0].0 == key {
        0
    } else {
        1 + name_position(fields.drop_first(), key)
    }
}

/// The fields after one is written: a field of that name gets the new value
/// in its place, a field of a new name goes behind the others.
pub open spec fn written(fields: Fields, key: Seq<char>, value: Seq<char>) -> Fields {
    let i = name_position(fields, key);
    if i < fields.len() {
        fields.update(i, (key, value))
    } else {
        fields.push((key, value))
    }
}

/// The position of a name is the first place at which the name stands.
pub proof fn lemma_name_position(fields: Fields, key: Seq<char>)
    ensures
        0 <= name_position(fields, key) <= fields.len(),
        name_position(fields, key) < fields.len() ==> fields[name_position(fields, key)].0 == key,
        forall|j: int| 0 <= j < name_position(fields, key) ==> (#[trigger] fields[j]).0 != key,
    decreases fields.len(),
{
    if fields.len() > 0 && fields[0].0 != key {
        let rest = fields.drop_first();
        lemma_name_position(rest, key);
        assert forall|j: int| 0 <= j < name_position(fields, key) implies (#[trigger] fields[j]).0
            != key by {
            if j > 0 {
                assert(rest[j - 1] == fields[j]);
            }
        }
    }
}

/// The value under a name is the value at the name's position.
pub proof fn lemma_field_value_at(fields: Fields, key: Seq<char>)
    ensures
        field_value(fields, key) == if name_position(fields, key) < fields.len() {
            Some(fields[name_position(fields, key)].1)
        } else {
            None
        },
    decreases fields.len(),
{
    if fields.len() > 0 && fields[0].0 != key {
        lemma_field_value_at(fields.drop_first(), key);
        lemma_name_position(fields.drop_first(), key);
    }
}

/// Writing a field keeps every name single, puts the new value under the
/// name, and leaves the value under every other name as it was.
pub proof fn lemma_written(fields: Fields, key: Seq<char>, value: Seq<char>, other: Seq<char>)
    requires
        names_differ(fields),
    ensures
        names_differ(written(fields, key, value)),
        field_value(written(fields, key, value), key) == Some(value),
        other != key ==> field_value(written(fields, key, value), other) == field_value(
            fields,
            other,
        ),
{
    let after = written(fields, key, value);
    let i = name_position(fields, key);
    lemma_name_position(fields, key);
    lemma_name_position(after, key);
    lemma_field_value_at(after, key);
    assert(after[i].0 == key);
    if name_position(after, key) < i {
        assert(after[name_position(after, key)] == fields[name_position(after, key)]);
    }
    if other != key {
        lemma_name_position(fields, other);
        lemma_name_position(after, other);
        lemma_field_value_at(fields, other);
        lemma_field_value_at(after, other);
        let p = name_position(fields, other);
        let q = name_position(after, other);
        if q < after.len() {
            assert(after[q].0 == other);
            assert(q < fields.len() && after[q] == fields[q]);
        }
        if p < fields.len() {
            assert(fields[p].0 == other);
            assert(after[p] == fields[p]);
        }
    }
}

/// The texts of a run of pairs.
pub open spec fn pair_texts(pairs: Seq<(String, String)>) -> Fields {
    pairs.map_values(|p: (String, String)| (p.0@, p.1@))
}

/// A row of either table as it travels above the storage layer: field names
/// with string values, every value already rendered to text. No name occurs
/// twice; the fields keep the order in which their names were first written.
pub struct Record {
    fields: Vec<(String, String)>,
}

impl View for Record {
    type V = Fields;

    closed spec fn view(&self) -> Fields {
        pair_texts(self.fields@)
    }
}

impl DeepView for Record {
    type V = Fields;

    open spec fn deep_view(&self) -> Fields {
        self@
    }
}

impl Record {
    #[verifier::type_invariant]
    spec fn names_are_single(self) -> bool {
        names_differ(self@)
    }

    /// A record without fields.
    pub fn new() -> (r: Record)
        ensures
            r@ == Seq::<(Seq<char>, Seq<char>)>::empty(),
            names_differ(r@),
    {
        let fields: Vec<(String, String)> = Vec::new();
        assert(pair_texts(fields@) =~= Seq::<(Seq<char>, Seq<char>)>::empty());
        Record { fields }
    }

    /// The position of the field of the given name, and the number of
    /// fields where there is none.
    fn position(&self, key: &str) -> (at: usize)
        ensures
            at == name_position(self@, key@),
            at <= self.fields@.len(),
    {
        let mut i: usize = 0;
        assert(self@.subrange(0, self@.len() as int) =~= self@);
        while i < self.fields.len()
            invariant
                i <= self.fields@.len(),
                self@ == pair_texts(self.fields@),
                name_position(self@, key@) == i + name_position(
                    self@.subrange(i as int, self@.len() as int),
                    key@,
                ),
            decreases self.fields.len() - i,
        {
            let ghost rest = self@.subrange(i as int, self@.len() as int);
            assert(rest[0] == self@[i as int]);
            assert(rest.drop_first() =~= self@.subrange(i + 1, self@.len() as int));
            if str_eq(self.fields[i].0.as_str(), key) {
                return i;
            }
            i = i + 1;
        }
        i
    }

    /// A copy of the fields.
    fn copied(&self) -> (fields: Vec<(String, String)>)
        ensures
            fields@ == self.fields@,
    {
        let mut fields: Vec<(String, String)> = Vec::new();
        let mut i: usize = 0;
        while i < self.fields.len()
            invariant
                i <= self.fields@.len(),
                fields@.len() == i,
                forall|j: int| 0 <= j < i ==> fields@[j] == self.fields@[j],
            decreases self.fields.len() - i,
        {
            fields.push((self.fields[i].0.clone(), self.fields[i].1.clone()));
            i = i + 1;
        }
        assert(fields@ =~= self.fields@);
        fields
    }

    /// Writes a field. A field of that name gets the new value; a new name
    /// goes behind the others.
    pub fn insert(&mut self, key: &str, value: String)
        ensures
            final(self)@ == written(old(self)@, key@, value@),
            names_differ(final(self)@),
    {
        proof {
            use_type_invariant(&*self);
            lemma_written(self@, key@, value@, key@);
        }
        let at = self.position(key);
        let mut fields = self.copied();
        if at < fields.len() {
            fields.set(at, (String::from_str(key), value));
        } else {
            fields.push((String::from_str(key), value));
        }
        assert(pair_texts(fields@) =~= written(self@, key@, value@));
        self.fields = fields;
    }

    /// The number of fields.
    pub fn len(&self) -> (n: usize)
        ensures
            n == self@.len(),
            names_differ(self@),
    {
        proof {
            use_type_invariant(self);
        }
        self.fields.len()
    }

    /// The name of the field at position `i`.
    pub fn key_at(&self, i: usize) -> (k: &str)
        requires
            i < self@.len(),
        ensures
            k@ == self@[i as int].0,
    {
        self.fields[i].0.as_str()
    }

    /// The value of the field at position `i`.
    pub fn value_at(&self, i: usize) -> (v: &str)
        requires
            i < self@.len(),
        ensures
            v@ == self@[i as int].1,
    {
        self.fields[i].1.as_str()
    }

    /// The value held under `key`, if the record has a field of that name.
    /// No other field has the name.
    pub fn get(&self, key: &str) -> (r: Option<&str>)
        ensures
            match r {
                Some(v) => field_value(self@, key@) == Some(v@),
                None => field_value(self@, key@) is None,
            },
            names_differ(self@),
    {
        proof {
            use_type_invariant(self);
        }
        let mut i: usize = 0;
        assert(self@.subrange(0, self@.len() as int) =~= self@);
        while i < self.fields.len()
            invariant
                i <= self@.len(),
                self@.len() == self.fields@.len(),
                self@ == pair_texts(self.fields@),
                names_differ(self@),
                field_value(self@, key@) == field_value(
                    self@.subrange(i as int, self@.len() as int),
                    key@,
                ),
            decreases self.fields.len() - i,
        {
            let ghost rest = self@.subrange(i as int, self@.len() as int);
            assert(rest[0] == self@[i as int]);
            assert(rest.drop_first() =~= self@.subrange(i + 1, self@.len() as int));
            if str_eq(self.fields[i].0.as_str(), key) {
                return Some(self.fields[i].1.as_str());
            }
            i = i + 1;
        }
        None
    }
}

impl Clone for Record {
    fn clone(&self) -> (r: Record)
        ensures
            r@ == self@,
            names_differ(r@),
    {
        proof {
            use_type_invariant(self);
        }
        Record { fields: self.copied() }
    }
}

/// Whether two texts are the same, character for character.
pub fn str_eq(a: &str, b: &str) -> (r: bool)
    ensures
        r == (a@ == b@),
{
    let n = a.unicode_len();
    if n != b.unicode_len() {
        return false;
    }
    let mut i: usize = 0;
    while i < n
        invariant
            i <= n,
            n == a@.len(),
            n == b@.len(),
            forall|j: int| 0 <= j < i ==> a@[j] == b@[j],
        decreases n - i,
    {
        if a.get_char(i) != b.get_char(i) {
            return false;
        }
        i = i + 1;
    }
    assert(a@ =~= b@);
    true
}

/// A copy of an optional text.
pub fn copy_optional(s: &Option<String>) -> (r: Option<String>)
    ensures
        opt_text(r) == opt_text(*s),
{
    match s {
        Some(t) => Some(t.clone()),
        None => None,
    }
}

/// The rendering of an optional column.
pub fn render_optional(s: &Option<String>) -> (r: String)
    ensures
        r@ == text_or_empty(opt_text(*s)),
{
    match s {
        Some(t) => t.clone(),
        None => String::new(),
    }
}

/// Maps a band row to its record.
pub fn band_record(row: &BandRow) -> (r: Record)
    ensures
        r@ == band_fields(row@),
        names_differ(r@),
{
    let mut fields: Vec<(String, String)> = Vec::new();
    fields.push((String::from_str("id"), render_int(row.id as i64)));
    fields.push((String::from_str("name"), row.name.clone()));
    fields.push((String::from_str("description"), row.description.clone()));
    fields.push((String::from_str("created_at"), row.created_at.clone()));
    proof {
        lemma_band_names_differ(row@);
        assert(pair_texts(fields@) =~= band_fields(row@));
    }
    Record { fields }
}

/// Maps a song row to its record.
pub fn song_record(row: &SongRow) -> (r: Record)
    ensures
        r@ == song_fields(row@),
        names_differ(r@),
{
    let mut fields: Vec<(String, String)> = Vec::new();
    fields.push((String::from_str("id"), render_int(row.id)));
    fields.push((String::from_str("title"), row.title.clone()));
    fields.push((String::from_str("author"), render_optional(&row.author)));
    fields.push((String::from_str("lyrics"), render_optional(&row.lyrics)));
    fields.push((String::from_str("band"), row.band.clone()));
    fields.push((String::from_str("created_at"), row.created_at.clone()));
    fields.push((String::from_str("updated_at"), row.updated_at.clone()));
    proof {
        lemma_song_names_differ(row@);
        assert(pair_texts(fields@) =~= song_fields(row@));
    }
    Record { fields }
}

/// The four field names of a band record differ.
pub proof fn lemma_band_names_differ(b: BandView)
    ensures
        names_differ(band_fields(b)),
{
    reveal_strlit("id");
    reveal_strlit("name");
    reveal_strlit("description");
    reveal_strlit("created_at");
    assert("id"@.len() == 2 && "name"@.len() == 4);
    assert("description"@.len() == 11 && "created_at"@.len() == 10);
}

/// The seven field names of a song record differ.
pub proof fn lemma_song_names_differ(s: SongView)
    ensures
        names_differ(song_fields(s)),
{
    reveal_strlit("id");
    reveal_strlit("title");
    reveal_strlit("author");
    reveal_strlit("lyrics");
    reveal_strlit("band");
    reveal_strlit("created_at");
    reveal_strlit("updated_at");
    assert("id"@.len() == 2 && "title"@.len() == 5 && "band"@.len() == 4);
    assert("author"@.len() == 6 && "author"@[0] == 'a');
    assert("lyrics"@.len() == 6 && "lyrics"@[0] == 'l');
    assert("created_at"@.len() == 10 && "created_at"@[0] == 'c');
    assert("updated_at"@.len() == 10 && "updated_at"@[0] == 'u');
}

/// The only element of a run: there is none where the run is empty or holds
/// more than one.
pub open spec fn sole<A>(s: Seq<A>) -> Option<A> {
    if s.len() == 1 {
        Some(s[0])
    } else {
        None
    }
}

/// The first element of a run, if it has one.
pub open spec fn leading<A>(s: Seq<A>) -> Option<A> {
    if s.len() > 0 {
        Some(s[0])
    } else {
        None
    }
}

/// The records of a run of band rows, in the same order.
pub open spec fn band_records(bands: Seq<BandView>) -> Seq<Fields> {
    bands.map_values(|b: BandView| band_fields(b))
}

/// The records of a run of song rows, in the same order.
pub open spec fn song_records(songs: Seq<SongView>) -> Seq<Fields> {
    songs.map_values(|s: SongView| song_fields(s))
}

/// The record of an optional band row.
pub open spec fn band_record_of(band: Option<BandView>) -> Option<Fields> {
    match band {
        Some(b) => Some(band_fields(b)),
        None => None,
    }
}

/// The record of an optional song row.
pub open spec fn song_record_of(song: Option<SongView>) -> Option<Fields> {
    match song {
        Some(s) => Some(song_fields(s)),
        None => None,
    }
}

/// The contents of a run of band rows.
pub open spec fn band_views(rows: Seq<BandRow>) -> Seq<BandView> {
    rows.map_values(|r: BandRow| r@)
}

/// The contents of a run of song rows.
pub open spec fn song_views(rows: Seq<SongRow>) -> Seq<SongView> {
    rows.map_values(|r: SongRow| r@)
}

/// Maps the band rows of a result set to their records, in the same order.
pub fn band_list(rows: &Vec<BandRow>) -> (list: Vec<Record>)
    ensures
        list.deep_view() == band_records(band_views(rows@)),
{
    let mut list: Vec<Record> = Vec::new();
    let mut i: usize = 0;
    while i < rows.len()
        invariant
            i <= rows@.len(),
            list@.len() == i,
            forall|j: int| 0 <= j < i ==> (#[trigger] list@[j])@ == band_fields(rows@[j]@),
        decreases rows.len() - i,
    {
        list.push(band_record(&rows[i]));
        i = i + 1;
    }
    assert(list.deep_view() =~= band_records(band_views(rows@)));
    list
}

/// Maps the song rows of a result set to their records, in the same order.
pub fn song_list(rows: &Vec<SongRow>) -> (list: Vec<Record>)
    ensures
        list.deep_view() == song_records(song_views(rows@)),
{
    let mut list: Vec<Record> = Vec::new();
    let mut i: usize = 0;
    while i < rows.len()
        invariant
            i <= rows@.len(),
            list@.len() == i,
            forall|j: int| 0 <= j < i ==> (#[trigger] list@[j])@ == song_fields(rows@[j]@),
        decreases rows.len() - i,
    {
        list.push(song_record(&rows[i]));
        i = i + 1;
    }
    assert(list.deep_view() =~= song_records(song_views(rows@)));
    list
}

/// The record of the only band row of a result set. A result set that is
/// empty or holds more than one row gives absence.
pub fn sole_band(rows: &Vec<BandRow>) -> (found: Option<Record>)
    ensures
        found.deep_view() == band_record_of(sole(band_views(rows@))),
{
    if rows.len() == 1 {
        Some(band_record(&rows[0]))
    } else {
        None
    }
}

/// The record of the first song row of a result set, if it has one.
pub fn first_song(rows: &Vec<SongRow>) -> (found: Option<Record>)
    ensures
        found.deep_view() == song_record_of(leading(song_views(rows@))),
{
    if rows.len() > 0 {
        Some(song_record(&rows[0]))
    } else {
        None
    }
}

/// The record of a band holds each column under its name.
pub proof fn lemma_band_field_values(b: BandView)
    ensures
        field_value(band_fields(b), "id"@) == Some(decimal(b.id)),
        field_value(band_fields(b), "name"@) == Some(b.name),
        field_value(band_fields(b), "description"@) == Some(b.description),
        field_value(band_fields(b), "created_at"@) == Some(b.created_at),
{
    reveal_strlit("id");
    reveal_strlit("name");
    reveal_strlit("description");
    reveal_strlit("created_at");
    reveal_with_fuel(field_value, 5);
    assert("id"@.len() == 2 && "name"@.len() == 4);
    assert("description"@.len() == 11 && "created_at"@.len() == 10);
    let f = band_fields(b);
    assert(f.drop_first() =~= f.subrange(1, 4));
    assert(f.drop_first().drop_first() =~= f.subrange(2, 4));
    assert(f.drop_first().drop_first().drop_first() =~= f.subrange(3, 4));
}

/// The record of a song holds each column under its name; an optional
/// column that holds nothing is held as the empty text.
pub proof fn lemma_song_field_values(s: SongView)
    ensures
        field_value(song_fields(s), "id"@) == Some(decimal(s.id)),
        field_value(song_fields(s), "title"@) == Some(s.title),
        field_value(song_fields(s), "author"@) == Some(text_or_empty(s.author)),
        field_value(song_fields(s), "lyrics"@) == Some(text_or_empty(s.lyrics)),
        field_value(song_fields(s), "band"@) == Some(s.band),
        field_value(song_fields(s), "created_at"@) == Some(s.created_at),
        field_value(song_fields(s), "updated_at"@) == Some(s.updated_at),
{
    reveal_strlit("id");
    reveal_strlit("title");
    reveal_strlit("author");
    reveal_strlit("lyrics");
    reveal_strlit("band");
    reveal_strlit("created_at");
    reveal_strlit("updated_at");
    reveal_with_fuel(field_value, 8);
    assert("id"@.len() == 2 && "title"@.len() == 5 && "band"@.len() == 4);
    assert("author"@.len() == 6 && "author"@[0] == 'a');
    assert("lyrics"@.len() == 6 && "lyrics"@[0] == 'l');
    assert("created_at"@.len() == 10 && "created_at"@[0] == 'c');
    assert("updated_at"@.len() == 10 && "updated_at"@[0] == 'u');
    let f = song_fields(s);
    let f1 = f.drop_first();
    let f2 = f1.drop_first();
    let f3 = f2.drop_first();
    let f4 = f3.drop_first();
    let f5 = f4.drop_first();
    let f6 = f5.drop_first();
    assert(f1 =~= f.subrange(1, 7));
    assert(f2 =~= f.subrange(2, 7));
    assert(f3 =~= f.subrange(3, 7));
    assert(f4 =~= f.subrange(4, 7));
    assert(f5 =~= f.subrange(5, 7));
    assert(f6 =~= f.subrange(6, 7));
}

} // verus!
