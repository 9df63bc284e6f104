use serde_json::Value;
use song_catalog::db_manager::DatabaseAccess;
use song_catalog::db_provider::{DatabaseProvider, Listing, Lookup, ProviderError};
use song_catalog::memory::MemoryDatabase;
use song_catalog::models::{BandRow, Record};
use song_catalog::router::{
    band_reply, bands_reply, creation_reply, delete_song_id, deletion_reply, detail_reply,
    get_bands, get_song_id, get_songs, post_songs, put_song_id, read_page_request, reject,
    select_filter, songs_reply, update_reply, Body, Problem, SongQuery, BAD_REQUEST,
    INTERNAL_SERVER_ERROR, NOT_FOUND, NO_CONTENT, OK,
};
use song_catalog::catalog::{Catalog, SongFilter};

fn payload(members: &[(&str, &str)]) -> Value {
    let mut map = serde_json::Map::new();
    for (key, value) in members {
        map.insert(key.to_string(), Value::String(value.to_string()));
    }
    Value::Object(map)
}

fn catalogue(songs: usize) -> DatabaseAccess<MemoryDatabase> {
    let mut db = MemoryDatabase::new();
    db.add_band(BandRow {
        id: 1,
        name: "Queen".to_string(),
        description: "desc".to_string(),
        created_at: "t0".to_string(),
    });
    db.add_band(BandRow {
        id: 2,
        name: "Muse".to_string(),
        description: "trio".to_string(),
        created_at: "t0".to_string(),
    });
    for i in 0..songs {
        let title = if i % 5 == 0 { "Same".to_string() } else { format!("Song {}", i) };
        let band = if i % 2 == 0 { "Queen" } else { "Muse" };
        db.create_song(payload(&[("title", &title), ("band", band)]), "t1").unwrap().unwrap();
    }
    DatabaseAccess::new(Box::new(db))
}

fn query(size: Option<&str>, index: Option<&str>, title: Option<&str>, band: Option<&str>) -> SongQuery {
    SongQuery {
        page_size: size.map(str::to_string),
        page_index: index.map(str::to_string),
        title: title.map(str::to_string),
        band: band.map(str::to_string),
    }
}

fn ids(songs: &[Record]) -> Vec<String> {
    songs.iter().map(|r| r.get("id").unwrap().to_string()).collect()
}

/// A store that cannot be reached.
struct Down;

impl DatabaseProvider for Down {
    fn catalog(&self) -> Catalog {
        unreachable!()
    }
    fn get_all_bands(&self) -> Listing {
        Err(ProviderError::Transport)
    }
    fn get_band_by_name(&self, _name: String) -> Lookup {
        Err(ProviderError::Transport)
    }
    fn get_all_songs(&self) -> Listing {
        Err(ProviderError::Transport)
    }
    fn get_song_by_title(&self, _title: String) -> Listing {
        Err(ProviderError::Transport)
    }
    fn get_song_by_band(&self, _band: String) -> Listing {
        Err(ProviderError::Transport)
    }
    fn get_song_by_id(&self, _id: i64) -> Lookup {
        Err(ProviderError::Transport)
    }
    fn create_song(&mut self, _data: Value, _now: &str) -> Lookup {
        Err(ProviderError::Transport)
    }
    fn delete_song(&mut self, _id: i64) -> Result<i64, ProviderError> {
        Err(ProviderError::Transport)
    }
    fn update_song(&mut self, _id: i64, _data: Value, _now: &str) -> Lookup {
        Err(ProviderError::Transport)
    }
}

#[test]
fn page_parameters_have_defaults() {
    assert_eq!(read_page_request(&None, &None), Some((10, 1)));
    assert_eq!(read_page_request(&Some("3".to_string()), &None), Some((3, 1)));
    assert_eq!(read_page_request(&None, &Some("4".to_string())), Some((10, 4)));
    assert_eq!(read_page_request(&Some("7".to_string()), &Some("2".to_string())), Some((7, 2)));
    assert_eq!(read_page_request(&Some("7".to_string()), &Some("0".to_string())), Some((7, 0)));
}

#[test]
fn unreadable_page_parameters_are_refused() {
    assert_eq!(read_page_request(&Some("ten".to_string()), &None), None);
    assert_eq!(read_page_request(&None, &Some("-1".to_string())), None);
    assert_eq!(read_page_request(&Some(String::new()), &None), None);
    assert_eq!(read_page_request(&Some("0".to_string()), &None), None);
    assert_eq!(read_page_request(&Some("5".to_string()), &Some("1.0".to_string())), None);
}

#[test]
fn the_title_filter_wins_over_the_band_filter() {
    let f = select_filter(Some("A".to_string()), Some("Queen".to_string()));
    assert!(matches!(f, SongFilter::Title(t) if t == "A"));
    let f = select_filter(Some("A".to_string()), None);
    assert!(matches!(f, SongFilter::Title(t) if t == "A"));
    let f = select_filter(None, Some("Queen".to_string()));
    assert!(matches!(f, SongFilter::Band(b) if b == "Queen"));
    assert!(matches!(select_filter(None, None), SongFilter::All));
}

#[test]
fn a_listing_without_parameters_is_the_first_page_of_ten() {
    let db = catalogue(25);
    let reply = get_songs(&db, query(None, None, None, None));
    assert_eq!(reply.status, OK);
    match reply.body {
        Body::Songs { songs, total, page_size, page_index } => {
            assert_eq!(ids(&songs), (1..=10).map(|i| i.to_string()).collect::<Vec<_>>());
            assert_eq!(total, 25);
            assert_eq!(page_size, 10);
            assert_eq!(page_index, 1);
        }
        _ => panic!("a page of songs was expected"),
    }
}

#[test]
fn the_last_page_is_partly_filled_and_a_success() {
    let db = catalogue(25);
    let reply = get_songs(&db, query(Some("10"), Some("3"), None, None));
    assert_eq!(reply.status, OK);
    match reply.body {
        Body::Songs { songs, total, page_size, page_index } => {
            assert_eq!(ids(&songs), vec!["21", "22", "23", "24", "25"]);
            assert_eq!(total, 25);
            assert_eq!(page_size, 10);
            assert_eq!(page_index, 3);
        }
        _ => panic!("a page of songs was expected"),
    }
}

#[test]
fn a_page_behind_the_last_is_empty_and_a_client_error() {
    let db = catalogue(25);
    let reply = get_songs(&db, query(Some("10"), Some("4"), None, None));
    assert_eq!(reply.status, BAD_REQUEST);
    match reply.body {
        Body::Songs { songs, total, page_size, page_index } => {
            assert!(songs.is_empty());
            assert_eq!(total, 25);
            assert_eq!(page_size, 10);
            assert_eq!(page_index, 4);
        }
        _ => panic!("an empty page was expected"),
    }
    let reply = get_songs(&catalogue(0), query(None, None, None, None));
    assert_eq!(reply.status, BAD_REQUEST);
    assert!(matches!(reply.body, Body::Songs { ref songs, total: 0, .. } if songs.is_empty()));
    let reply = get_songs(&db, query(Some("10"), Some("0"), None, None));
    assert_eq!(reply.status, BAD_REQUEST);
    assert!(matches!(reply.body, Body::Songs { ref songs, total: 25, .. } if songs.is_empty()));
}

#[test]
fn an_unreadable_listing_is_rejected() {
    let db = catalogue(3);
    for q in [
        query(Some("x"), None, None, None),
        query(None, Some("x"), None, None),
        query(Some("0"), None, None, None),
        query(Some("-3"), Some("1"), None, None),
    ] {
        let reply = get_songs(&db, q);
        assert_eq!(reply.status, BAD_REQUEST);
        assert!(matches!(reply.body, Body::Detail(Problem::BadRequest)));
    }
    let reply = reject();
    assert_eq!(reply.status, BAD_REQUEST);
    assert!(matches!(reply.body, Body::Detail(Problem::BadRequest)));
}

#[test]
fn a_listing_honours_one_filter() {
    let db = catalogue(12);
    let reply = get_songs(&db, query(None, None, Some("Same"), None));
    assert_eq!(reply.status, OK);
    match reply.body {
        Body::Songs { songs, total, .. } => {
            assert_eq!(ids(&songs), vec!["1", "6", "11"]);
            assert_eq!(total, 3);
        }
        _ => panic!("a page of songs was expected"),
    }
    let reply = get_songs(&db, query(Some("4"), Some("2"), None, Some("Muse")));
    assert_eq!(reply.status, OK);
    match reply.body {
        Body::Songs { songs, total, page_size, page_index } => {
            assert_eq!(ids(&songs), vec!["10", "12"]);
            assert_eq!(total, 6);
            assert_eq!(page_size, 4);
            assert_eq!(page_index, 2);
        }
        _ => panic!("a page of songs was expected"),
    }
    let reply = get_songs(&db, query(None, None, Some("Same"), Some("Muse")));
    match reply.body {
        Body::Songs { songs, total, .. } => {
            assert_eq!(ids(&songs), vec!["1", "6", "11"]);
            assert_eq!(total, 3);
        }
        _ => panic!("a page of songs was expected"),
    }
}

#[test]
fn a_listing_reply_for_each_answer_of_the_store() {
    let reply = songs_reply(Err(ProviderError::Transport), 10, 1);
    assert_eq!(reply.status, INTERNAL_SERVER_ERROR);
    assert!(matches!(reply.body, Body::Empty));
    let reply = songs_reply(Ok(None), 10, 1);
    assert_eq!(reply.status, NOT_FOUND);
    assert!(matches!(reply.body, Body::Detail(Problem::SongMissing)));
    let reply = songs_reply(Ok(Some(Vec::new())), 10, 1);
    assert_eq!(reply.status, BAD_REQUEST);
    assert!(matches!(reply.body, Body::Songs { total: 0, page_size: 10, page_index: 1, .. }));
    let mut one = Record::new();
    one.insert("id", "1".to_string());
    let reply = songs_reply(Ok(Some(vec![one])), 10, 1);
    assert_eq!(reply.status, OK);
    assert!(matches!(reply.body, Body::Songs { ref songs, total: 1, .. } if songs.len() == 1));
}

#[test]
fn a_band_asked_for_by_name_comes_as_a_list_of_one() {
    let db = catalogue(0);
    let reply = get_bands(&db, Some("Queen".to_string()));
    assert_eq!(reply.status, OK);
    match reply.body {
        Body::OneBand(Some(band)) => assert_eq!(band.get("description"), Some("desc")),
        _ => panic!("one band was expected"),
    }
    let reply = get_bands(&db, Some("Abba".to_string()));
    assert_eq!(reply.status, OK);
    assert!(matches!(reply.body, Body::OneBand(None)));
}

#[test]
fn all_bands_come_without_a_name() {
    let reply = get_bands(&catalogue(0), None);
    assert_eq!(reply.status, OK);
    match reply.body {
        Body::Bands(Some(bands)) => {
            let names: Vec<&str> = bands.iter().map(|b| b.get("name").unwrap()).collect();
            assert_eq!(names, vec!["Queen", "Muse"]);
        }
        _ => panic!("all bands were expected"),
    }
    assert!(matches!(bands_reply(Ok(None)).body, Body::Bands(None)));
    assert_eq!(bands_reply(Ok(None)).status, OK);
    assert_eq!(bands_reply(Err(ProviderError::Transport)).status, INTERNAL_SERVER_ERROR);
    assert_eq!(band_reply(Err(ProviderError::Transport)).status, INTERNAL_SERVER_ERROR);
}

#[test]
fn a_song_is_found_or_not_found() {
    let db = catalogue(2);
    let reply = get_song_id(&db, 2);
    assert_eq!(reply.status, OK);
    match reply.body {
        Body::Item(song) => assert_eq!(song.get("title"), Some("Song 1")),
        _ => panic!("a song was expected"),
    }
    let reply = get_song_id(&db, 3);
    assert_eq!(reply.status, NOT_FOUND);
    assert!(matches!(reply.body, Body::Detail(Problem::SongMissing)));
    let reply = detail_reply(Err(ProviderError::Transport));
    assert_eq!(reply.status, INTERNAL_SERVER_ERROR);
    assert!(matches!(reply.body, Body::Empty));
}

#[test]
fn creation_replies_with_the_record_or_a_client_error() {
    let mut db = catalogue(0);
    let reply = post_songs(&mut db, payload(&[("title", "A"), ("band", "Queen")]), "t1");
    assert_eq!(reply.status, OK);
    match reply.body {
        Body::Item(song) => {
            assert_eq!(song.get("id"), Some("1"));
            assert_eq!(song.get("created_at"), Some("t1"));
            assert_eq!(song.get("updated_at"), Some("t1"));
        }
        _ => panic!("a song was expected"),
    }
    let reply = post_songs(&mut db, payload(&[("title", "A"), ("band", "Abba")]), "t1");
    assert_eq!(reply.status, BAD_REQUEST);
    assert!(matches!(reply.body, Body::Detail(Problem::BadRequest)));
    assert_eq!(db.get_all_songs().unwrap().unwrap().len(), 1);
    let reply = creation_reply(Err(ProviderError::Exhausted));
    assert_eq!(reply.status, INTERNAL_SERVER_ERROR);
    assert!(matches!(reply.body, Body::Detail(Problem::ServerError)));
}

#[test]
fn an_update_replies_with_the_record_or_not_found() {
    let mut db = catalogue(1);
    let reply = put_song_id(&mut db, 1, payload(&[("lyrics", "new")]), "t2");
    assert_eq!(reply.status, OK);
    match reply.body {
        Body::Item(song) => {
            assert_eq!(song.get("lyrics"), Some("new"));
            assert_eq!(song.get("updated_at"), Some("t2"));
        }
        _ => panic!("a song was expected"),
    }
    let reply = put_song_id(&mut db, 5, payload(&[("lyrics", "new")]), "t2");
    assert_eq!(reply.status, NOT_FOUND);
    assert!(matches!(reply.body, Body::Detail(Problem::SongMissing)));
    let reply = update_reply(Err(ProviderError::Transport));
    assert_eq!(reply.status, INTERNAL_SERVER_ERROR);
    assert!(matches!(reply.body, Body::Empty));
}

#[test]
fn a_deletion_replies_with_nothing_or_a_client_error() {
    let mut db = catalogue(1);
    let reply = delete_song_id(&mut db, 1);
    assert_eq!(reply.status, NO_CONTENT);
    assert!(matches!(reply.body, Body::Empty));
    let reply = delete_song_id(&mut db, 1);
    assert_eq!(reply.status, BAD_REQUEST);
    assert!(matches!(reply.body, Body::Detail(Problem::SongMissing)));
    assert_eq!(deletion_reply(Ok(4)).status, NO_CONTENT);
    assert_eq!(deletion_reply(Err(ProviderError::Transport)).status, BAD_REQUEST);
}

#[test]
fn a_store_that_is_down_gives_server_errors() {
    let mut db = DatabaseAccess::new(Box::new(Down));
    assert_eq!(get_bands(&db, None).status, INTERNAL_SERVER_ERROR);
    assert_eq!(get_bands(&db, Some("Queen".to_string())).status, INTERNAL_SERVER_ERROR);
    assert_eq!(get_songs(&db, query(None, None, None, None)).status, INTERNAL_SERVER_ERROR);
    assert_eq!(get_songs(&db, query(None, None, Some("A"), None)).status, INTERNAL_SERVER_ERROR);
    assert_eq!(get_songs(&db, query(None, None, None, Some("B"))).status, INTERNAL_SERVER_ERROR);
    assert_eq!(get_song_id(&db, 1).status, INTERNAL_SERVER_ERROR);
    assert_eq!(post_songs(&mut db, Value::Null, "t").status, INTERNAL_SERVER_ERROR);
    assert_eq!(put_song_id(&mut db, 1, Value::Null, "t").status, INTERNAL_SERVER_ERROR);
    assert_eq!(delete_song_id(&mut db, 1).status, BAD_REQUEST);
    assert_eq!(get_songs(&db, query(Some("x"), None, None, None)).status, BAD_REQUEST);
}

#[test]
fn error_bodies_carry_their_text() {
    assert_eq!(Problem::SongMissing.detail(), "歌曲不存在");
    assert_eq!(Problem::BadRequest.detail(), "请求格式错误");
    assert_eq!(Problem::ServerError.detail(), "INTERNAL_SERVER_ERROR");
}
