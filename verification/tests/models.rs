use song_catalog::models::{
    band_list, band_record, copy_optional, first_song, render_optional, sole_band, song_list, song_record,
    str_eq, BandRow, Record, SongRow,
};

fn queen() -> BandRow {
    BandRow {
        id: 3,
        name: "Queen".to_string(),
        description: "desc".to_string(),
        created_at: "2024-01-01 10:00:00".to_string(),
    }
}

fn rhapsody() -> SongRow {
    SongRow {
        id: 41,
        title: "Bohemian Rhapsody".to_string(),
        author: Some("Freddie Mercury".to_string()),
        lyrics: None,
        band: "Queen".to_string(),
        created_at: "2024-01-02 08:00:00".to_string(),
        updated_at: "2024-01-03 09:30:00".to_string(),
    }
}

#[test]
fn band_record_has_the_four_columns_in_table_order() {
    let r = band_record(&queen());
    assert_eq!(r.len(), 4);
    let keys: Vec<&str> = (0..r.len()).map(|i| r.key_at(i)).collect();
    assert_eq!(keys, vec!["id", "name", "description", "created_at"]);
    assert_eq!(r.get("id"), Some("3"));
    assert_eq!(r.get("name"), Some("Queen"));
    assert_eq!(r.get("description"), Some("desc"));
    assert_eq!(r.get("created_at"), Some("2024-01-01 10:00:00"));
}

#[test]
fn song_record_has_the_seven_columns_in_table_order() {
    let r = song_record(&rhapsody());
    assert_eq!(r.len(), 7);
    let keys: Vec<&str> = (0..r.len()).map(|i| r.key_at(i)).collect();
    assert_eq!(
        keys,
        vec!["id", "title", "author", "lyrics", "band", "created_at", "updated_at"]
    );
    assert_eq!(r.get("id"), Some("41"));
    assert_eq!(r.get("title"), Some("Bohemian Rhapsody"));
    assert_eq!(r.get("author"), Some("Freddie Mercury"));
    assert_eq!(r.get("band"), Some("Queen"));
    assert_eq!(r.get("created_at"), Some("2024-01-02 08:00:00"));
    assert_eq!(r.get("updated_at"), Some("2024-01-03 09:30:00"));
}

#[test]
fn an_empty_optional_column_is_rendered_as_empty_text() {
    let r = song_record(&rhapsody());
    assert_eq!(r.get("lyrics"), Some(""));
    assert_eq!(r.value_at(3), "");
}

#[test]
fn ids_are_rendered_as_text() {
    let mut band = queen();
    band.id = -17;
    assert_eq!(band_record(&band).get("id"), Some("-17"));
    let mut song = rhapsody();
    song.id = 9_000_000_000;
    assert_eq!(song_record(&song).get("id"), Some("9000000000"));
}

#[test]
fn a_record_has_no_field_that_was_not_written() {
    let r = band_record(&queen());
    assert_eq!(r.get("title"), None);
    assert_eq!(r.get("Name"), None);
    assert_eq!(r.get(""), None);
}

#[test]
fn a_record_keeps_what_is_written() {
    let mut r = Record::new();
    assert_eq!(r.len(), 0);
    assert_eq!(r.get("a"), None);
    r.insert("a", "1".to_string());
    r.insert("b", "2".to_string());
    assert_eq!(r.len(), 2);
    assert_eq!(r.key_at(0), "a");
    assert_eq!(r.key_at(1), "b");
    assert_eq!(r.get("a"), Some("1"));
    assert_eq!(r.get("b"), Some("2"));
}

#[test]
fn writing_a_name_again_replaces_its_value() {
    let mut r = Record::new();
    r.insert("a", "1".to_string());
    r.insert("b", "2".to_string());
    r.insert("a", "3".to_string());
    assert_eq!(r.len(), 2);
    assert_eq!(r.key_at(0), "a");
    assert_eq!(r.value_at(0), "3");
    assert_eq!(r.key_at(1), "b");
    assert_eq!(r.value_at(1), "2");
    assert_eq!(r.get("a"), Some("3"));
    assert_eq!(r.get("b"), Some("2"));
    r.insert("b", "4".to_string());
    r.insert("c", "5".to_string());
    assert_eq!(r.len(), 3);
    assert_eq!(r.get("b"), Some("4"));
    assert_eq!(r.get("c"), Some("5"));
    assert_eq!(r.get("a"), Some("3"));
}

#[test]
fn no_name_occurs_twice_in_a_record() {
    for r in [band_record(&queen()), song_record(&rhapsody())] {
        for i in 0..r.len() {
            for j in 0..i {
                assert_ne!(r.key_at(i), r.key_at(j));
            }
        }
    }
}

#[test]
fn an_optional_text_is_copied() {
    assert_eq!(copy_optional(&Some("x".to_string())).as_deref(), Some("x"));
    assert_eq!(copy_optional(&None), None);
}

#[test]
fn a_cloned_record_has_the_same_fields() {
    let r = song_record(&rhapsody());
    let c = r.clone();
    assert_eq!(c.len(), r.len());
    for i in 0..r.len() {
        assert_eq!(c.key_at(i), r.key_at(i));
        assert_eq!(c.value_at(i), r.value_at(i));
    }
}

#[test]
fn texts_are_compared_by_character() {
    assert!(str_eq("", ""));
    assert!(str_eq("Queen", "Queen"));
    assert!(!str_eq("Queen", "queen"));
    assert!(!str_eq("Queen", "Queens"));
    assert!(!str_eq("Queen", ""));
    assert!(str_eq("歌曲", "歌曲"));
    assert!(!str_eq("歌曲", "歌手"));
}

#[test]
fn a_result_set_is_mapped_row_by_row() {
    let list = band_list(&vec![queen(), BandRow { id: 4, name: "Muse".to_string(), ..queen() }]);
    assert_eq!(list.len(), 2);
    assert_eq!(list[0].get("name"), Some("Queen"));
    assert_eq!(list[1].get("name"), Some("Muse"));
    assert_eq!(list[1].get("id"), Some("4"));
    assert!(band_list(&Vec::new()).is_empty());
    let list = song_list(&vec![rhapsody(), SongRow { id: 42, ..rhapsody() }]);
    assert_eq!(list.len(), 2);
    assert_eq!(list[0].get("id"), Some("41"));
    assert_eq!(list[1].get("id"), Some("42"));
    assert!(song_list(&Vec::new()).is_empty());
}

#[test]
fn only_a_single_band_row_is_a_band() {
    assert!(sole_band(&Vec::new()).is_none());
    let one = sole_band(&vec![queen()]).expect("one row");
    assert_eq!(one.get("name"), Some("Queen"));
    assert!(sole_band(&vec![queen(), queen()]).is_none());
}

#[test]
fn the_first_song_row_is_the_song() {
    assert!(first_song(&Vec::new()).is_none());
    let first = first_song(&vec![rhapsody(), SongRow { id: 42, ..rhapsody() }]).expect("rows");
    assert_eq!(first.get("id"), Some("41"));
}

#[test]
fn an_optional_column_is_rendered() {
    assert_eq!(render_optional(&Some("text".to_string())), "text");
    assert_eq!(render_optional(&None), "");
}
