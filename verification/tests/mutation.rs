use serde_json::Value;
use song_catalog::db_provider::ProviderError;
use song_catalog::models::Record;
use song_catalog::mutation::{
    abandon, advance, begin_create, begin_delete, begin_update, resume, Progress, Reply,
    Statement, Step, Verdict,
};
use song_catalog::payload::{NewSong, SongPatch};

fn payload(members: &[(&str, &str)]) -> Value {
    let mut map = serde_json::Map::new();
    for (key, value) in members {
        map.insert(key.to_string(), Value::String(value.to_string()));
    }
    Value::Object(map)
}

fn song() -> NewSong {
    NewSong {
        title: "A".to_string(),
        author: None,
        lyrics: None,
        band: "Queen".to_string(),
    }
}

fn record(id: &str) -> Record {
    let mut r = Record::new();
    r.insert("id", id.to_string());
    r
}

#[test]
fn a_creation_begins_with_the_band() {
    let step = begin_create(&payload(&[("title", "A"), ("band", "Queen"), ("lyrics", "la")]), "t1");
    match step {
        Step::Ask(Statement::FindBand { name }, Progress::CheckingBand { song, now }) => {
            assert_eq!(name, "Queen");
            assert_eq!(song.title, "A");
            assert_eq!(song.author, None);
            assert_eq!(song.lyrics.as_deref(), Some("la"));
            assert_eq!(song.band, "Queen");
            assert_eq!(now, "t1");
        }
        _ => panic!("a band lookup was expected"),
    }
}

#[test]
fn a_creation_without_title_or_band_is_over_at_once() {
    assert!(matches!(
        begin_create(&payload(&[("title", "A")]), "t1"),
        Step::Finish(Verdict::Found(None))
    ));
    assert!(matches!(
        begin_create(&payload(&[("band", "Queen")]), "t1"),
        Step::Finish(Verdict::Found(None))
    ));
    assert!(matches!(begin_create(&Value::Null, "t1"), Step::Finish(Verdict::Found(None))));
}

#[test]
fn a_creation_inserts_only_for_a_band_that_exists() {
    let waiting = Progress::CheckingBand { song: song(), now: "t1".to_string() };
    match resume(waiting, Reply::Band(true)) {
        Step::Ask(Statement::InsertSong { song, now }, Progress::Inserting) => {
            assert_eq!(song.title, "A");
            assert_eq!(song.band, "Queen");
            assert_eq!(now, "t1");
        }
        _ => panic!("an insertion was expected"),
    }
    let waiting = Progress::CheckingBand { song: song(), now: "t1".to_string() };
    assert!(matches!(resume(waiting, Reply::Band(false)), Step::Finish(Verdict::Found(None))));
}

#[test]
fn a_creation_fetches_the_song_that_it_inserted() {
    assert!(matches!(
        resume(Progress::Inserting, Reply::Inserted(17)),
        Step::Ask(Statement::FindSong { id: 17 }, Progress::Fetching)
    ));
    match resume(Progress::Fetching, Reply::Song(Some(record("17")))) {
        Step::Finish(Verdict::Found(Some(r))) => assert_eq!(r.get("id"), Some("17")),
        _ => panic!("the record was expected"),
    }
    assert!(matches!(
        resume(Progress::Fetching, Reply::Song(None)),
        Step::Finish(Verdict::Found(None))
    ));
}

#[test]
fn an_update_begins_with_the_song() {
    match begin_update(5, &payload(&[("title", "X")]), "t2") {
        Step::Ask(Statement::FindSong { id: 5 }, Progress::CheckingSong { id: 5, patch, now }) => {
            assert_eq!(patch.title.as_deref(), Some("X"));
            assert_eq!(patch.author, None);
            assert_eq!(patch.lyrics, None);
            assert_eq!(patch.band, None);
            assert_eq!(now, "t2");
        }
        _ => panic!("a song lookup was expected"),
    }
}

#[test]
fn an_update_writes_only_a_song_that_exists() {
    let patch = || SongPatch { title: Some("X".to_string()), author: None, lyrics: None, band: None };
    let waiting = Progress::CheckingSong { id: 5, patch: patch(), now: "t2".to_string() };
    match resume(waiting, Reply::Song(Some(record("5")))) {
        Step::Ask(Statement::UpdateSong { id: 5, patch, now }, Progress::Writing { id: 5 }) => {
            assert_eq!(patch.title.as_deref(), Some("X"));
            assert_eq!(now, "t2");
        }
        _ => panic!("a write was expected"),
    }
    let waiting = Progress::CheckingSong { id: 5, patch: patch(), now: "t2".to_string() };
    assert!(matches!(resume(waiting, Reply::Song(None)), Step::Finish(Verdict::Found(None))));
    assert!(matches!(
        resume(Progress::Writing { id: 5 }, Reply::Done),
        Step::Ask(Statement::FindSong { id: 5 }, Progress::Fetching)
    ));
}

#[test]
fn a_deletion_removes_only_a_song_that_exists() {
    assert!(matches!(
        begin_delete(9),
        Step::Ask(Statement::FindSong { id: 9 }, Progress::Locating { id: 9 })
    ));
    assert!(matches!(
        resume(Progress::Locating { id: 9 }, Reply::Song(Some(record("9")))),
        Step::Ask(Statement::DeleteSong { id: 9 }, Progress::Deleting { id: 9 })
    ));
    assert!(matches!(
        resume(Progress::Locating { id: 9 }, Reply::Song(None)),
        Step::Finish(Verdict::Failed(ProviderError::NotFound))
    ));
    assert!(matches!(
        resume(Progress::Deleting { id: 9 }, Reply::Done),
        Step::Finish(Verdict::Deleted(9))
    ));
}

#[test]
fn an_answer_that_does_not_fit_ends_the_mutation() {
    assert!(matches!(
        resume(Progress::Inserting, Reply::Done),
        Step::Finish(Verdict::Failed(ProviderError::Transport))
    ));
    assert!(matches!(
        resume(Progress::Fetching, Reply::Band(true)),
        Step::Finish(Verdict::Failed(ProviderError::Transport))
    ));
    assert!(matches!(
        resume(Progress::Deleting { id: 1 }, Reply::Inserted(1)),
        Step::Finish(Verdict::Failed(ProviderError::Transport))
    ));
    let waiting = Progress::CheckingBand { song: song(), now: "t".to_string() };
    assert!(matches!(
        resume(waiting, Reply::Song(None)),
        Step::Finish(Verdict::Failed(ProviderError::Transport))
    ));
}

#[test]
fn a_verdict_becomes_the_result_of_its_mutation() {
    assert!(matches!(Verdict::Found(None).into_lookup(), Ok(None)));
    assert!(matches!(Verdict::Found(Some(record("1"))).into_lookup(), Ok(Some(_))));
    assert_eq!(Verdict::Failed(ProviderError::Exhausted).into_lookup().err(), Some(ProviderError::Exhausted));
    assert_eq!(Verdict::Deleted(3).into_lookup().err(), Some(ProviderError::Transport));
    assert_eq!(Verdict::Deleted(3).into_deleted(), Ok(3));
    assert_eq!(Verdict::Failed(ProviderError::NotFound).into_deleted(), Err(ProviderError::NotFound));
    assert_eq!(Verdict::Found(None).into_deleted(), Err(ProviderError::Transport));
}

#[test]
fn a_failed_statement_ends_the_mutation_with_its_failure() {
    let waiting = Progress::CheckingBand { song: song(), now: "t".to_string() };
    assert!(matches!(
        abandon(waiting, ProviderError::Transport),
        Step::Finish(Verdict::Failed(ProviderError::Transport))
    ));
    assert!(matches!(
        abandon(Progress::Inserting, ProviderError::Exhausted),
        Step::Finish(Verdict::Failed(ProviderError::Exhausted))
    ));
    assert!(matches!(
        abandon(Progress::Locating { id: 3 }, ProviderError::Transport),
        Step::Finish(Verdict::Failed(ProviderError::Transport))
    ));
}

#[test]
fn a_creation_whose_band_cannot_be_looked_up_fails() {
    let step = begin_create(&payload(&[("title", "A"), ("band", "Queen")]), "t1");
    let verdict = match step {
        Step::Ask(Statement::FindBand { .. }, progress) => {
            match advance(progress, Err(ProviderError::Transport)) {
                Step::Finish(verdict) => verdict,
                Step::Ask(..) => panic!("the creation should be over"),
            }
        }
        _ => panic!("a band lookup was expected"),
    };
    assert_eq!(verdict.into_lookup().err(), Some(ProviderError::Transport));
}

#[test]
fn an_outcome_is_an_answer_or_a_failure() {
    assert!(matches!(
        advance(Progress::Inserting, Ok(Reply::Inserted(8))),
        Step::Ask(Statement::FindSong { id: 8 }, Progress::Fetching)
    ));
    assert!(matches!(
        advance(Progress::Writing { id: 2 }, Err(ProviderError::Transport)),
        Step::Finish(Verdict::Failed(ProviderError::Transport))
    ));
    assert!(matches!(
        advance(Progress::Deleting { id: 2 }, Ok(Reply::Done)),
        Step::Finish(Verdict::Deleted(2))
    ));
}
