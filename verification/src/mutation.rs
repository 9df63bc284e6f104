//! Mutations as a dialogue with the store. A mutation is a short run of
//! statements; which statement comes next, and what the mutation returns in
//! the end, is decided here from what the store answered, so that a backend
//! only has to carry statements out.

use crate::db_provider::ProviderError;
use crate::models::{Fields, Record};
use crate::payload::{
    json_text_members, new_song_of, patch_of, NewSong, NewSongView, PatchView, SongPatch,
};
use vstd::prelude::*;
use vstd::string::StringExecFns;

verus! {

/// One statement for the store.
pub enum Statement {
    /// Is there exactly one band of this name?
    FindBand { name: String },
    /// Which song has this id?
    FindSong { id: i64 },
    /// Write a new song, with both timestamps set to `now`, and say which id
    /// it got.
    InsertSong { song: NewSong, now: String },
    /// Write the fields that the patch holds into the song of this id, and
    /// set the time of its last update to `now`.
    UpdateSong { id: i64, patch: SongPatch, now: String },
    /// Remove the song of this id.
    DeleteSong { id: i64 },
}

/// A statement as mathematical values.
pub enum StatementView {
    FindBand { name: Seq<char> },
    FindSong { id: i64 },
    InsertSong { song: NewSongView, now: Seq<char> },
    UpdateSong { id: i64, patch: PatchView, now: Seq<char> },
    DeleteSong { id: i64 },
}

impl View for Statement {
    type V = StatementView;

    open spec fn view(&self) -> StatementView {
        match self {
            Statement::FindBand { name } => StatementView::FindBand { name: name@ },
            Statement::FindSong { id } => StatementView::FindSong { id: *id },
            Statement::InsertSong { song, now } => StatementView::InsertSong {
                song: song@,
                now: now@,
            },
            Statement::UpdateSong { id, patch, now } => StatementView::UpdateSong {
                id: *id,
                patch: patch@,
                now: now@,
            },
            Statement::DeleteSong { id } => StatementView::DeleteSong { id: *id },
        }
    }
}

/// What the store answered to a statement.
pub enum Reply {
    /// To `FindBand`: whether the band was found.
    Band(bool),
    /// To `FindSong`: the song's record, if there is one.
    Song(Option<Record>),
    /// To `InsertSong`: the id of the new song.
    Inserted(i64),
    /// To `UpdateSong` and `DeleteSong`: the statement was carried out.
    Done,
}

/// An answer of the store as mathematical values.
pub enum ReplyView {
    Band(bool),
    Song(Option<Fields>),
    Inserted(i64),
    Done,
}

impl View for Reply {
    type V = ReplyView;

    open spec fn view(&self) -> ReplyView {
        match self {
            Reply::Band(found) => ReplyView::Band(*found),
            Reply::Song(found) => ReplyView::Song(found.deep_view()),
            Reply::Inserted(id) => ReplyView::Inserted(*id),
            Reply::Done => ReplyView::Done,
        }
    }
}

/// How far a mutation has come: which answer it waits for.
pub enum Progress {
    /// A creation waits to hear whether the band exists.
    CheckingBand { song: NewSong, now: String },
    /// A creation waits for the id of the new song.
    Inserting,
    /// An update waits to hear whether the song exists.
    CheckingSong { id: i64, patch: SongPatch, now: String },
    /// An update waits for its write.
    Writing { id: i64 },
    /// A creation or an update waits for the song as the store now holds it.
    Fetching,
    /// A deletion waits to hear whether the song exists.
    Locating { id: i64 },
    /// A deletion waits for its removal.
    Deleting { id: i64 },
}

/// The progress of a mutation as mathematical values.
pub enum ProgressView {
    CheckingBand { song: NewSongView, now: Seq<char> },
    Inserting,
    CheckingSong { id: i64, patch: PatchView, now: Seq<char> },
    Writing { id: i64 },
    Fetching,
    Locating { id: i64 },
    Deleting { id: i64 },
}

impl View for Progress {
    type V = ProgressView;

    open spec fn view(&self) -> ProgressView {
        match self {
            Progress::CheckingBand { song, now } => ProgressView::CheckingBand {
                song: song@,
                now: now@,
            },
            Progress::Inserting => ProgressView::Inserting,
            Progress::CheckingSong { id, patch, now } => ProgressView::CheckingSong {
                id: *id,
                patch: patch@,
                now: now@,
            },
            Progress::Writing { id } => ProgressView::Writing { id: *id },
            Progress::Fetching => ProgressView::Fetching,
            Progress::Locating { id } => ProgressView::Locating { id: *id },
            Progress::Deleting { id } => ProgressView::Deleting { id: *id },
        }
    }
}

/// What a mutation returns.
pub enum Verdict {
    /// A creation or an update: the song's record, or absence.
    Found(Option<Record>),
    /// A deletion: the id of the song that was removed.
    Deleted(i64),
    /// The mutation failed.
    Failed(ProviderError),
}

/// The result of a mutation as mathematical values.
pub enum VerdictView {
    Found(Option<Fields>),
    Deleted(i64),
    Failed(ProviderError),
}

impl View for Verdict {
    type V = VerdictView;

    open spec fn view(&self) -> VerdictView {
        match self {
            Verdict::Found(found) => VerdictView::Found(found.deep_view()),
            Verdict::Deleted(id) => VerdictView::Deleted(*id),
            Verdict::Failed(e) => VerdictView::Failed(*e),
        }
    }
}

/// What a mutation does next: it has a statement carried out and waits for
/// the answer, or it is over.
pub enum Step {
    Ask(Statement, Progress),
    Finish(Verdict),
}

/// A step as mathematical values.
pub enum StepView {
    Ask(StatementView, ProgressView),
    Finish(VerdictView),
}

impl View for Step {
    type V = StepView;

    open spec fn view(&self) -> StepView {
        match self {
            Step::Ask(statement, progress) => StepView::Ask(statement@, progress@),
            Step::Finish(verdict) => StepView::Finish(verdict@),
        }
    }
}

/// The first step of a creation, from the text members of its payload. A
/// payload without title or band is answered with absence at once; for a
/// complete one the band is looked up.
pub open spec fn begun_creation(members: Map<Seq<char>, Seq<char>>, now: Seq<char>) -> StepView {
    match new_song_of(members) {
        Some(song) => StepView::Ask(
            StatementView::FindBand { name: song.band },
            ProgressView::CheckingBand { song, now },
        ),
        None => StepView::Finish(VerdictView::Found(None)),
    }
}

/// The first step of an update: the song is looked up.
pub open spec fn begun_update(
    id: i64,
    members: Map<Seq<char>, Seq<char>>,
    now: Seq<char>,
) -> StepView {
    StepView::Ask(
        StatementView::FindSong { id },
        ProgressView::CheckingSong { id, patch: patch_of(members), now },
    )
}

/// The first step of a deletion: the song is looked up.
pub open spec fn begun_deletion(id: i64) -> StepView {
    StepView::Ask(StatementView::FindSong { id }, ProgressView::Locating { id })
}

/// The step that follows an answer of the store.
///
/// - Creation: a band that is not found ends it with absence; a band that
///   is found has the song inserted, and the new song is then fetched by the
///   id that it got and returned.
/// - Update: a song that is not found ends it with absence; a song that is
///   found is written, then fetched again and returned.
/// - Deletion: a song that is not found ends it with a failure; a song that
///   is found is removed, and its id is returned.
/// - An answer that does not fit the statement ends the mutation with a
///   failure.
pub open spec fn resumed(progress: ProgressView, reply: ReplyView) -> StepView {
    match (progress, reply) {
        (ProgressView::CheckingBand { song, now }, ReplyView::Band(found)) => if found {
            StepView::Ask(StatementView::InsertSong { song, now }, ProgressView::Inserting)
        } else {
            StepView::Finish(VerdictView::Found(None))
        },
        (ProgressView::Inserting, ReplyView::Inserted(id)) => StepView::Ask(
            StatementView::FindSong { id },
            ProgressView::Fetching,
        ),
        (ProgressView::CheckingSong { id, patch, now }, ReplyView::Song(found)) => if found
            is Some {
            StepView::Ask(
                StatementView::UpdateSong { id, patch, now },
                ProgressView::Writing { id },
            )
        } else {
            StepView::Finish(VerdictView::Found(None))
        },
        (ProgressView::Writing { id }, ReplyView::Done) => StepView::Ask(
            StatementView::FindSong { id },
            ProgressView::Fetching,
        ),
        (ProgressView::Fetching, ReplyView::Song(found)) => StepView::Finish(
            VerdictView::Found(found),
        ),
        (ProgressView::Locating { id }, ReplyView::Song(found)) => if found is Some {
            StepView::Ask(StatementView::DeleteSong { id }, ProgressView::Deleting { id })
        } else {
            StepView::Finish(VerdictView::Failed(ProviderError::NotFound))
        },
        (ProgressView::Deleting { id }, ReplyView::Done) => StepView::Finish(
            VerdictView::Deleted(id),
        ),
        _ => StepView::Finish(VerdictView::Failed(ProviderError::Transport)),
    }
}

/// The step that follows a statement that failed: the mutation is over, and
/// it has failed with the error of the statement. A creation whose band
/// cannot be looked up therefore fails; it does not answer with absence.
pub open spec fn abandoned(progress: ProgressView, error: ProviderError) -> StepView {
    StepView::Finish(VerdictView::Failed(error))
}

/// The step that follows the outcome of a statement, be it an answer or a
/// failure.
pub open spec fn advanced(
    progress: ProgressView,
    outcome: Result<ReplyView, ProviderError>,
) -> StepView {
    match outcome {
        Ok(reply) => resumed(progress, reply),
        Err(error) => abandoned(progress, error),
    }
}

/// The outcome of a statement as mathematical values.
pub open spec fn outcome_view(outcome: Result<Reply, ProviderError>) -> Result<
    ReplyView,
    ProviderError,
> {
    match outcome {
        Ok(reply) => Ok(reply@),
        Err(error) => Err(error),
    }
}

/// The number of statements that a mutation may still ask for.
pub open spec fn statements_left(step: StepView) -> nat {
    match step {
        StepView::Finish(_) => 0,
        StepView::Ask(_, progress) => match progress {
            ProgressView::CheckingBand { .. } => 3,
            ProgressView::Inserting => 2,
            ProgressView::CheckingSong { .. } => 3,
            ProgressView::Writing { .. } => 2,
            ProgressView::Fetching => 1,
            ProgressView::Locating { .. } => 2,
            ProgressView::Deleting { .. } => 1,
        },
    }
}

/// Every outcome of a statement brings a mutation nearer to its end.
pub proof fn lemma_advanced_is_nearer(
    statement: StatementView,
    progress: ProgressView,
    outcome: Result<ReplyView, ProviderError>,
)
    ensures
        statements_left(advanced(progress, outcome)) < statements_left(
            StepView::Ask(statement, progress),
        ),
{
}

/// A mutation whose first statement fails returns that failure, whatever the
/// mutation is: a creation with a complete payload, an update, a deletion.
pub proof fn lemma_failed_first_statement(
    id: i64,
    members: Map<Seq<char>, Seq<char>>,
    now: Seq<char>,
    error: ProviderError,
)
    ensures
        begun_creation(members, now) matches StepView::Ask(_, progress) ==> advanced(
            progress,
            Err(error),
        ) == StepView::Finish(VerdictView::Failed(error)),
        begun_update(id, members, now) matches StepView::Ask(_, progress) && advanced(
            progress,
            Err(error),
        ) == StepView::Finish(VerdictView::Failed(error)),
        begun_deletion(id) matches StepView::Ask(_, progress) && advanced(progress, Err(error))
            == StepView::Finish(VerdictView::Failed(error)),
        Verdict::as_found(VerdictView::Failed(error)) == Err::<Option<Fields>, ProviderError>(
            error,
        ),
        Verdict::as_deleted(VerdictView::Failed(error)) == Err::<i64, ProviderError>(error),
{
}

/// Begins a creation.
pub fn begin_create(data: &serde_json::Value, now: &str) -> (step: Step)
    ensures
        step@ == begun_creation(json_text_members(*data), now@),
{
    match NewSong::from_json(data) {
        Some(song) => {
            let name = song.band.clone();
            Step::Ask(
                Statement::FindBand { name },
                Progress::CheckingBand { song, now: String::from_str(now) },
            )
        },
        None => Step::Finish(Verdict::Found(None)),
    }
}

/// Begins an update.
pub fn begin_update(id: i64, data: &serde_json::Value, now: &str) -> (step: Step)
    ensures
        step@ == begun_update(id, json_text_members(*data), now@),
{
    let patch = SongPatch::from_json(data);
    Step::Ask(
        Statement::FindSong { id },
        Progress::CheckingSong { id, patch, now: String::from_str(now) },
    )
}

/// Begins a deletion.
pub fn begin_delete(id: i64) -> (step: Step)
    ensures
        step@ == begun_deletion(id),
{
    Step::Ask(Statement::FindSong { id }, Progress::Locating { id })
}

/// Takes an answer of the store and says what comes next.
pub fn resume(progress: Progress, reply: Reply) -> (step: Step)
    ensures
        step@ == resumed(progress@, reply@),
{
    match (progress, reply) {
        (Progress::CheckingBand { song, now }, Reply::Band(found)) => if found {
            Step::Ask(Statement::InsertSong { song, now }, Progress::Inserting)
        } else {
            Step::Finish(Verdict::Found(None))
        },
        (Progress::Inserting, Reply::Inserted(id)) => Step::Ask(
            Statement::FindSong { id },
            Progress::Fetching,
        ),
        (Progress::CheckingSong { id, patch, now }, Reply::Song(found)) => if found.is_some() {
            Step::Ask(Statement::UpdateSong { id, patch, now }, Progress::Writing { id })
        } else {
            Step::Finish(Verdict::Found(None))
        },
        (Progress::Writing { id }, Reply::Done) => Step::Ask(
            Statement::FindSong { id },
            Progress::Fetching,
        ),
        (Progress::Fetching, Reply::Song(found)) => Step::Finish(Verdict::Found(found)),
        (Progress::Locating { id }, Reply::Song(found)) => if found.is_some() {
            Step::Ask(Statement::DeleteSong { id }, Progress::Deleting { id })
        } else {
            Step::Finish(Verdict::Failed(ProviderError::NotFound))
        },
        (Progress::Deleting { id }, Reply::Done) => Step::Finish(Verdict::Deleted(id)),
        _ => Step::Finish(Verdict::Failed(ProviderError::Transport)),
    }
}

/// Takes the failure of a statement and ends the mutation with it.
pub fn abandon(progress: Progress, error: ProviderError) -> (step: Step)
    ensures
        step@ == abandoned(progress@, error),
{
    Step::Finish(Verdict::Failed(error))
}

/// Takes the outcome of a statement, an answer or a failure, and says what
/// comes next.
pub fn advance(progress: Progress, outcome: Result<Reply, ProviderError>) -> (step: Step)
    ensures
        step@ == advanced(progress@, outcome_view(outcome)),
{
    match outcome {
        Ok(reply) => resume(progress, reply),
        Err(error) => abandon(progress, error),
    }
}

impl Verdict {
    /// The result of a creation or an update. A verdict of another kind does
    /// not belong to such a mutation and counts as a failure of the store.
    pub open spec fn as_found(v: VerdictView) -> Result<Option<Fields>, ProviderError> {
        match v {
            VerdictView::Found(found) => Ok(found),
            VerdictView::Deleted(_) => Err(ProviderError::Transport),
            VerdictView::Failed(e) => Err(e),
        }
    }

    /// The result of a deletion. A verdict of another kind does not belong
    /// to a deletion and counts as a failure of the store.
    pub open spec fn as_deleted(v: VerdictView) -> Result<i64, ProviderError> {
        match v {
            VerdictView::Deleted(id) => Ok(id),
            VerdictView::Found(_) => Err(ProviderError::Transport),
            VerdictView::Failed(e) => Err(e),
        }
    }

    /// The result of a creation or an update.
    pub fn into_lookup(self) -> (r: Result<Option<Record>, ProviderError>)
        ensures
            crate::db_provider::lookup_view(r) == Verdict::as_found(self@),
    {
        match self {
            Verdict::Found(found) => Ok(found),
            Verdict::Deleted(_) => Err(ProviderError::Transport),
            Verdict::Failed(e) => Err(e),
        }
    }

    /// The result of a deletion.
    pub fn into_deleted(self) -> (r: Result<i64, ProviderError>)
        ensures
            r == Verdict::as_deleted(self@),
    {
        match self {
            Verdict::Deleted(id) => Ok(id),
            Verdict::Found(_) => Err(ProviderError::Transport),
            Verdict::Failed(e) => Err(e),
        }
    }
}

} // verus!
