//! Self-update from GitHub Releases: when to ask, and what the answers mean.
//!
//! The network requests, the check stamp on disk and replacing the executable are the
//! caller's; the caller performs each [`UpdateAction`] and reports how it went as an
//! [`UpdateEvent`], and [`check_if_due`] or [`check_now_and_record`] decide the next
//! step.

use vstd::prelude::*;

verus! {

/// How long automatic checks wait after the last successful one, in seconds.
pub const DEFAULT_CHECK_INTERVAL: u64 = 7 * 24 * 60 * 60;

/// Whether a newer release exists.
#[derive(Debug, Clone, PartialEq, Eq)]
pub enum UpdateAvailability {
    UpToDate,
    Available { version: String },
}

/// Which step of a check failed.
#[derive(Debug, Clone, Copy, PartialEq, Eq)]
pub enum UpdateCheckError {
    /// The cache directory that holds the check stamp could not be found or created.
    CacheUnavailable,
    /// The time of the last check could not be read.
    StampUnreadable,
    /// GitHub Releases could not be read.
    ReleasesUnreadable,
    /// The time of this check could not be recorded.
    StampUnwritable,
}

/// Where a check stands: the action it waits on.
#[derive(Debug, PartialEq, Eq)]
pub enum UpdateCheckState {
    /// Nothing has happened yet.
    Idle,
    /// Waiting for the check stamp to be opened.
    OpeningGuard,
    /// Waiting for the check stamp to be read.
    ReadingStamp,
    /// Waiting for GitHub Releases.
    Querying,
    /// Waiting for the check to be recorded; holds what the query found.
    Recording(UpdateAvailability),
    /// The check is over.
    Finished,
}

/// What the caller should do next.
#[derive(Debug, PartialEq, Eq)]
pub enum UpdateAction {
    /// Open the check stamp in the application's cache directory.
    OpenGuard,
    /// Read whether the last successful check is more than the interval ago.
    ReadStamp,
    /// Ask GitHub Releases for a newer release.
    QueryReleases,
    /// Record the time of this check in the stamp opened before.
    RecordCheck,
    /// Open the check stamp and record the time of this check in it.
    OpenGuardAndRecord,
    /// The check is over, with this answer.
    Finish(Result<Option<UpdateAvailability>, UpdateCheckError>),
}

/// How the last action went.
#[derive(Debug, PartialEq, Eq)]
pub enum UpdateEvent {
    /// Start a check.
    Start,
    /// The action succeeded.
    Done,
    /// The stamp was read: whether a check is due.
    Due(bool),
    /// GitHub Releases answered: the version of a newer release, if any.
    Queried(Option<String>),
    /// The action failed.
    Failed,
}

/// What an answer from GitHub Releases means.
pub open spec fn availability(newer: Option<String>) -> UpdateAvailability {
    match newer {
        Some(version) => UpdateAvailability::Available { version },
        None => UpdateAvailability::UpToDate,
    }
}

/// The event is one that the state waits for.
pub open spec fn expects(state: UpdateCheckState, event: UpdateEvent) -> bool {
    match (state, event) {
        (UpdateCheckState::Idle, UpdateEvent::Start) => true,
        (UpdateCheckState::OpeningGuard, UpdateEvent::Done) => true,
        (UpdateCheckState::ReadingStamp, UpdateEvent::Due(_)) => true,
        (UpdateCheckState::Querying, UpdateEvent::Queried(_)) => true,
        (UpdateCheckState::Recording(_), UpdateEvent::Done) => true,
        (UpdateCheckState::OpeningGuard, UpdateEvent::Failed) => true,
        (UpdateCheckState::ReadingStamp, UpdateEvent::Failed) => true,
        (UpdateCheckState::Querying, UpdateEvent::Failed) => true,
        (UpdateCheckState::Recording(_), UpdateEvent::Failed) => true,
        _ => false,
    }
}

/// One step of the scheduled check: open the stamp, ask GitHub only when the interval
/// has passed since the last successful check, and record the check only once the
/// answer is in.
pub open spec fn spec_check_if_due(state: UpdateCheckState, event: UpdateEvent) -> (
    UpdateCheckState,
    UpdateAction,
) {
    match (state, event) {
        (UpdateCheckState::Idle, UpdateEvent::Start) => (
            UpdateCheckState::OpeningGuard,
            UpdateAction::OpenGuard,
        ),
        (UpdateCheckState::OpeningGuard, UpdateEvent::Done) => (
            UpdateCheckState::ReadingStamp,
            UpdateAction::ReadStamp,
        ),
        (UpdateCheckState::ReadingStamp, UpdateEvent::Due(true)) => (
            UpdateCheckState::Querying,
            UpdateAction::QueryReleases,
        ),
        (UpdateCheckState::ReadingStamp, UpdateEvent::Due(false)) => (
            UpdateCheckState::Finished,
            UpdateAction::Finish(Ok(None)),
        ),
        (UpdateCheckState::Querying, UpdateEvent::Queried(newer)) => (
            UpdateCheckState::Recording(availability(newer)),
            UpdateAction::RecordCheck,
        ),
        (UpdateCheckState::Recording(found), UpdateEvent::Done) => (
            UpdateCheckState::Finished,
            UpdateAction::Finish(Ok(Some(found))),
        ),
        (UpdateCheckState::OpeningGuard, _) => (
            UpdateCheckState::Finished,
            UpdateAction::Finish(Err(UpdateCheckError::CacheUnavailable)),
        ),
        (UpdateCheckState::ReadingStamp, _) => (
            UpdateCheckState::Finished,
            UpdateAction::Finish(Err(UpdateCheckError::StampUnreadable)),
        ),
        (UpdateCheckState::Querying, _) => (
            UpdateCheckState::Finished,
            UpdateAction::Finish(Err(UpdateCheckError::ReleasesUnreadable)),
        ),
        (_, _) => (
            UpdateCheckState::Finished,
            UpdateAction::Finish(Err(UpdateCheckError::StampUnwritable)),
        ),
    }
}

/// Decides the next step of the scheduled check, given how the last action went.
pub fn check_if_due(state: UpdateCheckState, event: UpdateEvent) -> (r: (
    UpdateCheckState,
    UpdateAction,
))
    requires
        expects(state, event),
    ensures
        r == spec_check_if_due(state, event),
{
    match (state, event) {
        (UpdateCheckState::Idle, UpdateEvent::Start) => (
            UpdateCheckState::OpeningGuard,
            UpdateAction::OpenGuard,
        ),
        (UpdateCheckState::OpeningGuard, UpdateEvent::Done) => (
            UpdateCheckState::ReadingStamp,
            UpdateAction::ReadStamp,
        ),
        (UpdateCheckState::ReadingStamp, UpdateEvent::Due(true)) => (
            UpdateCheckState::Querying,
            UpdateAction::QueryReleases,
        ),
        (UpdateCheckState::ReadingStamp, UpdateEvent::Due(false)) => (
            UpdateCheckState::Finished,
            UpdateAction::Finish(Ok(None)),
        ),
        (UpdateCheckState::Querying, UpdateEvent::Queried(newer)) => (
            UpdateCheckState::Recording(availability_of(newer)),
            UpdateAction::RecordCheck,
        ),
        (UpdateCheckState::Recording(found), UpdateEvent::Done) => (
            UpdateCheckState::Finished,
            UpdateAction::Finish(Ok(Some(found))),
        ),
        (UpdateCheckState::OpeningGuard, _) => (
            UpdateCheckState::Finished,
            UpdateAction::Finish(Err(UpdateCheckError::CacheUnavailable)),
        ),
        (UpdateCheckState::ReadingStamp, _) => (
            UpdateCheckState::Finished,
            UpdateAction::Finish(Err(UpdateCheckError::StampUnreadable)),
        ),
        (UpdateCheckState::Querying, _) => (
            UpdateCheckState::Finished,
            UpdateAction::Finish(Err(UpdateCheckError::ReleasesUnreadable)),
        ),
        (_, _) => (
            UpdateCheckState::Finished,
            UpdateAction::Finish(Err(UpdateCheckError::StampUnwritable)),
        ),
    }
}

/// What an answer from GitHub Releases means.
pub fn availability_of(newer: Option<String>) -> (a: UpdateAvailability)
    ensures
        a == availability(newer),
{
    match newer {
        Some(version) => UpdateAvailability::Available { version },
        None => UpdateAvailability::UpToDate,
    }
}

/// The event is one that the state waits for in a check on demand.
pub open spec fn expects_on_demand(state: UpdateCheckState, event: UpdateEvent) -> bool {
    match (state, event) {
        (UpdateCheckState::Idle, UpdateEvent::Start) => true,
        (UpdateCheckState::Querying, UpdateEvent::Queried(_)) => true,
        (UpdateCheckState::Recording(_), UpdateEvent::Done) => true,
        (UpdateCheckState::Querying, UpdateEvent::Failed) => true,
        (UpdateCheckState::Recording(_), UpdateEvent::Failed) => true,
        _ => false,
    }
}

/// One step of a check on demand: ask GitHub at once, then record the check in the
/// stamp that scheduled checks share.
pub open spec fn spec_check_now_and_record(state: UpdateCheckState, event: UpdateEvent) -> (
    UpdateCheckState,
    UpdateAction,
) {
    match (state, event) {
        (UpdateCheckState::Idle, UpdateEvent::Start) => (
            UpdateCheckState::Querying,
            UpdateAction::QueryReleases,
        ),
        (UpdateCheckState::Querying, UpdateEvent::Queried(newer)) => (
            UpdateCheckState::Recording(availability(newer)),
            UpdateAction::OpenGuardAndRecord,
        ),
        (UpdateCheckState::Recording(found), UpdateEvent::Done) => (
            UpdateCheckState::Finished,
            UpdateAction::Finish(Ok(Some(found))),
        ),
        (UpdateCheckState::Querying, _) => (
            UpdateCheckState::Finished,
            UpdateAction::Finish(Err(UpdateCheckError::ReleasesUnreadable)),
        ),
        (_, _) => (
            UpdateCheckState::Finished,
            UpdateAction::Finish(Err(UpdateCheckError::StampUnwritable)),
        ),
    }
}

/// Decides the next step of a check on demand, given how the last action went.
pub fn check_now_and_record(state: UpdateCheckState, event: UpdateEvent) -> (r: (
    UpdateCheckState,
    UpdateAction,
))
    requires
        expects_on_demand(state, event),
    ensures
        r == spec_check_now_and_record(state, event),
{
    match (state, event) {
        (UpdateCheckState::Idle, UpdateEvent::Start) => (
            UpdateCheckState::Querying,
            UpdateAction::QueryReleases,
        ),
        (UpdateCheckState::Querying, UpdateEvent::Queried(newer)) => (
            UpdateCheckState::Recording(availability_of(newer)),
            UpdateAction::OpenGuardAndRecord,
        ),
        (UpdateCheckState::Recording(found), UpdateEvent::Done) => (
            UpdateCheckState::Finished,
            UpdateAction::Finish(Ok(Some(found))),
        ),
        (UpdateCheckState::Querying, _) => (
            UpdateCheckState::Finished,
            UpdateAction::Finish(Err(UpdateCheckError::ReleasesUnreadable)),
        ),
        (_, _) => (
            UpdateCheckState::Finished,
            UpdateAction::Finish(Err(UpdateCheckError::StampUnwritable)),
        ),
    }
}

/// A scheduled check asks GitHub only right after reading that a check is due.
pub proof fn lemma_query_only_when_due(state: UpdateCheckState, event: UpdateEvent)
    requires
        expects(state, event),
        spec_check_if_due(state, event).1 == UpdateAction::QueryReleases,
    ensures
        state == UpdateCheckState::ReadingStamp,
        event == UpdateEvent::Due(true),
{
}

/// A check, scheduled or on demand, answers with a release status only after the check
/// has been recorded, and answers with what the query found.
pub proof fn lemma_answer_only_after_recording(
    state: UpdateCheckState,
    event: UpdateEvent,
    found: UpdateAvailability,
)
    ensures
        expects(state, event) && spec_check_if_due(state, event).1 == UpdateAction::Finish(
            Ok(Some(found)),
        ) ==> state == UpdateCheckState::Recording(found) && event == UpdateEvent::Done,
        expects_on_demand(state, event) && spec_check_now_and_record(state, event).1
            == UpdateAction::Finish(Ok(Some(found))) ==> state == UpdateCheckState::Recording(
            found,
        ) && event == UpdateEvent::Done,
{
}

/// A check is recorded only right after GitHub answered, and records what it answered.
pub proof fn lemma_record_only_after_query(state: UpdateCheckState, event: UpdateEvent)
    ensures
        expects(state, event) && spec_check_if_due(state, event).1 == UpdateAction::RecordCheck
            ==> state == UpdateCheckState::Querying && event is Queried,
        expects_on_demand(state, event) && spec_check_now_and_record(state, event).1
            == UpdateAction::OpenGuardAndRecord ==> state == UpdateCheckState::Querying
            && event is Queried,
{
}

/// A scheduled check that is not due ends at once, without asking GitHub or recording.
pub proof fn lemma_not_due_finishes_without_answer()
    ensures
        spec_check_if_due(UpdateCheckState::ReadingStamp, UpdateEvent::Due(false)) == (
            UpdateCheckState::Finished,
            UpdateAction::Finish(Ok(None)),
        ),
{
}

/// What GitHub answered is what the check answers: once the query reports `newer` and
/// the check is recorded, a check on demand and a scheduled check both finish with a
/// newer release's version when there is one, and with "up to date" when there is none.
pub proof fn lemma_answer_is_what_github_reported(newer: Option<String>)
    ensures
        ({
            let expected = match newer {
                Some(v) => UpdateAvailability::Available { version: v },
                None => UpdateAvailability::UpToDate,
            };
            let (asked, ask) = spec_check_now_and_record(UpdateCheckState::Idle, UpdateEvent::Start);
            let (queried, record) = spec_check_now_and_record(asked, UpdateEvent::Queried(newer));
            let (scheduled, record_due) = spec_check_if_due(
                UpdateCheckState::Querying,
                UpdateEvent::Queried(newer),
            );
            &&& ask == UpdateAction::QueryReleases
            &&& record == UpdateAction::OpenGuardAndRecord
            &&& spec_check_now_and_record(queried, UpdateEvent::Done).1 == UpdateAction::Finish(
                Ok(Some(expected)),
            )
            &&& record_due == UpdateAction::RecordCheck
            &&& spec_check_if_due(scheduled, UpdateEvent::Done).1 == UpdateAction::Finish(
                Ok(Some(expected)),
            )
        }),
{
}

} // verus!
