use std::time::Duration;

use lumen_frame::update::{
    check_if_due, check_now_and_record, UpdateAction, UpdateAvailability, UpdateCheckError,
    UpdateCheckState, UpdateEvent, DEFAULT_CHECK_INTERVAL,
};

#[test]
fn automatic_check_interval_is_seven_days() {
    assert_eq!(Duration::from_secs(DEFAULT_CHECK_INTERVAL), Duration::from_secs(604_800));
}

#[test]
fn scheduled_check_that_is_due_queries_then_records() {
    let (state, action) = check_if_due(UpdateCheckState::Idle, UpdateEvent::Start);
    assert_eq!(action, UpdateAction::OpenGuard);
    let (state, action) = check_if_due(state, UpdateEvent::Done);
    assert_eq!(action, UpdateAction::ReadStamp);
    let (state, action) = check_if_due(state, UpdateEvent::Due(true));
    assert_eq!(action, UpdateAction::QueryReleases);
    let (state, action) = check_if_due(state, UpdateEvent::Queried(Some("1.2.0".to_string())));
    assert_eq!(action, UpdateAction::RecordCheck);
    let (state, action) = check_if_due(state, UpdateEvent::Done);
    assert_eq!(state, UpdateCheckState::Finished);
    assert_eq!(
        action,
        UpdateAction::Finish(Ok(Some(UpdateAvailability::Available { version: "1.2.0".to_string() })))
    );
}

#[test]
fn scheduled_check_that_is_not_due_stops() {
    let (state, _) = check_if_due(UpdateCheckState::Idle, UpdateEvent::Start);
    let (state, _) = check_if_due(state, UpdateEvent::Done);
    let (state, action) = check_if_due(state, UpdateEvent::Due(false));
    assert_eq!(state, UpdateCheckState::Finished);
    assert_eq!(action, UpdateAction::Finish(Ok(None)));
}

#[test]
fn scheduled_check_failures_name_their_step() {
    let (_, action) = check_if_due(UpdateCheckState::OpeningGuard, UpdateEvent::Failed);
    assert_eq!(action, UpdateAction::Finish(Err(UpdateCheckError::CacheUnavailable)));
    let (_, action) = check_if_due(UpdateCheckState::ReadingStamp, UpdateEvent::Failed);
    assert_eq!(action, UpdateAction::Finish(Err(UpdateCheckError::StampUnreadable)));
    let (_, action) = check_if_due(UpdateCheckState::Querying, UpdateEvent::Failed);
    assert_eq!(action, UpdateAction::Finish(Err(UpdateCheckError::ReleasesUnreadable)));
    let (_, action) = check_if_due(
        UpdateCheckState::Recording(UpdateAvailability::UpToDate),
        UpdateEvent::Failed,
    );
    assert_eq!(action, UpdateAction::Finish(Err(UpdateCheckError::StampUnwritable)));
}

#[test]
fn check_on_demand_queries_at_once() {
    let (state, action) = check_now_and_record(UpdateCheckState::Idle, UpdateEvent::Start);
    assert_eq!(action, UpdateAction::QueryReleases);
    let (state, action) = check_now_and_record(state, UpdateEvent::Queried(None));
    assert_eq!(action, UpdateAction::OpenGuardAndRecord);
    let (_, action) = check_now_and_record(state, UpdateEvent::Done);
    assert_eq!(action, UpdateAction::Finish(Ok(Some(UpdateAvailability::UpToDate))));
}
