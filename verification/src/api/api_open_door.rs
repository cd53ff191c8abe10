//! Opening the door: the protocol of the request, one step per event. The
//! steps that read the database, the clock or the environment, or call Home
//! Assistant, are carried out by the caller, which reports each outcome back.
use vstd::prelude::*;
use crate::custom_error_mapper::APIError;
use crate::db_access::table_keys::KeyCheckResult;
use crate::db_access::table_system::{record_spec, Attempt, SystemState, LOCK_AFTER_ATTEMPTS};
use crate::time::valid_instant;

verus! {

/// The parameters of the request.
#[derive(Debug)]
pub struct KeyQueryParams {
    pub u_key: String,
}

/// Where an open-door request stands.
#[derive(PartialEq, Eq, Structural, Debug, Clone, Copy)]
pub enum DoorPhase {
    /// Nothing done yet (the request is already logged).
    Start,
    /// Waiting to learn whether the system is locked.
    AwaitingLock,
    /// Waiting for the verdict on the key.
    AwaitingKey,
    /// Waiting for Home Assistant to answer.
    AwaitingHomeAssistant,
    /// The request is answered.
    Finished,
}

/// What the caller reports back.
#[derive(Debug)]
pub enum DoorEvent {
    /// The request begins.
    Begin,
    /// Whether the system is locked now.
    LockRead(bool),
    /// The verdict on the key.
    KeyRead(KeyCheckResult),
    /// Home Assistant's HTTP status, or `None` when it could not be reached.
    HomeAssistantReplied(Option<u16>),
    /// A step failed on its own (database, missing setting); the request ends in this error.
    Aborted(APIError),
}

/// What the caller does next.
#[derive(Debug)]
pub enum DoorAction {
    /// Read whether the system is locked.
    CheckLock,
    /// Judge the key.
    CheckKey,
    /// Ask Home Assistant to open the door.
    CallHomeAssistant,
    /// Record the attempt, if any, then answer.
    Finish { record: Option<Attempt>, reply: Result<(), APIError> },
}

/// The events that may come in each phase.
pub open spec fn door_accepts(phase: DoorPhase, event: DoorEvent) -> bool {
    match phase {
        DoorPhase::Start => event is Begin,
        DoorPhase::AwaitingLock => event is LockRead || event is Aborted,
        DoorPhase::AwaitingKey => event is KeyRead || event is Aborted,
        DoorPhase::AwaitingHomeAssistant => event is HomeAssistantReplied || event is Aborted,
        DoorPhase::Finished => false,
    }
}

/// Home Assistant's status says the door was opened: a 2xx status.
pub open spec fn is_success_status(status: u16) -> bool {
    200 <= status && status < 300
}

/// The protocol: check the lock; if locked, refuse at once. Else judge the
/// key: a valid key calls Home Assistant, whose success records a success and
/// answers OK, and whose failure answers a Home Assistant error; an expired or
/// revoked key records a failure that does not count toward the lock, an
/// unknown key one that does, and each is refused with its own error. A step
/// that fails on its own ends the request with its error.
pub open spec fn door_transition(phase: DoorPhase, event: DoorEvent) -> (DoorPhase, DoorAction) {
    match event {
        DoorEvent::Begin => (DoorPhase::AwaitingLock, DoorAction::CheckLock),
        DoorEvent::LockRead(locked) => if locked {
            (DoorPhase::Finished, DoorAction::Finish { record: None, reply: Err(APIError::Locked) })
        } else {
            (DoorPhase::AwaitingKey, DoorAction::CheckKey)
        },
        DoorEvent::KeyRead(verdict) => match verdict {
            KeyCheckResult::Valid => (DoorPhase::AwaitingHomeAssistant, DoorAction::CallHomeAssistant),
            KeyCheckResult::Expired => (
                DoorPhase::Finished,
                DoorAction::Finish {
                    record: Some(Attempt::Failed { count_attempt: false }),
                    reply: Err(APIError::Expired),
                },
            ),
            KeyCheckResult::Revoked => (
                DoorPhase::Finished,
                DoorAction::Finish {
                    record: Some(Attempt::Failed { count_attempt: false }),
                    reply: Err(APIError::Revoked),
                },
            ),
            KeyCheckResult::Invalid => (
                DoorPhase::Finished,
                DoorAction::Finish {
                    record: Some(Attempt::Failed { count_attempt: true }),
                    reply: Err(APIError::NotFound),
                },
            ),
        },
        DoorEvent::HomeAssistantReplied(status) => match status {
            Some(s) => if is_success_status(s) {
                (DoorPhase::Finished, DoorAction::Finish { record: Some(Attempt::Succeeded), reply: Ok(()) })
            } else {
                (DoorPhase::Finished, DoorAction::Finish { record: None, reply: Err(APIError::HomeAssistantError) })
            },
            None => (DoorPhase::Finished, DoorAction::Finish { record: None, reply: Err(APIError::HomeAssistantError) }),
        },
        DoorEvent::Aborted(e) => (DoorPhase::Finished, DoorAction::Finish { record: None, reply: Err(e) }),
    }
}

/// One step of the open-door request: from the phase and the event reported,
/// the next phase and what to do.
pub fn open_door(phase: DoorPhase, event: DoorEvent) -> (r: (DoorPhase, DoorAction))
    requires
        door_accepts(phase, event),
    ensures
        r == door_transition(phase, event),
{
    match event {
        DoorEvent::Begin => (DoorPhase::AwaitingLock, DoorAction::CheckLock),
        DoorEvent::LockRead(locked) => if locked {
            (DoorPhase::Finished, DoorAction::Finish { record: None, reply: Err(APIError::Locked) })
        } else {
            (DoorPhase::AwaitingKey, DoorAction::CheckKey)
        },
        DoorEvent::KeyRead(verdict) => match verdict {
            KeyCheckResult::Valid => (DoorPhase::AwaitingHomeAssistant, DoorAction::CallHomeAssistant),
            KeyCheckResult::Expired => (
                DoorPhase::Finished,
                DoorAction::Finish {
                    record: Some(Attempt::Failed { count_attempt: false }),
                    reply: Err(APIError::Expired),
                },
            ),
            KeyCheckResult::Revoked => (
                DoorPhase::Finished,
                DoorAction::Finish {
                    record: Some(Attempt::Failed { count_attempt: false }),
                    reply: Err(APIError::Revoked),
                },
            ),
            KeyCheckResult::Invalid => (
                DoorPhase::Finished,
                DoorAction::Finish {
                    record: Some(Attempt::Failed { count_attempt: true }),
                    reply: Err(APIError::NotFound),
                },
            ),
        },
        DoorEvent::HomeAssistantReplied(status) => match status {
            Some(s) => if 200 <= s && s < 300 {
                (DoorPhase::Finished, DoorAction::Finish { record: Some(Attempt::Succeeded), reply: Ok(()) })
            } else {
                (DoorPhase::Finished, DoorAction::Finish { record: None, reply: Err(APIError::HomeAssistantError) })
            },
            None => (DoorPhase::Finished, DoorAction::Finish { record: None, reply: Err(APIError::HomeAssistantError) }),
        },
        DoorEvent::Aborted(e) => (DoorPhase::Finished, DoorAction::Finish { record: None, reply: Err(e) }),
    }
}

/// Home Assistant is only ever called right after a valid key was judged, and
/// a key is only judged once the system was found unlocked.
pub proof fn lemma_door_called_only_for_valid_key(phase: DoorPhase, event: DoorEvent)
    requires
        door_accepts(phase, event),
    ensures
        door_transition(phase, event).1 is CallHomeAssistant ==> phase == DoorPhase::AwaitingKey
            && event == DoorEvent::KeyRead(KeyCheckResult::Valid),
        door_transition(phase, event).1 is CheckKey ==> phase == DoorPhase::AwaitingLock
            && event == DoorEvent::LockRead(false),
{
}

/// A locked system answers `Locked` and records nothing.
pub proof fn lemma_locked_door_refuses()
    ensures
        door_transition(DoorPhase::AwaitingLock, DoorEvent::LockRead(true)) == (
            DoorPhase::Finished,
            DoorAction::Finish { record: None, reply: Err(APIError::Locked) },
        ),
{
}

/// The event says Home Assistant opened the door.
pub open spec fn reports_opening(event: DoorEvent) -> bool {
    match event {
        DoorEvent::HomeAssistantReplied(Some(s)) => is_success_status(s),
        _ => false,
    }
}

/// The action records a success or answers OK.
pub open spec fn grants(action: DoorAction) -> bool {
    match action {
        DoorAction::Finish { record, reply } => record == Some(Attempt::Succeeded) || reply is Ok,
        _ => false,
    }
}

/// A success is recorded, and the request answered OK, only when Home
/// Assistant answered with a 2xx status; and then both happen.
pub proof fn lemma_success_only_after_opening(phase: DoorPhase, event: DoorEvent)
    requires
        door_accepts(phase, event),
    ensures
        grants(door_transition(phase, event).1) <==> (phase == DoorPhase::AwaitingHomeAssistant
            && reports_opening(event)),
        reports_opening(event) ==> door_transition(phase, event).1 == (DoorAction::Finish {
            record: Some(Attempt::Succeeded),
            reply: Ok(()),
        }),
{
}

/// Every refused key records one failure, and the failure counts toward the
/// lock exactly when the key is unknown; expired and revoked keys do not count.
pub proof fn lemma_refused_key_records_failure(verdict: KeyCheckResult)
    requires
        verdict != KeyCheckResult::Valid,
    ensures
        door_transition(DoorPhase::AwaitingKey, DoorEvent::KeyRead(verdict)).0 == DoorPhase::Finished,
        door_transition(DoorPhase::AwaitingKey, DoorEvent::KeyRead(verdict)).1 matches DoorAction::Finish {
            record,
            reply,
        } && record == Some(Attempt::Failed { count_attempt: verdict == KeyCheckResult::Invalid })
            && reply is Err,
{
}

/// The attempt that a key verdict makes the request record.
pub open spec fn recorded_for(verdict: KeyCheckResult) -> Option<Attempt> {
    match door_transition(DoorPhase::AwaitingKey, DoorEvent::KeyRead(verdict)).1 {
        DoorAction::Finish { record, .. } => record,
        _ => None,
    }
}

/// Guessing keys locks the door: once `LOCK_AFTER_ATTEMPTS` counted failures
/// stand, an unknown key locks the system from the instant it is refused.
/// Expired or revoked keys alone never set a first lock: on a well-formed row
/// with no more than `LOCK_AFTER_ATTEMPTS` counted failures, the door stays open.
pub proof fn lemma_key_guessing_locks(s: SystemState, now: int, verdict: KeyCheckResult)
    requires
        s.well_formed(),
        s.n_errors < i64::MAX,
        s.n_attempts < i64::MAX,
        valid_instant(now),
        verdict != KeyCheckResult::Valid,
    ensures
        recorded_for(verdict) is Some,
        verdict == KeyCheckResult::Invalid && s.n_attempts >= LOCK_AFTER_ATTEMPTS ==> record_spec(
            s,
            recorded_for(verdict)->0,
            now,
        ).locked_at(now),
        verdict != KeyCheckResult::Invalid && s.n_attempts <= LOCK_AFTER_ATTEMPTS ==> !record_spec(
            s,
            recorded_for(verdict)->0,
            now,
        ).locked_at(now),
{
}

/// Home Assistant's answer counts as an opening exactly when its status lies in
/// 200..=299: then a success is recorded and the request answered OK. Any
/// other status, and no answer at all, ends the request in a Home Assistant
/// error with nothing recorded.
pub proof fn lemma_home_assistant_status(status: u16)
    ensures
        is_success_status(status) <==> (200 <= status && status <= 299),
        200 <= status && status <= 299 ==> door_transition(
            DoorPhase::AwaitingHomeAssistant,
            DoorEvent::HomeAssistantReplied(Some(status)),
        ) == (DoorPhase::Finished, DoorAction::Finish { record: Some(Attempt::Succeeded), reply: Ok(()) }),
        !(200 <= status && status <= 299) ==> door_transition(
            DoorPhase::AwaitingHomeAssistant,
            DoorEvent::HomeAssistantReplied(Some(status)),
        ) == (DoorPhase::Finished, DoorAction::Finish { record: None, reply: Err(APIError::HomeAssistantError) }),
        door_transition(DoorPhase::AwaitingHomeAssistant, DoorEvent::HomeAssistantReplied(None)) == (
            DoorPhase::Finished,
            DoorAction::Finish { record: None, reply: Err(APIError::HomeAssistantError) },
        ),
{
}

/// Each key verdict, once the system is found unlocked: a valid key calls Home
/// Assistant and records nothing yet; an expired key is refused as expired, a
/// revoked key as revoked, both recording an uncounted failure; an unknown key
/// is refused as not found and records a counted failure.
pub proof fn lemma_key_verdict_replies()
    ensures
        door_transition(DoorPhase::AwaitingLock, DoorEvent::LockRead(false)) == (DoorPhase::AwaitingKey, DoorAction::CheckKey),
        door_transition(DoorPhase::Start, DoorEvent::Begin) == (DoorPhase::AwaitingLock, DoorAction::CheckLock),
        door_transition(DoorPhase::AwaitingKey, DoorEvent::KeyRead(KeyCheckResult::Valid)) == (
            DoorPhase::AwaitingHomeAssistant,
            DoorAction::CallHomeAssistant,
        ),
        door_transition(DoorPhase::AwaitingKey, DoorEvent::KeyRead(KeyCheckResult::Expired)) == (
            DoorPhase::Finished,
            DoorAction::Finish { record: Some(Attempt::Failed { count_attempt: false }), reply: Err(APIError::Expired) },
        ),
        door_transition(DoorPhase::AwaitingKey, DoorEvent::KeyRead(KeyCheckResult::Revoked)) == (
            DoorPhase::Finished,
            DoorAction::Finish { record: Some(Attempt::Failed { count_attempt: false }), reply: Err(APIError::Revoked) },
        ),
        door_transition(DoorPhase::AwaitingKey, DoorEvent::KeyRead(KeyCheckResult::Invalid)) == (
            DoorPhase::Finished,
            DoorAction::Finish { record: Some(Attempt::Failed { count_attempt: true }), reply: Err(APIError::NotFound) },
        ),
{
}

/// A step that fails on its own ends the request in that very error, with
/// nothing recorded, whatever the phase.
pub proof fn lemma_abort_ends_in_its_error(phase: DoorPhase, e: APIError)
    ensures
        door_transition(phase, DoorEvent::Aborted(e)) == (
            DoorPhase::Finished,
            DoorAction::Finish { record: None, reply: Err(e) },
        ),
{
}

/// Every step either finishes the request or moves it forward: the phases
/// only advance, so a request takes at most four steps.
pub proof fn lemma_door_progress(phase: DoorPhase, event: DoorEvent)
    requires
        door_accepts(phase, event),
    ensures
        phase_rank(door_transition(phase, event).0) > phase_rank(phase),
        door_transition(phase, event).0 == DoorPhase::Finished <==> door_transition(phase, event).1 is Finish,
{
}

/// The order of the phases.
pub open spec fn phase_rank(phase: DoorPhase) -> int {
    match phase {
        DoorPhase::Start => 0,
        DoorPhase::AwaitingLock => 1,
        DoorPhase::AwaitingKey => 2,
        DoorPhase::AwaitingHomeAssistant => 3,
        DoorPhase::Finished => 4,
    }
}

} // verus!
