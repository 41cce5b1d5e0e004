//! The course of loading the configuration file at startup, realm after
//! realm. Each realm of the file is planned (see `config::plan_realm_now`),
//! written, and then everything it holds is written. A realm that is refused,
//! or whose write fails, stops the load with that error; what becomes of the
//! resources inside a realm (written, refused, or failed) never stops it. The
//! caller performs each step the decisions below ask for and reports what
//! came of it.
use crate::model::ApiError;
use vstd::prelude::*;

verus! {

/// The step the load has reached.
#[derive(Debug)]
pub enum LoadStage {
    /// Waiting for the next realm of the file to be planned.
    AwaitingRealm,
    /// Waiting for the planned realm to be written.
    AwaitingRealmWrite,
    /// Writing what the realm holds.
    WritingContents,
    /// Every realm of the file was dealt with.
    Finished,
    /// Stopped on a realm's refusal or a failed realm write.
    Stopped,
}

/// What came of the work the load asked for.
#[derive(Debug)]
pub enum LoadEvent {
    /// The next realm of the file was planned, or it is refused with this
    /// error.
    RealmPlanned(Result<(), ApiError>),
    /// The file holds no more realms.
    NoMoreRealms,
    /// The realm was written, or its write failed with this error.
    RealmWritten(Result<(), ApiError>),
    /// A resource of the realm was written, or it was refused or its write
    /// failed with this error.
    ResourceWritten(Result<(), ApiError>),
    /// Every resource of the realm was dealt with.
    ContentsDone,
}

/// What the load asks for next.
#[derive(Debug)]
pub enum LoadAction {
    PlanNextRealm,
    WriteRealm,
    WriteContents,
    /// Go on with the realm's resources.
    KeepWriting,
    Finish,
    Stop(ApiError),
}

/// `event` reports the work that the load at `stage` waits for.
pub open spec fn load_event_expected(stage: LoadStage, event: LoadEvent) -> bool {
    match (stage, event) {
        (LoadStage::AwaitingRealm, LoadEvent::RealmPlanned(_)) => true,
        (LoadStage::AwaitingRealm, LoadEvent::NoMoreRealms) => true,
        (LoadStage::AwaitingRealmWrite, LoadEvent::RealmWritten(_)) => true,
        (LoadStage::WritingContents, LoadEvent::ResourceWritten(_)) => true,
        (LoadStage::WritingContents, LoadEvent::ContentsDone) => true,
        _ => false,
    }
}

/// The step the load at `stage` reaches on `event`; an event that the stage
/// does not wait for changes nothing.
pub open spec fn next_load_stage(stage: LoadStage, event: LoadEvent) -> LoadStage {
    match (stage, event) {
        (LoadStage::AwaitingRealm, LoadEvent::RealmPlanned(Ok(_))) => LoadStage::AwaitingRealmWrite,
        (LoadStage::AwaitingRealm, LoadEvent::RealmPlanned(Err(_))) => LoadStage::Stopped,
        (LoadStage::AwaitingRealm, LoadEvent::NoMoreRealms) => LoadStage::Finished,
        (LoadStage::AwaitingRealmWrite, LoadEvent::RealmWritten(Ok(_))) => LoadStage::WritingContents,
        (LoadStage::AwaitingRealmWrite, LoadEvent::RealmWritten(Err(_))) => LoadStage::Stopped,
        (LoadStage::WritingContents, LoadEvent::ResourceWritten(_)) => LoadStage::WritingContents,
        (LoadStage::WritingContents, LoadEvent::ContentsDone) => LoadStage::AwaitingRealm,
        _ => stage,
    }
}

/// The work the load asks for on `event` (which its stage waits for).
pub open spec fn next_load_action(event: LoadEvent) -> LoadAction {
    match event {
        LoadEvent::RealmPlanned(Ok(_)) => LoadAction::WriteRealm,
        LoadEvent::RealmPlanned(Err(e)) => LoadAction::Stop(e),
        LoadEvent::NoMoreRealms => LoadAction::Finish,
        LoadEvent::RealmWritten(Ok(_)) => LoadAction::WriteContents,
        LoadEvent::RealmWritten(Err(e)) => LoadAction::Stop(e),
        LoadEvent::ResourceWritten(_) => LoadAction::KeepWriting,
        LoadEvent::ContentsDone => LoadAction::PlanNextRealm,
    }
}

/// Where the load starts and what it asks for first: the first realm.
pub fn begin_load() -> (r: (LoadStage, LoadAction))
    ensures
        r == (LoadStage::AwaitingRealm, LoadAction::PlanNextRealm),
{
    (LoadStage::AwaitingRealm, LoadAction::PlanNextRealm)
}

/// The step the load reaches on what came of the work it waited for, and
/// what it asks for next.
pub fn load_step(stage: LoadStage, event: LoadEvent) -> (r: (LoadStage, LoadAction))
    requires
        load_event_expected(stage, event),
    ensures
        r.0 == next_load_stage(stage, event),
        r.1 == next_load_action(event),
{
    match event {
        LoadEvent::RealmPlanned(Ok(())) => (LoadStage::AwaitingRealmWrite, LoadAction::WriteRealm),
        LoadEvent::RealmPlanned(Err(e)) => (LoadStage::Stopped, LoadAction::Stop(e)),
        LoadEvent::NoMoreRealms => (LoadStage::Finished, LoadAction::Finish),
        LoadEvent::RealmWritten(Ok(())) => (LoadStage::WritingContents, LoadAction::WriteContents),
        LoadEvent::RealmWritten(Err(e)) => (LoadStage::Stopped, LoadAction::Stop(e)),
        LoadEvent::ResourceWritten(_) => (LoadStage::WritingContents, LoadAction::KeepWriting),
        LoadEvent::ContentsDone => (LoadStage::AwaitingRealm, LoadAction::PlanNextRealm),
    }
}

/// The step the load reaches after the events `events`, in order.
pub open spec fn replay_load(events: Seq<LoadEvent>) -> LoadStage
    decreases events.len(),
{
    if events.len() == 0 {
        LoadStage::AwaitingRealm
    } else {
        next_load_stage(replay_load(events.drop_last()), events.last())
    }
}

/// `e` reports a realm's refusal or a failed realm write.
pub open spec fn realm_failure(e: LoadEvent) -> bool {
    ||| e matches LoadEvent::RealmPlanned(Err(_))
    ||| e matches LoadEvent::RealmWritten(Err(_))
}

/// The load stops only on a realm's refusal or a failed realm write: what
/// becomes of the resources inside a realm, refused or failed, never stops
/// it.
pub proof fn lemma_load_stops_only_on_realm_failure(events: Seq<LoadEvent>)
    ensures
        replay_load(events) is Stopped ==> exists|i: int|
            0 <= i < events.len() && #[trigger] realm_failure(events[i]),
    decreases events.len(),
{
    if events.len() > 0 {
        let pre = events.drop_last();
        let n = pre.len() as int;
        lemma_load_stops_only_on_realm_failure(pre);
        if replay_load(pre) is Stopped {
            let i = choose|i: int| 0 <= i < pre.len() && #[trigger] realm_failure(pre[i]);
            assert(pre[i] == events[i]);
            assert(realm_failure(events[i]));
        } else if replay_load(events) is Stopped {
            assert(events[n] == events.last());
            assert(realm_failure(events[n]));
        }
    }
}

/// While a realm's contents are written, the outcome of each resource,
/// whatever it is, leaves the load writing them.
pub proof fn lemma_resource_outcome_keeps_going(outcome: Result<(), ApiError>)
    ensures
        next_load_stage(LoadStage::WritingContents, LoadEvent::ResourceWritten(outcome))
            is WritingContents,
        next_load_action(LoadEvent::ResourceWritten(outcome)) is KeepWriting,
{
}

/// A stopped load stays stopped, whatever is reported after.
pub proof fn lemma_stop_is_final(events: Seq<LoadEvent>, later: Seq<LoadEvent>)
    requires
        replay_load(events) is Stopped,
    ensures
        replay_load(events + later) is Stopped,
    decreases later.len(),
{
    if later.len() == 0 {
        assert(events + later =~= events);
    } else {
        lemma_stop_is_final(events, later.drop_last());
        assert((events + later).drop_last() =~= events + later.drop_last());
    }
}

} // verus!
