//! The order in which a creation request is decided. First the record is
//! built from the request (where an empty name is refused and the clock is
//! read); then, each with the datastore, its parent (where it has one) is
//! looked up, then a resource of the same name, then the record is written,
//! and finally the request is answered. The caller performs each step that
//! the decisions below ask for, and reports what came of it; the verdicts
//! (which error a bad request, a missing parent or a taken name is answered
//! with) are those of the `*_from_request_now` and `ensure_*` functions of
//! `records`.
use crate::model::ApiError;
use vstd::prelude::*;

verus! {

/// The step a creation request has reached.
#[derive(Debug)]
pub enum CreationStage {
    /// Waiting for the record to be built from the request.
    AwaitingRecord,
    /// Waiting for the lookup of the parent.
    AwaitingParent,
    /// Waiting for the lookup of a resource of the same name.
    AwaitingExistence,
    /// Waiting for the write.
    AwaitingWrite,
    /// Written; the request is answered as created.
    Created,
    /// Refused; the request is answered with the refusal.
    Refused,
}

/// What came of the work a creation asked for.
#[derive(Debug)]
pub enum CreationEvent {
    /// The record was built, or the request is refused with this error.
    RecordBuilt(Result<(), ApiError>),
    /// The parent was found, or its lookup is answered with this error.
    ParentLookedUp(Result<(), ApiError>),
    /// The name is free, or its lookup is answered with this error.
    ExistenceLookedUp(Result<(), ApiError>),
    /// The resource was written, or the write failed with this error.
    Written(Result<(), ApiError>),
}

/// What a creation asks for next.
#[derive(Debug)]
pub enum CreationAction {
    BuildRecord,
    LookUpParent,
    LookUpExisting,
    Write,
    AnswerCreated,
    Refuse(ApiError),
}

/// The step a creation reaches once its record is built: the parent's
/// lookup, for a resource that has a parent.
pub open spec fn first_stage(has_parent: bool) -> CreationStage {
    if has_parent {
        CreationStage::AwaitingParent
    } else {
        CreationStage::AwaitingExistence
    }
}

/// The work a creation asks for once its record is built.
pub open spec fn first_action(has_parent: bool) -> CreationAction {
    if has_parent {
        CreationAction::LookUpParent
    } else {
        CreationAction::LookUpExisting
    }
}

/// `event` reports the work that a creation at `stage` waits for.
pub open spec fn event_expected(stage: CreationStage, event: CreationEvent) -> bool {
    match (stage, event) {
        (CreationStage::AwaitingRecord, CreationEvent::RecordBuilt(_)) => true,
        (CreationStage::AwaitingParent, CreationEvent::ParentLookedUp(_)) => true,
        (CreationStage::AwaitingExistence, CreationEvent::ExistenceLookedUp(_)) => true,
        (CreationStage::AwaitingWrite, CreationEvent::Written(_)) => true,
        _ => false,
    }
}

/// The step a creation at `stage` reaches on `event`: the next one when the
/// work succeeded, `Refused` when it failed; an event that the stage does
/// not wait for changes nothing.
pub open spec fn next_stage(has_parent: bool, stage: CreationStage, event: CreationEvent) -> CreationStage {
    match (stage, event) {
        (CreationStage::AwaitingRecord, CreationEvent::RecordBuilt(Ok(_))) => first_stage(has_parent),
        (CreationStage::AwaitingRecord, CreationEvent::RecordBuilt(Err(_))) => CreationStage::Refused,
        (CreationStage::AwaitingParent, CreationEvent::ParentLookedUp(Ok(_))) => CreationStage::AwaitingExistence,
        (CreationStage::AwaitingExistence, CreationEvent::ExistenceLookedUp(Ok(_))) => CreationStage::AwaitingWrite,
        (CreationStage::AwaitingWrite, CreationEvent::Written(Ok(_))) => CreationStage::Created,
        (CreationStage::AwaitingParent, CreationEvent::ParentLookedUp(Err(_))) => CreationStage::Refused,
        (CreationStage::AwaitingExistence, CreationEvent::ExistenceLookedUp(Err(_))) => CreationStage::Refused,
        (CreationStage::AwaitingWrite, CreationEvent::Written(Err(_))) => CreationStage::Refused,
        _ => stage,
    }
}

/// The work a creation at `stage` asks for on `event` (which the stage waits
/// for): the next lookup, the write, the answer, or the refusal with the
/// error that the failed work is answered with.
pub open spec fn next_action(has_parent: bool, event: CreationEvent) -> CreationAction {
    match event {
        CreationEvent::RecordBuilt(Ok(_)) => first_action(has_parent),
        CreationEvent::RecordBuilt(Err(e)) => CreationAction::Refuse(e),
        CreationEvent::ParentLookedUp(Ok(_)) => CreationAction::LookUpExisting,
        CreationEvent::ExistenceLookedUp(Ok(_)) => CreationAction::Write,
        CreationEvent::Written(Ok(_)) => CreationAction::AnswerCreated,
        CreationEvent::ParentLookedUp(Err(e)) => CreationAction::Refuse(e),
        CreationEvent::ExistenceLookedUp(Err(e)) => CreationAction::Refuse(e),
        CreationEvent::Written(Err(e)) => CreationAction::Refuse(e),
    }
}

/// Where a creation starts and what it asks for first: the record.
pub fn begin_creation() -> (r: (CreationStage, CreationAction))
    ensures
        r == (CreationStage::AwaitingRecord, CreationAction::BuildRecord),
{
    (CreationStage::AwaitingRecord, CreationAction::BuildRecord)
}

/// The step a creation reaches on what came of the work it waited for, and
/// what it asks for next.
pub fn creation_step(has_parent: bool, stage: CreationStage, event: CreationEvent) -> (r: (
    CreationStage,
    CreationAction,
))
    requires
        event_expected(stage, event),
    ensures
        r.0 == next_stage(has_parent, stage, event),
        r.1 == next_action(has_parent, event),
{
    match event {
        CreationEvent::RecordBuilt(Ok(())) => if has_parent {
            (CreationStage::AwaitingParent, CreationAction::LookUpParent)
        } else {
            (CreationStage::AwaitingExistence, CreationAction::LookUpExisting)
        },
        CreationEvent::RecordBuilt(Err(e)) => (CreationStage::Refused, CreationAction::Refuse(e)),
        CreationEvent::ParentLookedUp(Ok(())) => (CreationStage::AwaitingExistence, CreationAction::LookUpExisting),
        CreationEvent::ExistenceLookedUp(Ok(())) => (CreationStage::AwaitingWrite, CreationAction::Write),
        CreationEvent::Written(Ok(())) => (CreationStage::Created, CreationAction::AnswerCreated),
        CreationEvent::ParentLookedUp(Err(e)) => (CreationStage::Refused, CreationAction::Refuse(e)),
        CreationEvent::ExistenceLookedUp(Err(e)) => (CreationStage::Refused, CreationAction::Refuse(e)),
        CreationEvent::Written(Err(e)) => (CreationStage::Refused, CreationAction::Refuse(e)),
    }
}

/// The step a creation reaches after the events `events`, in order.
pub open spec fn replay(has_parent: bool, events: Seq<CreationEvent>) -> CreationStage
    decreases events.len(),
{
    if events.len() == 0 {
        CreationStage::AwaitingRecord
    } else {
        next_stage(has_parent, replay(has_parent, events.drop_last()), events.last())
    }
}

/// `e` reports that the record was built.
pub open spec fn record_built(e: CreationEvent) -> bool {
    e matches CreationEvent::RecordBuilt(Ok(_))
}

/// `e` reports that the parent was found.
pub open spec fn parent_found(e: CreationEvent) -> bool {
    e matches CreationEvent::ParentLookedUp(Ok(_))
}

/// `e` reports that the name was found free.
pub open spec fn name_free(e: CreationEvent) -> bool {
    e matches CreationEvent::ExistenceLookedUp(Ok(_))
}

/// `e` reports that the resource was written.
pub open spec fn written(e: CreationEvent) -> bool {
    e matches CreationEvent::Written(Ok(_))
}

/// Among the first `n` events, the record was built.
pub open spec fn built_within(events: Seq<CreationEvent>, n: int) -> bool {
    exists|b: int| 0 <= b < n && #[trigger] record_built(events[b])
}

/// Among the first `n` events, the parent was found after the record was
/// built (or, for a resource without a parent, the record was built).
pub open spec fn parent_found_within(has_parent: bool, events: Seq<CreationEvent>, n: int) -> bool {
    if has_parent {
        exists|i: int| 0 <= i < n && #[trigger] parent_found(events[i]) && built_within(events, i)
    } else {
        built_within(events, n)
    }
}

/// Among the first `n` events, the name was found free after the parent was
/// found.
pub open spec fn name_free_within(has_parent: bool, events: Seq<CreationEvent>, n: int) -> bool {
    exists|j: int|
        0 <= j < n && #[trigger] name_free(events[j]) && parent_found_within(has_parent, events, j)
}

/// Among the first `n` events, the resource was written after its name was
/// found free.
pub open spec fn written_within(has_parent: bool, events: Seq<CreationEvent>, n: int) -> bool {
    exists|k: int| 0 <= k < n && #[trigger] written(events[k]) && name_free_within(has_parent, events, k)
}

proof fn lemma_within_prefix(has_parent: bool, events: Seq<CreationEvent>)
    requires
        events.len() > 0,
    ensures
        forall|n: int|
            0 <= n < events.len() ==> (built_within(events.drop_last(), n) ==> built_within(
                events,
                n,
            )),
        forall|n: int|
            0 <= n < events.len() ==> (parent_found_within(has_parent, events.drop_last(), n)
                ==> parent_found_within(has_parent, events, n)),
        forall|n: int|
            0 <= n < events.len() ==> (name_free_within(has_parent, events.drop_last(), n)
                ==> name_free_within(has_parent, events, n)),
        forall|n: int|
            0 <= n < events.len() ==> (written_within(has_parent, events.drop_last(), n)
                ==> written_within(has_parent, events, n)),
{
    let pre = events.drop_last();
    assert forall|n: int|
        0 <= n < events.len() && built_within(pre, n) implies built_within(events, n) by {
        let b = choose|b: int| 0 <= b < n && #[trigger] record_built(pre[b]);
        assert(pre[b] == events[b]);
    }
    assert forall|n: int|
        0 <= n < events.len() && parent_found_within(has_parent, pre, n) implies parent_found_within(
        has_parent,
        events,
        n,
    ) by {
        if has_parent {
            let i = choose|i: int| 0 <= i < n && #[trigger] parent_found(pre[i]) && built_within(pre, i);
            assert(pre[i] == events[i]);
        }
    }
    assert forall|n: int|
        0 <= n < events.len() && name_free_within(has_parent, pre, n) implies name_free_within(
        has_parent,
        events,
        n,
    ) by {
        let j = choose|j: int|
            0 <= j < n && #[trigger] name_free(pre[j]) && parent_found_within(has_parent, pre, j);
        assert(pre[j] == events[j]);
    }
    assert forall|n: int|
        0 <= n < events.len() && written_within(has_parent, pre, n) implies written_within(
        has_parent,
        events,
        n,
    ) by {
        let k = choose|k: int|
            0 <= k < n && #[trigger] written(pre[k]) && name_free_within(has_parent, pre, k);
        assert(pre[k] == events[k]);
    }
}

/// `built_within` and `parent_found_within` only grow with the number of
/// events looked at.
proof fn lemma_within_grows(has_parent: bool, events: Seq<CreationEvent>, n: int, m: int)
    requires
        0 <= n <= m,
    ensures
        built_within(events, n) ==> built_within(events, m),
        parent_found_within(has_parent, events, n) ==> parent_found_within(has_parent, events, m),
{
    if built_within(events, n) {
        let b = choose|b: int| 0 <= b < n && #[trigger] record_built(events[b]);
        assert(record_built(events[b]));
    }
    if has_parent && parent_found_within(has_parent, events, n) {
        let i = choose|i: int| 0 <= i < n && #[trigger] parent_found(events[i]) && built_within(events, i);
        assert(parent_found(events[i]));
    }
}

/// What each step of a creation rests on: past the record the record was
/// built; past the parent's lookup the parent was found after that; from
/// the write on, the name was found free after that; once created, the
/// resource was written after all of these.
proof fn lemma_stage_history(has_parent: bool, events: Seq<CreationEvent>)
    ensures
        match replay(has_parent, events) {
            CreationStage::AwaitingParent => built_within(events, events.len() as int),
            CreationStage::AwaitingExistence => parent_found_within(has_parent, events, events.len() as int),
            CreationStage::AwaitingWrite => name_free_within(has_parent, events, events.len() as int),
            CreationStage::Created => written_within(has_parent, events, events.len() as int),
            _ => true,
        },
    decreases events.len(),
{
    if events.len() > 0 {
        let pre = events.drop_last();
        let n = pre.len() as int;
        let e = events.last();
        lemma_stage_history(has_parent, pre);
        lemma_within_prefix(has_parent, events);
        lemma_within_grows(has_parent, events, n, n + 1);
        assert(events[n] == e);
        match replay(has_parent, pre) {
            CreationStage::AwaitingRecord => {
                if record_built(e) {
                    assert(record_built(events[n]));
                    assert(built_within(events, n + 1));
                }
            },
            CreationStage::AwaitingParent => {
                assert(built_within(events, n));
                if parent_found(e) {
                    assert(parent_found(events[n]));
                }
            },
            CreationStage::AwaitingExistence => {
                assert(parent_found_within(has_parent, events, n));
                if name_free(e) {
                    assert(name_free(events[n]));
                }
            },
            CreationStage::AwaitingWrite => {
                assert(name_free_within(has_parent, events, n));
                let j = choose|j: int|
                    0 <= j < n && #[trigger] name_free(events[j]) && parent_found_within(
                        has_parent,
                        events,
                        j,
                    );
                assert(name_free(events[j]));
                if written(e) {
                    assert(written(events[n]));
                }
            },
            CreationStage::Created => {
                assert(written_within(has_parent, events, n));
                let k = choose|k: int|
                    0 <= k < n && #[trigger] written(events[k]) && name_free_within(
                        has_parent,
                        events,
                        k,
                    );
                assert(written(events[k]));
            },
            CreationStage::Refused => {},
        }
    }
}

/// A creation looks anything up in the datastore only once its record was
/// built from the request (so a bad request, or a clock that cannot be
/// read, is answered before any lookup): its parent's lookup follows the
/// record, and the lookup of its name follows the parent's (or, without a
/// parent, the record).
pub proof fn lemma_lookups_follow_record(has_parent: bool, events: Seq<CreationEvent>)
    ensures
        replay(has_parent, events) is AwaitingParent ==> built_within(events, events.len() as int),
        replay(has_parent, events) is AwaitingExistence ==> parent_found_within(
            has_parent,
            events,
            events.len() as int,
        ),
{
    lemma_stage_history(has_parent, events);
}

/// A creation asks for its write only after its record was built, then its
/// parent was found (where it has one), then its name was found free; it is
/// answered as created only after that write was done.
pub proof fn lemma_write_follows_checks(has_parent: bool, events: Seq<CreationEvent>)
    ensures
        replay(has_parent, events) is AwaitingWrite ==> name_free_within(
            has_parent,
            events,
            events.len() as int,
        ),
        replay(has_parent, events) is Created ==> written_within(
            has_parent,
            events,
            events.len() as int,
        ),
{
    lemma_stage_history(has_parent, events);
}

/// A refused creation stays refused, whatever is reported after.
pub proof fn lemma_refusal_is_final(
    has_parent: bool,
    events: Seq<CreationEvent>,
    later: Seq<CreationEvent>,
)
    requires
        replay(has_parent, events) is Refused,
    ensures
        replay(has_parent, events + later) is Refused,
    decreases later.len(),
{
    if later.len() == 0 {
        assert(events + later =~= events);
    } else {
        lemma_refusal_is_final(has_parent, events, later.drop_last());
        assert((events + later).drop_last() =~= events + later.drop_last());
    }
}

} // verus!
