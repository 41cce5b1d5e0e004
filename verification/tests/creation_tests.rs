use chip_in_inventory::creation::{begin_creation, creation_step, CreationAction, CreationEvent, CreationStage};
use chip_in_inventory::model::ApiError;

fn run(has_parent: bool, events: Vec<CreationEvent>) -> (CreationStage, Vec<CreationAction>) {
    let (mut stage, first) = begin_creation();
    let mut actions = vec![first];
    for e in events {
        let (next, action) = creation_step(has_parent, stage, e);
        stage = next;
        actions.push(action);
    }
    (stage, actions)
}

#[test]
fn creation_builds_then_checks_parent_then_name_then_writes() {
    let (stage, actions) = run(
        true,
        vec![
            CreationEvent::RecordBuilt(Ok(())),
            CreationEvent::ParentLookedUp(Ok(())),
            CreationEvent::ExistenceLookedUp(Ok(())),
            CreationEvent::Written(Ok(())),
        ],
    );
    assert!(matches!(stage, CreationStage::Created));
    assert!(matches!(
        actions.as_slice(),
        [
            CreationAction::BuildRecord,
            CreationAction::LookUpParent,
            CreationAction::LookUpExisting,
            CreationAction::Write,
            CreationAction::AnswerCreated
        ]
    ));
}

#[test]
fn creation_without_parent_goes_from_record_to_name() {
    let (stage, actions) = run(false, vec![CreationEvent::RecordBuilt(Ok(()))]);
    assert!(matches!(stage, CreationStage::AwaitingExistence));
    assert!(matches!(actions.last(), Some(CreationAction::LookUpExisting)));
}

#[test]
fn bad_request_is_refused_before_any_lookup() {
    let refusal = ApiError::BadRequest("Zone name cannot be empty".to_string());
    let (stage, actions) = run(true, vec![CreationEvent::RecordBuilt(Err(refusal.clone()))]);
    assert!(matches!(stage, CreationStage::Refused));
    assert!(!actions.iter().any(|a| matches!(a, CreationAction::LookUpParent | CreationAction::LookUpExisting)));
    match actions.last() {
        Some(CreationAction::Refuse(e)) => assert_eq!(e, &refusal),
        other => panic!("unexpected {:?}", other),
    }
    let (stage, _) = run(false, vec![CreationEvent::RecordBuilt(Err(ApiError::Clock))]);
    assert!(matches!(stage, CreationStage::Refused));
}

#[test]
fn missing_parent_is_refused_before_the_name_is_looked_up() {
    let (stage, actions) = run(
        true,
        vec![CreationEvent::RecordBuilt(Ok(())), CreationEvent::ParentLookedUp(Err(ApiError::NotFound))],
    );
    assert!(matches!(stage, CreationStage::Refused));
    assert!(matches!(actions.last(), Some(CreationAction::Refuse(ApiError::NotFound))));
}

#[test]
fn taken_name_is_refused_without_a_write() {
    let conflict = ApiError::Conflict("Realm 'q' already exists.".to_string());
    let (stage, actions) = run(
        false,
        vec![CreationEvent::RecordBuilt(Ok(())), CreationEvent::ExistenceLookedUp(Err(conflict.clone()))],
    );
    assert!(matches!(stage, CreationStage::Refused));
    assert!(!actions.iter().any(|a| matches!(a, CreationAction::Write)));
    match actions.last() {
        Some(CreationAction::Refuse(e)) => assert_eq!(e, &conflict),
        other => panic!("unexpected {:?}", other),
    }
}

#[test]
fn failed_write_is_answered_with_its_error() {
    let (stage, actions) = run(
        false,
        vec![
            CreationEvent::RecordBuilt(Ok(())),
            CreationEvent::ExistenceLookedUp(Ok(())),
            CreationEvent::Written(Err(ApiError::Etcd("down".to_string()))),
        ],
    );
    assert!(matches!(stage, CreationStage::Refused));
    assert!(matches!(actions.last(), Some(CreationAction::Refuse(ApiError::Etcd(_)))));
}
