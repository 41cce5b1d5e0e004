use chip_in_inventory::loading::{begin_load, load_step, LoadAction, LoadEvent, LoadStage};
use chip_in_inventory::model::ApiError;

fn run(events: Vec<LoadEvent>) -> (LoadStage, Vec<LoadAction>) {
    let (mut stage, first) = begin_load();
    let mut actions = vec![first];
    for e in events {
        let (next, action) = load_step(stage, e);
        stage = next;
        actions.push(action);
    }
    (stage, actions)
}

#[test]
fn load_goes_realm_by_realm_and_finishes() {
    let (stage, actions) = run(vec![
        LoadEvent::RealmPlanned(Ok(())),
        LoadEvent::RealmWritten(Ok(())),
        LoadEvent::ResourceWritten(Ok(())),
        LoadEvent::ContentsDone,
        LoadEvent::NoMoreRealms,
    ]);
    assert!(matches!(stage, LoadStage::Finished));
    assert!(matches!(
        actions.as_slice(),
        [
            LoadAction::PlanNextRealm,
            LoadAction::WriteRealm,
            LoadAction::WriteContents,
            LoadAction::KeepWriting,
            LoadAction::PlanNextRealm,
            LoadAction::Finish
        ]
    ));
}

#[test]
fn failed_resources_do_not_stop_the_load() {
    let (stage, actions) = run(vec![
        LoadEvent::RealmPlanned(Ok(())),
        LoadEvent::RealmWritten(Ok(())),
        LoadEvent::ResourceWritten(Err(ApiError::BadRequest("URN mismatch".to_string()))),
        LoadEvent::ResourceWritten(Err(ApiError::Etcd("down".to_string()))),
        LoadEvent::ContentsDone,
    ]);
    assert!(matches!(stage, LoadStage::AwaitingRealm));
    assert!(matches!(actions.last(), Some(LoadAction::PlanNextRealm)));
    assert!(!actions.iter().any(|a| matches!(a, LoadAction::Stop(_))));
}

#[test]
fn refused_realm_stops_the_load_with_its_error() {
    let refusal = ApiError::BadRequest("URN mismatch for Realm 'q'".to_string());
    let (stage, actions) = run(vec![LoadEvent::RealmPlanned(Err(refusal.clone()))]);
    assert!(matches!(stage, LoadStage::Stopped));
    match actions.last() {
        Some(LoadAction::Stop(e)) => assert_eq!(e, &refusal),
        other => panic!("unexpected {:?}", other),
    }
}

#[test]
fn failed_realm_write_stops_the_load() {
    let (stage, actions) = run(vec![
        LoadEvent::RealmPlanned(Ok(())),
        LoadEvent::RealmWritten(Err(ApiError::Etcd("down".to_string()))),
    ]);
    assert!(matches!(stage, LoadStage::Stopped));
    assert!(matches!(actions.last(), Some(LoadAction::Stop(ApiError::Etcd(_)))));
}
