use perspective_registry::perspectives::{
    Neighbourhood, NeighbourhoodData, PerspectiveDiff, PerspectiveHandle, PerspectiveInstance,
    PerspectiveRegistry, SyncState,
};
use perspective_registry::CoreError;

fn new_handle(uuid: &str, name: &str) -> PerspectiveHandle {
    PerspectiveHandle {
        uuid: uuid.to_string(),
        name: Some(name.to_string()),
        neighbourhood: None,
    }
}

fn synced_handle(uuid: &str, name: &str, address: &str) -> PerspectiveHandle {
    PerspectiveHandle {
        uuid: uuid.to_string(),
        name: Some(name.to_string()),
        neighbourhood: Some(Neighbourhood {
            data: NeighbourhoodData {
                link_language: address.to_string(),
            },
        }),
    }
}

fn diff(addition: &str) -> PerspectiveDiff {
    PerspectiveDiff {
        additions: vec![addition.to_string()],
        removals: vec![],
    }
}

fn find_perspective_by_uuid<'a>(
    all_perspectives: &'a [PerspectiveInstance],
    uuid: &String,
) -> Option<&'a PerspectiveInstance> {
    all_perspectives.iter().find(|p| p.persisted.uuid == *uuid)
}

#[test]
fn test_perspective_persistence_roundtrip() {
    let mut registry = PerspectiveRegistry::new();
    assert!(registry.all_perspectives().is_empty());

    let handle1 = new_handle("uuid-1", "Test Perspective 1");
    let handle2 = new_handle("uuid-2", "Test Perspective 2");

    registry
        .add_perspective(handle1.clone(), None)
        .expect("Failed to add perspective");
    registry
        .add_perspective(handle2.clone(), None)
        .expect("Failed to add perspective");
    let perspectives = registry.all_perspectives();

    assert_eq!(perspectives.len(), 2);

    assert!(find_perspective_by_uuid(&perspectives, &handle1.uuid).is_some());
    assert!(find_perspective_by_uuid(&perspectives, &handle2.uuid).is_some());

    let p1 = find_perspective_by_uuid(&perspectives, &handle1.uuid)
        .expect("Failed to find perspective by uuid");
    assert_eq!(p1.persisted.name, Some("Test Perspective 1".to_string()));

    let mut handle_updated = handle1.clone();
    handle_updated.name = Some("Test Perspective 1 Updated".to_string());
    registry
        .update_perspective(&handle_updated)
        .expect("Failed to update perspective");

    let p1_updated = registry.get_perspective(&handle1.uuid).unwrap();
    assert_eq!(
        p1_updated.persisted.name,
        Some("Test Perspective 1 Updated".to_string())
    );

    let perspectives = registry.all_perspectives();
    assert_eq!(perspectives.len(), 2);
    let p1_updated_from_all = find_perspective_by_uuid(&perspectives, &handle1.uuid)
        .expect("Failed to find perspective by uuid");
    assert_eq!(
        p1_updated_from_all.persisted.name,
        Some("Test Perspective 1 Updated".to_string())
    );

    registry.remove_perspective(handle1.uuid.as_str());
    let perspectives = registry.all_perspectives();
    assert_eq!(perspectives.len(), 1);
    assert!(find_perspective_by_uuid(&perspectives, &handle2.uuid).is_some());
}

#[test]
fn add_then_get_returns_equal_handle() {
    let mut registry = PerspectiveRegistry::new();
    let handle = synced_handle("uuid-a", "A", "lang://addr");
    registry.add_perspective(handle.clone(), Some(true)).unwrap();

    let got = registry.get_perspective("uuid-a").expect("expected a hit");
    assert_eq!(got.persisted.uuid, handle.uuid);
    assert_eq!(got.persisted.name, handle.name);
    assert_eq!(
        got.persisted
            .neighbourhood
            .as_ref()
            .map(|n| n.data.link_language.clone()),
        Some("lang://addr".to_string())
    );
    assert!(got.created_from_join);
    assert!(matches!(got.sync_state, SyncState::Synchronizing));
    assert!(got.received_diffs.is_empty());
}

#[test]
fn add_two_distinct_uuids_yields_two() {
    let mut registry = PerspectiveRegistry::new();
    registry
        .add_perspective(new_handle("uuid-a", "A"), None)
        .unwrap();
    registry
        .add_perspective(new_handle("uuid-b", "B"), None)
        .unwrap();

    let all = registry.all_perspectives();
    assert_eq!(all.len(), 2);
    assert!(registry.get_perspective("uuid-a").is_some());
    assert!(registry.get_perspective("uuid-b").is_some());
}

#[test]
fn add_duplicate_uuid_fails_and_keeps_entry() {
    let mut registry = PerspectiveRegistry::new();
    registry
        .add_perspective(new_handle("uuid-a", "Original"), None)
        .unwrap();

    let result = registry.add_perspective(new_handle("uuid-a", "Impostor"), None);
    match result {
        Err(CoreError::AlreadyExists { uuid }) => assert_eq!(uuid, "uuid-a"),
        other => panic!("expected AlreadyExists, got {:?}", other.is_ok()),
    }

    let all = registry.all_perspectives();
    assert_eq!(all.len(), 1);
    let kept = registry.get_perspective("uuid-a").unwrap();
    assert_eq!(kept.persisted.name, Some("Original".to_string()));
}

#[test]
fn update_unknown_uuid_fails_and_changes_nothing() {
    let mut registry = PerspectiveRegistry::new();
    registry
        .add_perspective(new_handle("uuid-a", "A"), None)
        .unwrap();

    let result = registry.update_perspective(&new_handle("uuid-missing", "X"));
    match result {
        Err(CoreError::NotFound { uuid }) => assert_eq!(uuid, "uuid-missing"),
        other => panic!("expected NotFound, got {:?}", other.is_ok()),
    }

    let all = registry.all_perspectives();
    assert_eq!(all.len(), 1);
    assert_eq!(
        registry.get_perspective("uuid-a").unwrap().persisted.name,
        Some("A".to_string())
    );
}

#[test]
fn update_name_is_visible_to_get() {
    let mut registry = PerspectiveRegistry::new();
    registry
        .add_perspective(new_handle("uuid-a", "Before"), None)
        .unwrap();
    registry
        .update_perspective(&new_handle("uuid-a", "After"))
        .unwrap();
    assert_eq!(
        registry.get_perspective("uuid-a").unwrap().persisted.name,
        Some("After".to_string())
    );
}

#[test]
fn update_attaching_neighbourhood_starts_synchronizing() {
    let mut registry = PerspectiveRegistry::new();
    registry
        .add_perspective(new_handle("uuid-a", "A"), None)
        .unwrap();
    assert!(matches!(
        registry.get_perspective("uuid-a").unwrap().sync_state,
        SyncState::Unsynchronized
    ));

    registry
        .update_perspective(&synced_handle("uuid-a", "A", "lang://addr"))
        .unwrap();
    assert!(matches!(
        registry.get_perspective("uuid-a").unwrap().sync_state,
        SyncState::Synchronizing
    ));
}

#[test]
fn remove_existing_returns_instance_and_shrinks_by_one() {
    let mut registry = PerspectiveRegistry::new();
    registry
        .add_perspective(new_handle("uuid-a", "A"), None)
        .unwrap();
    registry
        .add_perspective(new_handle("uuid-b", "B"), None)
        .unwrap();

    let removed = registry.remove_perspective("uuid-a").expect("expected Some");
    assert_eq!(removed.persisted.uuid, "uuid-a");
    assert_eq!(registry.all_perspectives().len(), 1);
    assert!(registry.get_perspective("uuid-a").is_none());
    assert!(registry.get_perspective("uuid-b").is_some());
}

#[test]
fn remove_unknown_returns_none_and_changes_nothing() {
    let mut registry = PerspectiveRegistry::new();
    registry
        .add_perspective(new_handle("uuid-a", "A"), None)
        .unwrap();

    assert!(registry.remove_perspective("uuid-missing").is_none());
    assert_eq!(registry.all_perspectives().len(), 1);
    assert_eq!(
        registry.get_perspective("uuid-a").unwrap().persisted.name,
        Some("A".to_string())
    );
}

#[test]
fn diff_with_unknown_address_is_a_noop() {
    let mut registry = PerspectiveRegistry::new();
    registry
        .add_perspective(new_handle("uuid-a", "A"), None)
        .unwrap();
    registry
        .add_perspective(synced_handle("uuid-b", "B", "lang://known"), None)
        .unwrap();

    registry
        .handle_perspective_diff_from_link_language(diff("link-1"), "lang://unknown".to_string());

    for p in registry.all_perspectives() {
        assert!(p.received_diffs.is_empty());
    }
}

#[test]
fn diff_reaches_only_matching_instances_in_order() {
    let mut registry = PerspectiveRegistry::new();
    registry
        .add_perspective(synced_handle("uuid-a", "A", "lang://one"), None)
        .unwrap();
    registry
        .add_perspective(synced_handle("uuid-b", "B", "lang://two"), None)
        .unwrap();

    registry.handle_perspective_diff_from_link_language(diff("first"), "lang://one".to_string());
    registry.handle_perspective_diff_from_link_language(diff("second"), "lang://one".to_string());

    let a = registry.get_perspective("uuid-a").unwrap();
    assert_eq!(a.received_diffs.len(), 2);
    assert_eq!(a.received_diffs[0].additions, vec!["first".to_string()]);
    assert_eq!(a.received_diffs[1].additions, vec!["second".to_string()]);

    let b = registry.get_perspective("uuid-b").unwrap();
    assert!(b.received_diffs.is_empty());
}

#[test]
fn initialize_from_db_restores_every_handle() {
    let mut registry = PerspectiveRegistry::new();
    registry.initialize_from_db(vec![
        new_handle("uuid-a", "A"),
        synced_handle("uuid-b", "B", "lang://addr"),
    ]);

    let all = registry.all_perspectives();
    assert_eq!(all.len(), 2);
    let a = registry.get_perspective("uuid-a").unwrap();
    assert_eq!(a.persisted.name, Some("A".to_string()));
    assert!(!a.created_from_join);
    assert!(matches!(a.sync_state, SyncState::Unsynchronized));
    let b = registry.get_perspective("uuid-b").unwrap();
    assert!(matches!(b.sync_state, SyncState::Synchronizing));
}

#[test]
fn error_messages_carry_operation_and_identity() {
    let already = CoreError::AlreadyExists {
        uuid: "uuid-a".to_string(),
    };
    assert_eq!(already.message(), "Perspective with uuid uuid-a already exists");

    let missing = CoreError::NotFound {
        uuid: "uuid-b".to_string(),
    };
    assert_eq!(missing.message(), "Perspective with uuid uuid-b not found");

    let persistence = CoreError::PersistenceFailure {
        message: "disk full".to_string(),
    };
    assert_eq!(persistence.message(), "Persistence operation failed: disk full");

    assert_eq!(CoreError::EnvironmentFault.message(), "Could not read system clock");
}
