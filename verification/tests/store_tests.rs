use auth_core::ServiceError;
use auth_core::UserStore;

#[test]
fn create_then_find_returns_the_record() {
    let mut store = UserStore::new();
    let created = store
        .create_user(
            "id-1".to_string(),
            "a@x.com".to_string(),
            "stored-hash".to_string(),
            1_700_000_000,
        )
        .unwrap();
    assert_eq!(created.id, "id-1");
    assert_eq!(created.email, "a@x.com");
    assert_eq!(created.password, "stored-hash");
    assert_eq!(created.role, "user");
    assert_eq!(created.created_at, Some(1_700_000_000));

    let found = store.find_by_email(&"a@x.com".to_string()).unwrap();
    assert_eq!(found.id, "id-1");
    assert_eq!(found.email, "a@x.com");
    assert_eq!(found.password, "stored-hash");
}

#[test]
fn duplicate_email_is_a_conflict_and_writes_nothing() {
    let mut store = UserStore::new();
    store
        .create_user("id-1".to_string(), "a@x.com".to_string(), "h1".to_string(), 1)
        .unwrap();
    let second = store.create_user("id-2".to_string(), "a@x.com".to_string(), "h2".to_string(), 2);
    assert_eq!(second.unwrap_err(), ServiceError::Conflict);
    assert_eq!(store.len(), 1);
    let kept = store.find_by_email(&"a@x.com".to_string()).unwrap();
    assert_eq!(kept.id, "id-1");
    assert_eq!(kept.password, "h1");
}

#[test]
fn missing_email_is_not_found() {
    let store = UserStore::new();
    let result = store.find_by_email(&"nobody@x.com".to_string());
    assert_eq!(result.unwrap_err(), ServiceError::NotFound);
}

#[test]
fn duplicate_id_is_a_store_fault_and_writes_nothing() {
    let mut store = UserStore::new();
    store
        .create_user("id-1".to_string(), "a@x.com".to_string(), "h1".to_string(), 1)
        .unwrap();
    let second = store.create_user("id-1".to_string(), "b@x.com".to_string(), "h2".to_string(), 2);
    assert_eq!(second.unwrap_err(), ServiceError::Store);
    assert_eq!(store.len(), 1);
}
