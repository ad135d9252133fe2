use user_crud::error::{ApiError, StoreError};
use user_crud::handlers::{
    create_user, delete_user, get_user, list_users, update_user, validate_new_user, Reply,
};
use user_crud::model::{NewUser, User};
use user_crud::table::UserTable;

fn payload(username: &str, remark: &str) -> NewUser {
    NewUser { username: username.to_string(), remark: remark.to_string() }
}

fn user(id: i32, username: &str, remark: &str) -> User {
    User { id, username: username.to_string(), remark: remark.to_string() }
}

#[test]
fn crud_scenario() {
    let mut table = UserTable::new();

    let rejected = validate_new_user(&payload("", "x")).unwrap_err();
    assert_eq!(rejected.status(), 400);
    assert_eq!(rejected, ApiError::BadRequest("参数异常".to_string()));
    assert!(table.list().is_empty());

    let body = payload("a", "b");
    assert_eq!(validate_new_user(&body), Ok(()));
    let created = match create_user(table.insert(body)) {
        Ok(Reply::One(u)) => u,
        other => panic!("unexpected reply {:?}", other),
    };
    assert_eq!(created.username, "a");
    assert_eq!(created.remark, "b");
    let id = created.id;

    assert_eq!(get_user(table.get(id)), Ok(Reply::One(created.clone())));

    let updated = update_user(table.update(id, payload("c", "d")));
    assert_eq!(updated, Ok(Reply::One(user(id, "c", "d"))));

    let deleted = delete_user(table.delete(id));
    assert_eq!(deleted, Ok(Reply::One(user(id, "c", "d"))));

    let missing = get_user(table.get(id)).unwrap_err();
    assert_eq!(missing.status(), 404);
    assert_eq!(missing.message(), "用户不存在");
}

#[test]
fn create_then_get_returns_created() {
    let mut table = UserTable::new();
    let created = table.insert(payload("alice", "first")).unwrap();
    assert_eq!(created, user(1, "alice", "first"));
    assert_eq!(table.get(created.id), Ok(created));
}

#[test]
fn missing_id_is_not_found_everywhere() {
    let mut table = UserTable::new();
    table.insert(payload("alice", "first")).unwrap();
    assert_eq!(table.get(7), Err(StoreError::NotFound));
    assert_eq!(table.update(7, payload("x", "y")), Err(StoreError::NotFound));
    assert_eq!(table.delete(7), Err(StoreError::NotFound));
    assert_eq!(table.list(), vec![user(1, "alice", "first")]);
    for reply in [get_user(table.get(7)), update_user(table.update(7, payload("x", "y"))), delete_user(table.delete(7))] {
        assert_eq!(reply, Err(ApiError::NotFound("用户不存在".to_string())));
    }
}

#[test]
fn update_changes_only_the_fields() {
    let mut table = UserTable::new();
    table.insert(payload("alice", "first")).unwrap();
    table.insert(payload("bob", "second")).unwrap();
    let updated = table.update(2, payload("robert", "renamed")).unwrap();
    assert_eq!(updated, user(2, "robert", "renamed"));
    assert_eq!(table.get(2), Ok(user(2, "robert", "renamed")));
    assert_eq!(table.get(1), Ok(user(1, "alice", "first")));
}

#[test]
fn delete_is_permanent_and_ids_are_not_reused() {
    let mut table = UserTable::new();
    table.insert(payload("alice", "first")).unwrap();
    table.insert(payload("bob", "second")).unwrap();
    assert_eq!(table.delete(2), Ok(user(2, "bob", "second")));
    assert_eq!(table.get(2), Err(StoreError::NotFound));
    assert_eq!(table.delete(2), Err(StoreError::NotFound));
    let next = table.insert(payload("carol", "third")).unwrap();
    assert_eq!(next.id, 3);
    assert_eq!(table.get(2), Err(StoreError::NotFound));
    assert_eq!(table.list(), vec![user(1, "alice", "first"), user(3, "carol", "third")]);
}

#[test]
fn list_counts_creations() {
    let mut table = UserTable::new();
    assert_eq!(table.list(), Vec::<User>::new());
    for i in 0..5 {
        table.insert(payload(&format!("user{}", i), "r")).unwrap();
    }
    let rows = table.list();
    assert_eq!(rows.len(), 5);
    let ids: Vec<i32> = rows.iter().map(|u| u.id).collect();
    assert_eq!(ids, vec![1, 2, 3, 4, 5]);
}

#[test]
fn duplicate_usernames_are_allowed() {
    let mut table = UserTable::new();
    let a = table.insert(payload("same", "one")).unwrap();
    let b = table.insert(payload("same", "two")).unwrap();
    assert_ne!(a.id, b.id);
    assert_eq!(table.list().len(), 2);
}

#[test]
fn validation_rejects_each_empty_field() {
    for body in [payload("", "x"), payload("a", ""), payload("", "")] {
        let err = validate_new_user(&body).unwrap_err();
        assert_eq!(err.status(), 400);
        assert_eq!(err.message(), "参数异常");
    }
}

#[test]
fn store_failures_become_internal_errors() {
    let failure = || StoreError::Failure("connection refused".to_string());
    let expected = Err(ApiError::Internal("connection refused".to_string()));
    assert_eq!(list_users(Err(failure())), expected);
    assert_eq!(get_user(Err(failure())), expected);
    assert_eq!(create_user(Err(failure())), expected);
    assert_eq!(update_user(Err(failure())), expected);
    assert_eq!(delete_user(Err(failure())), expected);
    assert_eq!(expected.unwrap_err().status(), 500);
}

#[test]
fn not_found_from_list_or_insert_is_internal() {
    let expected = Err(ApiError::Internal("record not found".to_string()));
    assert_eq!(list_users(Err(StoreError::NotFound)), expected);
    assert_eq!(create_user(Err(StoreError::NotFound)), expected);
}

#[test]
fn list_reply_keeps_rows() {
    let rows = vec![user(1, "a", "b"), user(4, "c", "d")];
    assert_eq!(list_users(Ok(rows.clone())), Ok(Reply::Users(rows)));
    assert_eq!(list_users(Ok(Vec::new())), Ok(Reply::Users(Vec::new())));
}

#[test]
fn error_statuses() {
    assert_eq!(ApiError::BadRequest("m".to_string()).status(), 400);
    assert_eq!(ApiError::NotFound("m".to_string()).status(), 404);
    assert_eq!(ApiError::Internal("m".to_string()).status(), 500);
    assert_eq!(ApiError::Internal("boom".to_string()).message(), "boom");
}
