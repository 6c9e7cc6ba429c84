use auth_core::store::{MyData, Store};
use auth_core::Error;

#[test]
fn find_user_by_email_absent_reports_the_field() {
    let store = Store::new();
    match store.find_user_by_email("ghost@x.com") {
        Err(Error::UnprocessableEntity { errors }) => {
            assert_eq!(errors.len(), 1);
            assert_eq!(errors[0].message, "email does not exist");
            assert_eq!(errors[0].domain.as_deref(), Some("email"));
        }
        _ => panic!("expected the email field error"),
    }
}

#[test]
fn created_user_starts_unverified() {
    let mut store = Store::new();
    store.create_user(1, "alice", "alice@x.com", "hash", 500).unwrap();
    let user = store.find_user_by_email("alice@x.com").unwrap();
    assert_eq!(user.id, 1);
    assert_eq!(user.username, "alice");
    assert!(!user.email_verified);
    assert_eq!(user.created_at, 500);
    assert_eq!(user.updated_at, 500);
}

#[test]
fn user_id_collision_is_internal() {
    let mut store = Store::new();
    store.create_user(1, "alice", "alice@x.com", "h", 0).unwrap();
    let r = store.create_user(1, "bob", "bob@x.com", "h", 0);
    assert!(matches!(r, Err(Error::Internal)));
}

#[test]
fn verify_user_flips_the_flag_and_tolerates_unknown_ids() {
    let mut store = Store::new();
    store.create_user(1, "alice", "alice@x.com", "h", 0).unwrap();

    // An UPDATE touching no row still succeeds and changes nothing.
    store.verify_user(999).unwrap();
    assert!(!store.find_user_by_email("alice@x.com").unwrap().email_verified);

    store.verify_user(1).unwrap();
    assert!(store.find_user_by_email("alice@x.com").unwrap().email_verified);
}

#[test]
fn reset_user_password_replaces_only_the_hash() {
    let mut store = Store::new();
    store.create_user(1, "alice", "alice@x.com", "old-hash", 0).unwrap();
    store.reset_user_password(1, "new-hash").unwrap();
    let user = store.find_user_by_email("alice@x.com").unwrap();
    assert_eq!(user.password_hash, "new-hash");
    assert_eq!(user.username, "alice");
}

#[test]
fn sessions_are_keyed_by_id() {
    let mut store = Store::new();
    let resp = store
        .create_session(42, 7, MyData { settings: "DUMMY".to_owned() }, 1_000)
        .unwrap();
    assert_eq!(resp.id, 42);

    let session = store.get_session(42).unwrap();
    assert_eq!(session.user_id, 7);
    assert_eq!(session.expiry_date, 1_000);
    assert_eq!(session.data.settings, "DUMMY");

    // An unknown session id is Forbidden, as the middleware's lookup maps it.
    assert!(matches!(store.get_session(43), Err(Error::Forbidden)));

    // A colliding session id is refused as an internal failure.
    let dup = store.create_session(42, 8, MyData { settings: "DUMMY".to_owned() }, 2_000);
    assert!(matches!(dup, Err(Error::Internal)));
}

#[test]
fn deleting_absent_tokens_succeeds() {
    let mut store = Store::new();
    store.delete_email_token("nothere1").unwrap();
    store.delete_reset_password_token("nothere2").unwrap();
}
