use auth_core::ext::{parse_session_uuid, session_cookie_value};
use auth_core::flows::{
    confirm_password_reset, login, register, request_password_reset, verify_email,
};
use auth_core::middleware::authenticate;
use auth_core::payload::{LoginPayload, ResetPayload, UserRequest, VerifyResetPasswordPayload};
use auth_core::store::Store;
use auth_core::Error;

fn alice_request() -> UserRequest {
    UserRequest {
        username: "alice".to_owned(),
        email: "alice@x.com".to_owned(),
        password: "Passw0rd!".to_owned(),
    }
}

fn alice_login() -> LoginPayload {
    LoginPayload { email: "alice@x.com".to_owned(), password: "Passw0rd!".to_owned() }
}

#[test]
fn register_then_verify_then_login_roundtrip() {
    let mut store = Store::new();
    let reg = register(&mut store, &alice_request(), 1_000, 3_600).unwrap();

    verify_email(&mut store, &reg.token, 1_010).unwrap();

    let success = login(&mut store, &alice_login(), 1_020, 1_800).unwrap();
    assert_eq!(success.expiry_date, 1_020 + 1_800);
    assert_eq!(success.user.id, reg.user_id);
    assert!(success.user.email_verified);

    // The cookie's embedded id resolves through the middleware to the same user.
    let cookie = session_cookie_value(success.session_id);
    let ctx = authenticate(&store, Some(&cookie), 1_030).unwrap();
    assert_eq!(ctx.user_id, reg.user_id);
}

#[test]
fn login_before_verification_fails_not_verified() {
    let mut store = Store::new();
    register(&mut store, &alice_request(), 0, 3_600).unwrap();
    let r = login(&mut store, &alice_login(), 10, 1_800);
    assert!(matches!(r, Err(Error::NotVerified)));
}

#[test]
fn login_wrong_password_fails_unauthorized() {
    let mut store = Store::new();
    let reg = register(&mut store, &alice_request(), 0, 3_600).unwrap();
    verify_email(&mut store, &reg.token, 1).unwrap();

    let wrong = LoginPayload { email: "alice@x.com".to_owned(), password: "Passw0rd?".to_owned() };
    let r = login(&mut store, &wrong, 10, 1_800);
    assert!(matches!(r, Err(Error::Unauthorized)));
}

#[test]
fn login_unknown_email_fails_with_field_error() {
    let mut store = Store::new();
    let r = login(&mut store, &alice_login(), 10, 1_800);
    match r {
        Err(Error::UnprocessableEntity { errors }) => {
            assert_eq!(errors.len(), 1);
            assert_eq!(errors[0].message, "email does not exist");
            assert_eq!(errors[0].domain.as_deref(), Some("email"));
        }
        other => panic!("expected a field-level error, got {:?}", other.map(|_| ())),
    }
}

#[test]
fn duplicate_username_and_email_conflict() {
    let mut store = Store::new();
    register(&mut store, &alice_request(), 0, 3_600).unwrap();

    let same_name = UserRequest {
        username: "alice".to_owned(),
        email: "other@x.com".to_owned(),
        password: "Passw0rd!".to_owned(),
    };
    match register(&mut store, &same_name, 1, 3_600) {
        Err(Error::UnprocessableEntity { errors }) => {
            assert_eq!(errors[0].message, "username taken");
            assert_eq!(errors[0].domain.as_deref(), Some("username"));
        }
        other => panic!("expected a username conflict, got {:?}", other.map(|_| ())),
    }

    let same_email = UserRequest {
        username: "bob".to_owned(),
        email: "alice@x.com".to_owned(),
        password: "Passw0rd!".to_owned(),
    };
    match register(&mut store, &same_email, 2, 3_600) {
        Err(Error::UnprocessableEntity { errors }) => {
            assert_eq!(errors[0].message, "email taken");
            assert_eq!(errors[0].domain.as_deref(), Some("email"));
        }
        other => panic!("expected an email conflict, got {:?}", other.map(|_| ())),
    }
}

#[test]
fn expired_session_never_authenticates() {
    let mut store = Store::new();
    let data = auth_core::store::MyData { settings: "DUMMY".to_owned() };
    store.create_session(77, 5, data, 1_000).unwrap();
    let cookie = session_cookie_value(77);

    // At the expiry instant, and at any later time, the middleware refuses.
    for now in [1_000, 1_001, 50_000, i64::MAX] {
        let r = authenticate(&store, Some(&cookie), now);
        assert!(matches!(r, Err(Error::Forbidden)));
    }
    // Strictly before expiry it passes.
    let ok = authenticate(&store, Some(&cookie), 999).unwrap();
    assert_eq!(ok.user_id, 5);
}

#[test]
fn middleware_failures_are_distinguished() {
    let store = Store::new();
    // A missing cookie is NotFound, deliberately not Unauthorized.
    assert!(matches!(authenticate(&store, None, 0), Err(Error::NotFound)));
    // A malformed uuid fails with the uuid error class.
    assert!(matches!(
        authenticate(&store, Some("not-a-uuid"), 0),
        Err(Error::Uuid)
    ));
    // A well-formed but unknown session id is Forbidden.
    let cookie = session_cookie_value(123);
    assert!(matches!(
        authenticate(&store, Some(&cookie), 0),
        Err(Error::Forbidden)
    ));
}

#[test]
fn reset_flow_replaces_password_once() {
    let mut store = Store::new();
    let reg = register(&mut store, &alice_request(), 0, 3_600).unwrap();
    verify_email(&mut store, &reg.token, 1).unwrap();

    let issue = request_password_reset(
        &mut store,
        &ResetPayload { email: "alice@x.com".to_owned() },
        10,
        3_600,
    )
    .unwrap();
    assert_eq!(issue.user_id, reg.user_id);
    assert_eq!(issue.username, "alice");

    let new_password = VerifyResetPasswordPayload { password: "N3wPass!word".to_owned() };
    confirm_password_reset(&mut store, &issue.token, &new_password, 20).unwrap();

    // The second submission of the same token observes "token not found".
    match confirm_password_reset(&mut store, &issue.token, &new_password, 21) {
        Err(Error::UnprocessableEntity { errors }) => {
            assert_eq!(errors[0].message, "token not found");
            assert!(errors[0].domain.is_none());
        }
        other => panic!("expected token not found, got {:?}", other),
    }

    // The old password no longer logs in; the new one does.
    assert!(matches!(
        login(&mut store, &alice_login(), 30, 60),
        Err(Error::Unauthorized)
    ));
    let fresh = LoginPayload { email: "alice@x.com".to_owned(), password: "N3wPass!word".to_owned() };
    assert!(login(&mut store, &fresh, 31, 60).is_ok());
}

#[test]
fn reset_request_requires_verified_email() {
    let mut store = Store::new();
    register(&mut store, &alice_request(), 0, 3_600).unwrap();
    let r = request_password_reset(
        &mut store,
        &ResetPayload { email: "alice@x.com".to_owned() },
        10,
        3_600,
    );
    assert!(matches!(r, Err(Error::NotVerified)));
}

#[test]
fn expired_verification_token_reports_expired() {
    let mut store = Store::new();
    let reg = register(&mut store, &alice_request(), 1_000, 10).unwrap();
    // Expiry is 1_010; at 1_010 the token is already expired.
    match verify_email(&mut store, &reg.token, 1_010) {
        Err(Error::UnprocessableEntity { errors }) => {
            assert_eq!(errors[0].message, "token expired");
        }
        other => panic!("expected token expired, got {:?}", other),
    }
    // The user stays unverified: login still refuses.
    assert!(matches!(
        login(&mut store, &alice_login(), 1_011, 60),
        Err(Error::NotVerified)
    ));
}

#[test]
fn end_to_end_scenario() {
    let mut store = Store::new();
    let payload = alice_request();
    payload.validate().unwrap();

    // register -> created
    let reg = register(&mut store, &payload, 0, 3_600).unwrap();

    // login before verification -> NotVerified (401)
    let early = login(&mut store, &alice_login(), 1, 1_800).unwrap_err();
    assert!(matches!(early, Error::NotVerified));
    assert_eq!(early.status_code(), 401);

    // verify-email with the correct token -> 204 (success, no body)
    verify_email(&mut store, &reg.token, 2).unwrap();

    // login -> 200 with cookie
    let success = login(&mut store, &alice_login(), 3, 1_800).unwrap();
    let cookie = session_cookie_value(success.session_id);
    assert_eq!(cookie.len(), 36);

    // GET /protected with the cookie -> authenticated as the same user
    let ctx = authenticate(&store, Some(&cookie), 4).unwrap();
    assert_eq!(ctx.user_id, reg.user_id);

    // GET /protected with no cookie -> NotFound (404)
    let missing = authenticate(&store, None, 4).unwrap_err();
    assert_eq!(missing.status_code(), 404);
}

#[test]
fn cookie_value_round_trips_through_the_parser() {
    let id: u128 = 0x0123_4567_89ab_cdef_0123_4567_89ab_cdef;
    let cookie = session_cookie_value(id);
    assert_eq!(cookie.len(), 36);
    assert_eq!(parse_session_uuid(&cookie), Some(id));
    assert_eq!(parse_session_uuid("definitely not a uuid"), None);
}
