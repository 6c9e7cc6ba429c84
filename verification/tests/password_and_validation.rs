use auth_core::email::{reset_password_link, verification_link};
use auth_core::password::{contains_special_char, hash_password, validate_password, verify_password};
use auth_core::payload::{LoginPayload, ResetPayload, UserRequest, VerifyResetPasswordPayload};
use auth_core::Error;

#[test]
fn hash_is_deterministic_with_known_values() {
    // FNV-1a 64-bit test vectors: the empty string hashes to the offset
    // basis, and "a" to 0xaf63dc4c8601ec8c.
    assert_eq!(hash_password(""), "cbf29ce484222325");
    assert_eq!(hash_password("a"), "af63dc4c8601ec8c");
    assert_eq!(hash_password("Passw0rd!"), hash_password("Passw0rd!"));
    assert_ne!(hash_password("Passw0rd!"), hash_password("Passw0rd?"));
    assert_eq!(hash_password("anything").len(), 16);
}

#[test]
fn verify_accepts_only_the_hashed_password() {
    let stored = hash_password("S3cret!pw");
    assert!(verify_password("S3cret!pw", &stored).is_ok());
    let wrong = verify_password("S3cret!pW", &stored);
    assert!(matches!(wrong, Err(Error::Unauthorized)));
}

#[test]
fn password_complexity_rules() {
    assert!(validate_password("Passw0rd"));
    // Missing an uppercase letter, a lowercase letter, or a digit fails.
    assert!(!validate_password("passw0rd"));
    assert!(!validate_password("PASSW0RD"));
    assert!(!validate_password("Password"));
    // Spaces are refused outright.
    assert!(!validate_password("Pass w0rd"));
    assert!(!validate_password(""));
}

#[test]
fn special_character_rule() {
    for c in ['@', '$', '!', '%', '*', '?', '&'] {
        assert!(contains_special_char(&format!("abc{}def", c)));
    }
    assert!(!contains_special_char("Passw0rd"));
    assert!(!contains_special_char(""));
}

#[test]
fn register_payload_validation_collects_field_errors() {
    let bad = UserRequest {
        username: "".to_owned(),
        email: "not-an-email".to_owned(),
        password: "weak".to_owned(),
    };
    match bad.validate() {
        Err(Error::UnprocessableEntity { errors }) => {
            assert_eq!(errors.len(), 4);
            assert_eq!(errors[0].domain.as_deref(), Some("username"));
            assert_eq!(errors[0].message, "Can not be empty");
            assert_eq!(errors[1].domain.as_deref(), Some("email"));
            assert_eq!(
                errors[2].message,
                "Must Contain At Least One Upper Case, Lower Case and Number. Dont use spaces."
            );
            assert_eq!(errors[3].message, "Must Contain At Least One Special Character");
        }
        _ => panic!("expected four field errors"),
    }

    let good = UserRequest {
        username: "alice".to_owned(),
        email: "alice@x.com".to_owned(),
        password: "Passw0rd!".to_owned(),
    };
    assert!(good.validate().is_ok());
}

#[test]
fn login_payload_validation() {
    let bad = LoginPayload { email: "nope".to_owned(), password: "".to_owned() };
    match bad.validate() {
        Err(Error::UnprocessableEntity { errors }) => {
            assert_eq!(errors.len(), 2);
            assert_eq!(errors[0].domain.as_deref(), Some("email"));
            assert_eq!(errors[1].domain.as_deref(), Some("password"));
            assert_eq!(errors[1].message, "Can not be empty");
        }
        _ => panic!("expected two field errors"),
    }
    let good = LoginPayload { email: "alice@x.com".to_owned(), password: "p".to_owned() };
    assert!(good.validate().is_ok());
}

#[test]
fn reset_payload_validation() {
    assert!(ResetPayload { email: "alice@x.com".to_owned() }.validate().is_ok());
    assert!(ResetPayload { email: "@@".to_owned() }.validate().is_err());

    let weak = VerifyResetPasswordPayload { password: "weak".to_owned() };
    assert!(weak.validate().is_err());
    let strong = VerifyResetPasswordPayload { password: "N3wPass!word".to_owned() };
    assert!(strong.validate().is_ok());
}

#[test]
fn email_links_embed_the_token() {
    assert_eq!(
        verification_link("http://localhost:1234", "abc123XY"),
        "http://localhost:1234/api/auth/verify-email/abc123XY"
    );
    assert_eq!(
        reset_password_link("https://example.com", "t0kent0k"),
        "https://example.com/api/auth/reset-password/t0kent0k"
    );
}

#[test]
fn error_statuses_and_envelopes() {
    assert_eq!(Error::Unauthorized.status_code(), 401);
    assert_eq!(Error::NotVerified.status_code(), 401);
    assert_eq!(Error::Forbidden.status_code(), 403);
    assert_eq!(Error::NotFound.status_code(), 404);
    assert_eq!(Error::BadRequest.status_code(), 400);
    assert_eq!(Error::UnprocessableEntity { errors: vec![] }.status_code(), 422);
    assert_eq!(Error::Uuid.status_code(), 500);
    assert_eq!(Error::Internal.status_code(), 500);

    let (status, body) = Error::Unauthorized.into_response_parts();
    assert_eq!(status, 401);
    assert_eq!(body.error.message, "Invalid user credential");
    let errors = body.error.errors.unwrap();
    assert_eq!(errors[0].message, "Invalid username or password");
    assert_eq!(errors[0].domain.as_deref(), Some("auth"));

    let (status, body) = Error::Forbidden.into_response_parts();
    assert_eq!(status, 403);
    assert_eq!(body.error.message, "Unauthorized");

    let (status, body) = Error::Internal.into_response_parts();
    assert_eq!(status, 500);
    assert_eq!(body.error.message, "Internal server error");
    assert!(body.error.errors.is_none());

    let (status, body) = Error::NotVerified.into_response_parts();
    assert_eq!(status, 401);
    assert_eq!(body.error.message, "Not Verified");
    let errors = body.error.errors.unwrap();
    assert_eq!(errors[0].message, "Email not verified");
    assert_eq!(errors[0].domain.as_deref(), Some("email"));
}

#[test]
fn email_validation_follows_the_html5_shape() {
    assert!(auth_core::ext::is_valid_email("alice@x.com"));
    assert!(auth_core::ext::is_valid_email("a.b+c@sub.example.org"));
    assert!(!auth_core::ext::is_valid_email(""));
    assert!(!auth_core::ext::is_valid_email("no-at-sign"));
    assert!(!auth_core::ext::is_valid_email("two@@x.com"));
}
