//! The request payloads of the four user-facing endpoints, and their
//! validation rules: which field errors a payload earns, stated exactly.
use vstd::prelude::*;

use crate::errors::Error;
use crate::errors::ErrorV;
use crate::errors::FieldError;
use crate::errors::FieldErrorV;
use crate::ext::email_ok;
use crate::ext::is_valid_email;
use crate::password::contains_special_char;
use crate::password::has_special_char;
use crate::password::password_complexity_ok;
use crate::password::validate_password;

verus! {

/// The login request: an email address and a password.
pub struct LoginPayload {
    pub email: String,
    pub password: String,
}

/// The registration request: a username, an email address and a password.
pub struct UserRequest {
    pub username: String,
    pub email: String,
    pub password: String,
}

/// The password-reset request: the account's email address.
pub struct ResetPayload {
    pub email: String,
}

/// The reset confirmation: the new password.
pub struct VerifyResetPasswordPayload {
    pub password: String,
}

/// A field error with the given domain and message.
pub open spec fn field_error(domain: Seq<char>, message: Seq<char>) -> FieldErrorV {
    FieldErrorV { message, domain: Some(domain) }
}

/// The field errors a registration payload earns: an empty username, an
/// email that fails the well-formedness check, a password that misses the
/// complexity rule, and a password without a special character, in field
/// order.
pub open spec fn register_field_errors(
    username: Seq<char>,
    email: Seq<char>,
    password: Seq<char>,
) -> Seq<FieldErrorV> {
    (if username.len() == 0 {
        seq![field_error("username"@, "Can not be empty"@)]
    } else {
        Seq::empty()
    }) + (if !email_ok(email) {
        seq![field_error("email"@, "invalid email"@)]
    } else {
        Seq::empty()
    }) + (if !password_complexity_ok(password) {
        seq![
            field_error(
                "password"@,
                "Must Contain At Least One Upper Case, Lower Case and Number. Dont use spaces."@,
            ),
        ]
    } else {
        Seq::empty()
    }) + (if !has_special_char(password) {
        seq![field_error("password"@, "Must Contain At Least One Special Character"@)]
    } else {
        Seq::empty()
    })
}

/// The field errors a login payload earns: a malformed email and an empty
/// password.
pub open spec fn login_field_errors(email: Seq<char>, password: Seq<char>) -> Seq<FieldErrorV> {
    (if !email_ok(email) {
        seq![field_error("email"@, "invalid email"@)]
    } else {
        Seq::empty()
    }) + (if password.len() == 0 {
        seq![field_error("password"@, "Can not be empty"@)]
    } else {
        Seq::empty()
    })
}

/// The field errors a reset request earns: a malformed email.
pub open spec fn reset_field_errors(email: Seq<char>) -> Seq<FieldErrorV> {
    if !email_ok(email) {
        seq![field_error("email"@, "invalid email"@)]
    } else {
        Seq::empty()
    }
}

/// The field errors a reset confirmation earns: the password complexity and
/// special-character rules.
pub open spec fn reset_password_field_errors(password: Seq<char>) -> Seq<FieldErrorV> {
    (if !password_complexity_ok(password) {
        seq![
            field_error(
                "password"@,
                "Must Contain At Least One Upper Case, Lower Case and Number. Dont use spaces."@,
            ),
        ]
    } else {
        Seq::empty()
    }) + (if !has_special_char(password) {
        seq![field_error("password"@, "Must Contain At Least One Special Character"@)]
    } else {
        Seq::empty()
    })
}

/// The abstract values of a vector of field errors.
pub open spec fn field_errors_view(es: Seq<FieldError>) -> Seq<FieldErrorV> {
    es.map_values(|f: FieldError| f@)
}

impl UserRequest {
    /// Validates a registration payload: succeeds exactly when no field
    /// earns an error, and otherwise reports all earned field errors.
    pub fn validate(&self) -> (r: Result<(), Error>)
        ensures
            r is Ok <==> register_field_errors(self.username@, self.email@, self.password@).len()
                == 0,
            r matches Err(e) ==> e@ == ErrorV::UnprocessableEntity(
                register_field_errors(self.username@, self.email@, self.password@),
            ),
    {
        let mut errors: Vec<FieldError> = Vec::new();
        if self.username.as_str().is_empty() {
            errors.push(FieldError::new(Some("username"), "Can not be empty"));
        }
        if !is_valid_email(self.email.as_str()) {
            errors.push(FieldError::new(Some("email"), "invalid email"));
        }
        if !validate_password(self.password.as_str()) {
            errors.push(
                FieldError::new(
                    Some("password"),
                    "Must Contain At Least One Upper Case, Lower Case and Number. Dont use spaces.",
                ),
            );
        }
        if !contains_special_char(self.password.as_str()) {
            errors.push(
                FieldError::new(Some("password"), "Must Contain At Least One Special Character"),
            );
        }
        proof {
            assert(field_errors_view(errors@) =~= register_field_errors(
                self.username@,
                self.email@,
                self.password@,
            ));
        }
        if errors.is_empty() {
            Ok(())
        } else {
            Err(Error::UnprocessableEntity { errors })
        }
    }
}

impl LoginPayload {
    /// Validates a login payload: a well-formed email and a nonempty
    /// password.
    pub fn validate(&self) -> (r: Result<(), Error>)
        ensures
            r is Ok <==> login_field_errors(self.email@, self.password@).len() == 0,
            r matches Err(e) ==> e@ == ErrorV::UnprocessableEntity(
                login_field_errors(self.email@, self.password@),
            ),
    {
        let mut errors: Vec<FieldError> = Vec::new();
        if !is_valid_email(self.email.as_str()) {
            errors.push(FieldError::new(Some("email"), "invalid email"));
        }
        if self.password.as_str().is_empty() {
            errors.push(FieldError::new(Some("password"), "Can not be empty"));
        }
        proof {
            assert(field_errors_view(errors@) =~= login_field_errors(
                self.email@,
                self.password@,
            ));
        }
        if errors.is_empty() {
            Ok(())
        } else {
            Err(Error::UnprocessableEntity { errors })
        }
    }
}

impl ResetPayload {
    /// Validates a reset request: a well-formed email.
    pub fn validate(&self) -> (r: Result<(), Error>)
        ensures
            r is Ok <==> reset_field_errors(self.email@).len() == 0,
            r matches Err(e) ==> e@ == ErrorV::UnprocessableEntity(
                reset_field_errors(self.email@),
            ),
    {
        let mut errors: Vec<FieldError> = Vec::new();
        if !is_valid_email(self.email.as_str()) {
            errors.push(FieldError::new(Some("email"), "invalid email"));
        }
        proof {
            assert(field_errors_view(errors@) =~= reset_field_errors(self.email@));
        }
        if errors.is_empty() {
            Ok(())
        } else {
            Err(Error::UnprocessableEntity { errors })
        }
    }
}

impl VerifyResetPasswordPayload {
    /// Validates a reset confirmation: the new password meets the
    /// complexity and special-character rules.
    pub fn validate(&self) -> (r: Result<(), Error>)
        ensures
            r is Ok <==> reset_password_field_errors(self.password@).len() == 0,
            r matches Err(e) ==> e@ == ErrorV::UnprocessableEntity(
                reset_password_field_errors(self.password@),
            ),
    {
        let mut errors: Vec<FieldError> = Vec::new();
        if !validate_password(self.password.as_str()) {
            errors.push(
                FieldError::new(
                    Some("password"),
                    "Must Contain At Least One Upper Case, Lower Case and Number. Dont use spaces.",
                ),
            );
        }
        if !contains_special_char(self.password.as_str()) {
            errors.push(
                FieldError::new(Some("password"), "Must Contain At Least One Special Character"),
            );
        }
        proof {
            assert(field_errors_view(errors@) =~= reset_password_field_errors(self.password@));
        }
        if errors.is_empty() {
            Ok(())
        } else {
            Err(Error::UnprocessableEntity { errors })
        }
    }
}

} // verus!
