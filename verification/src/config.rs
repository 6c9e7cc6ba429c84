//! The configuration parameters of the application: connection and service
//! endpoints, signing and template keys, and the session and token
//! lifetimes, in seconds. How the values are obtained (environment, command
//! line) is the surrounding program's concern.
use vstd::prelude::*;

verus! {

/// The configuration parameters for the application.
pub struct Config {
    /// The connection URL for the database this application should use.
    pub database_url: String,
    /// The HMAC signing and verification key used for login tokens.
    pub hmac_key: String,
    /// Lifetime of a session issued at login, in seconds.
    pub short_session_time: usize,
    /// Lifetime of an emailed verification or reset token, in seconds.
    pub email_token_time: usize,
    /// Lifetime of a long-lived session, in seconds: a policy hook, unused
    /// by the current flows.
    pub long_session_time: usize,
    /// The key presented to the email service.
    pub email_key: String,
    /// The email service's template for verification mail.
    pub email_verification_template_key: String,
    /// The email service's template for reset mail.
    pub email_reset_password_template_key: String,
    /// The public host name links are built against.
    pub host: String,
    /// The email service's endpoint.
    pub email_service_url: String,
    /// The email service's template endpoint.
    pub email_service_url_template: String,
    /// The sender address of outbound mail.
    pub email_sender_address: String,
    /// The company name merged into reset mail.
    pub company: String,
}

} // verus!
