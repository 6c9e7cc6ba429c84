//! The computed part of outbound email: the links embedded in verification
//! and reset messages, and the shape of the email service's reply. Transport
//! belongs to the surrounding program.
use vstd::prelude::*;
use vstd::string::StringExecFns;

verus! {

/// One entry of the email service's reply.
pub struct DataItem {
    pub code: String,
    pub additional_info: Vec<String>,
    pub message: String,
}

/// The email service's reply to a send request.
pub struct EmailResponse {
    pub data: Vec<DataItem>,
    pub message: String,
    pub request_id: String,
    pub object: String,
}

/// The link a verification email carries: the verify-email endpoint under
/// the configured host, with the token as the path tail.
pub fn verification_link(host: &str, token: &str) -> (r: String)
    ensures
        r@ == host@ + "/api/auth/verify-email/"@ + token@,
{
    let mut link = host.to_owned();
    link.append("/api/auth/verify-email/");
    link.append(token);
    link
}

/// The link a reset email carries: the reset-password endpoint under the
/// configured host, with the token as the path tail.
pub fn reset_password_link(host: &str, token: &str) -> (r: String)
    ensures
        r@ == host@ + "/api/auth/reset-password/"@ + token@,
{
    let mut link = host.to_owned();
    link.append("/api/auth/reset-password/");
    link.append(token);
    link
}

} // verus!
