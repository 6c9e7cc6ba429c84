//! The closed error taxonomy of the authentication core, and the single
//! exhaustive mapping from each variant to its HTTP status and stable JSON
//! error envelope `{error: {message, errors?}}`.
use vstd::prelude::*;

verus! {

/// A single field-level error carried inside an unprocessable-entity
/// response: a human-readable message and the domain (field) it concerns.
#[derive(Debug, Clone)]
pub struct FieldError {
    pub message: String,
    pub domain: Option<String>,
}

/// The abstract value of a [`FieldError`]: its message and domain as
/// character sequences.
pub struct FieldErrorV {
    pub message: Seq<char>,
    pub domain: Option<Seq<char>>,
}

impl View for FieldError {
    type V = FieldErrorV;

    open spec fn view(&self) -> FieldErrorV {
        FieldErrorV {
            message: self.message@,
            domain: match self.domain {
                Some(d) => Some(d@),
                None => None,
            },
        }
    }
}

impl FieldError {
    pub fn new(domain: Option<&str>, message: &str) -> (r: FieldError)
        ensures
            r@.message == message@,
            r@.domain == match domain {
                Some(d) => Some(d@),
                None => None::<Seq<char>>,
            },
    {
        match domain {
            Some(val) => FieldError { domain: Some(val.to_owned()), message: message.to_owned() },
            None => FieldError { domain: None, message: message.to_owned() },
        }
    }
}

/// The failure classes a flow or the middleware can report. Storage, network and
/// other unexpected collaborator failures are collapsed into `Internal`;
/// a session cookie that does not parse as a UUID is the `Uuid` class.
#[derive(Debug)]
pub enum Error {
    Unauthorized,
    NotVerified,
    Forbidden,
    NotFound,
    BadRequest,
    UnprocessableEntity { errors: Vec<FieldError> },
    Uuid,
    Internal,
}

/// The abstract value of an [`Error`].
pub enum ErrorV {
    Unauthorized,
    NotVerified,
    Forbidden,
    NotFound,
    BadRequest,
    UnprocessableEntity(Seq<FieldErrorV>),
    Uuid,
    Internal,
}

impl View for Error {
    type V = ErrorV;

    open spec fn view(&self) -> ErrorV {
        match self {
            Error::Unauthorized => ErrorV::Unauthorized,
            Error::NotVerified => ErrorV::NotVerified,
            Error::Forbidden => ErrorV::Forbidden,
            Error::NotFound => ErrorV::NotFound,
            Error::BadRequest => ErrorV::BadRequest,
            Error::UnprocessableEntity { errors } => ErrorV::UnprocessableEntity(
                errors@.map_values(|f: FieldError| f@),
            ),
            Error::Uuid => ErrorV::Uuid,
            Error::Internal => ErrorV::Internal,
        }
    }
}

/// An unprocessable-entity value holding exactly one field error with the
/// given domain and message.
pub open spec fn unprocessable_with(e: ErrorV, domain: Seq<char>, message: Seq<char>) -> bool {
    &&& e matches ErrorV::UnprocessableEntity(es)
    &&& es.len() == 1
    &&& es[0].message == message
    &&& es[0].domain == Some(domain)
}

/// An unprocessable-entity value holding exactly one field error with the
/// given message and no domain.
pub open spec fn unprocessable_nofield(e: ErrorV, message: Seq<char>) -> bool {
    &&& e matches ErrorV::UnprocessableEntity(es)
    &&& es.len() == 1
    &&& es[0].message == message
    &&& es[0].domain is None
}

/// The HTTP status owed to each error class.
pub open spec fn spec_status_code(e: ErrorV) -> u16 {
    match e {
        ErrorV::Unauthorized => 401,
        ErrorV::NotVerified => 401,
        ErrorV::Forbidden => 403,
        ErrorV::NotFound => 404,
        ErrorV::UnprocessableEntity(_) => 422,
        ErrorV::Uuid => 500,
        ErrorV::Internal => 500,
        ErrorV::BadRequest => 400,
    }
}

impl Error {
    pub fn unprocessable_entity(error: FieldError) -> (r: Error)
        ensures
            r@ matches ErrorV::UnprocessableEntity(es) && es =~= seq![error@],
    {
        let errors = vec![error];
        proof {
            assert(errors@.map_values(|f: FieldError| f@) =~= seq![error@]);
        }
        Error::UnprocessableEntity { errors }
    }

    pub fn status_code(&self) -> (r: u16)
        ensures
            r == spec_status_code(self@),
    {
        match self {
            Error::Unauthorized | Error::NotVerified => 401,
            Error::Forbidden => 403,
            Error::NotFound => 404,
            Error::UnprocessableEntity { .. } => 422,
            Error::Uuid | Error::Internal => 500,
            Error::BadRequest => 400,
        }
    }
}

/// The payload of the stable JSON error envelope.
pub struct ClientError {
    pub message: String,
    pub errors: Option<Vec<FieldError>>,
}

/// The stable JSON error envelope: `{error: {message, errors?}}`.
pub struct ClientErrorResponse {
    pub error: ClientError,
}

impl ClientErrorResponse {
    pub fn new(errors: FieldError, message: &str) -> (r: ClientErrorResponse)
        ensures
            r.error.message@ == message@,
            r.error.errors matches Some(es) && es@.len() == 1 && es@[0]@ == errors@,
    {
        let es = vec![errors];
        ClientErrorResponse { error: ClientError { errors: Some(es), message: message.to_owned() } }
    }

    pub fn new_message(message: &str) -> (r: ClientErrorResponse)
        ensures
            r.error.message@ == message@,
            r.error.errors is None,
    {
        ClientErrorResponse { error: ClientError { errors: None, message: message.to_owned() } }
    }

    pub fn new_from_vec(errors: Vec<FieldError>, message: &str) -> (r: ClientErrorResponse)
        ensures
            r.error.message@ == message@,
            r.error.errors matches Some(es) && es == errors,
    {
        ClientErrorResponse { error: ClientError { errors: Some(errors), message: message.to_owned() } }
    }
}

impl Error {
    /// The exhaustive mapping from an error value to the HTTP status and
    /// response envelope owed to the caller. Infrastructure classes surface
    /// only an opaque internal-server-error body: no detail leaks.
    pub fn into_response_parts(self) -> (r: (u16, ClientErrorResponse))
        ensures
            r.0 == spec_status_code(self@),
            self@ matches ErrorV::UnprocessableEntity(es) ==> {
                &&& r.1.error.message@ == "Unprocessable entity"@
                &&& r.1.error.errors matches Some(v) && v@.map_values(|f: FieldError| f@) == es
            },
            self@ is NotVerified ==> {
                &&& r.1.error.message@ == "Not Verified"@
                &&& r.1.error.errors matches Some(v) && ({
                    &&& v@.len() == 1
                    &&& v@[0]@.message == "Email not verified"@
                    &&& v@[0]@.domain == Some("email"@)
                })
            },
            self@ is Unauthorized ==> {
                &&& r.1.error.message@ == "Invalid user credential"@
                &&& r.1.error.errors matches Some(v) && ({
                    &&& v@.len() == 1
                    &&& v@[0]@.message == "Invalid username or password"@
                    &&& v@[0]@.domain == Some("auth"@)
                })
            },
            self@ is Forbidden ==> {
                &&& r.1.error.message@ == "Unauthorized"@
                &&& r.1.error.errors matches Some(v) && ({
                    &&& v@.len() == 1
                    &&& v@[0]@.message == "Not Permitted"@
                    &&& v@[0]@.domain == Some("auth"@)
                })
            },
            self@ is NotFound ==> r.1.error.message@ == "Not found"@ && r.1.error.errors is None,
            self@ is BadRequest ==> r.1.error.message@ == "Bad request"@ && r.1.error.errors
                is None,
            self@ is Uuid || self@ is Internal ==> r.1.error.message@ == "Internal server error"@
                && r.1.error.errors is None,
    {
        let status = self.status_code();
        match self {
            Error::NotVerified => (
                status,
                ClientErrorResponse::new(
                    FieldError::new(Some("email"), "Email not verified"),
                    "Not Verified",
                ),
            ),
            Error::UnprocessableEntity { errors } => (
                status,
                ClientErrorResponse::new_from_vec(errors, "Unprocessable entity"),
            ),
            Error::Unauthorized => (
                status,
                ClientErrorResponse::new(
                    FieldError::new(Some("auth"), "Invalid username or password"),
                    "Invalid user credential",
                ),
            ),
            Error::Forbidden => (
                status,
                ClientErrorResponse::new(
                    FieldError::new(Some("auth"), "Not Permitted"),
                    "Unauthorized",
                ),
            ),
            Error::NotFound => (status, ClientErrorResponse::new_message("Not found")),
            Error::BadRequest => (status, ClientErrorResponse::new_message("Bad request")),
            Error::Uuid => (status, ClientErrorResponse::new_message("Internal server error")),
            Error::Internal => (status, ClientErrorResponse::new_message("Internal server error")),
        }
    }
}

} // verus!
