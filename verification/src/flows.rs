//! The five user-facing flows — register, login, request password reset,
//! confirm password reset, and verify email — as verified state machines
//! over the credential store. Each flow has a mathematical model
//! (`spec_register`, `spec_login`, ...) and an executable function proved to
//! implement it; randomness (fresh ids, minted tokens) enters only as
//! arguments or through the trusted boundary.
use vstd::prelude::*;
use vstd::string::StringExecFns;

use crate::errors::Error;
use crate::errors::FieldError;
use crate::errors::unprocessable_nofield;
use crate::errors::unprocessable_with;
use crate::ext::fresh_uuid;
use crate::ext::generate_verification_token;
use crate::ext::is_token_char;
use crate::model::StoreV;
use crate::model::TokenV;
use crate::model::UserV;
use crate::model::session_by_id;
use crate::model::store_wf;
use crate::model::token_by_id;
use crate::model::user_by_email;
use crate::model::user_by_id;
use crate::model::user_by_username;
use crate::model::with_user_password;
use crate::model::with_user_verified;
use crate::password::hash_password;
use crate::password::spec_hash_password;
use crate::password::verify_password;
use crate::payload::LoginPayload;
use crate::payload::ResetPayload;
use crate::payload::UserRequest;
use crate::payload::VerifyResetPasswordPayload;
use crate::store::MyData;
use crate::store::Store;
use crate::store::UserResponse;
use crate::store::response_matches_user;
use crate::token::ConsumeOutcome;
use crate::token::TOKEN_LENGTH;
use crate::token::TokenError;
use crate::token::TokenKind;
use crate::token::sat_add;
use crate::token::spec_consume;
use crate::token::validate_and_consume;

verus! {

/// The opaque settings payload every fresh session starts with.
pub open spec fn default_session_data() -> Seq<char> {
    "DUMMY"@
}

/// What registration returns on success: the new user's id and the
/// verification token to embed in the emailed link.
#[derive(Debug)]
pub struct Registration {
    pub user_id: u128,
    pub token: String,
}

/// The outcome of registration, at the level of the model.
pub enum RegisterOutcome {
    /// The username is taken; nothing changed.
    UsernameTaken,
    /// The email is taken; nothing changed.
    EmailTaken,
    /// The chosen user id collides with a stored one; nothing changed.
    IdCollision,
    /// The minted token collides with a stored one; the user row remains —
    /// there is no compensating rollback.
    TokenCollision,
    /// The user row and its verification token are persisted.
    Registered,
}

/// What registration does to the store: hash the password, insert the user
/// (unverified), then persist a verification token expiring `ttl` seconds
/// from `now`.
pub open spec fn spec_register(
    s: StoreV,
    username: Seq<char>,
    email: Seq<char>,
    password: Seq<char>,
    user_id: u128,
    token: Seq<char>,
    now: i64,
    ttl: u64,
) -> (StoreV, RegisterOutcome) {
    if user_by_username(s.users, username) is Some {
        (s, RegisterOutcome::UsernameTaken)
    } else if user_by_email(s.users, email) is Some {
        (s, RegisterOutcome::EmailTaken)
    } else if user_by_id(s.users, user_id) is Some {
        (s, RegisterOutcome::IdCollision)
    } else {
        let s1 = StoreV {
            users: s.users.push(
                UserV {
                    id: user_id,
                    username,
                    email,
                    email_verified: false,
                    password_hash: spec_hash_password(password),
                    created_at: now,
                    updated_at: now,
                },
            ),
            ..s
        };
        if token_by_id(s.verification_tokens, token) is Some {
            (s1, RegisterOutcome::TokenCollision)
        } else {
            (
                StoreV {
                    verification_tokens: s.verification_tokens.push(
                        TokenV { id: token, active_expires: sat_add(now, ttl), user_id },
                    ),
                    ..s1
                },
                RegisterOutcome::Registered,
            )
        }
    }
}

/// Registration with the fresh user id and minted token supplied as
/// arguments: exactly [`spec_register`] of them.
pub fn register_with(
    store: &mut Store,
    payload: &UserRequest,
    user_id: u128,
    token: &str,
    now: i64,
    ttl: u64,
) -> (r: Result<Registration, Error>)
    requires
        store_wf(old(store)@),
    ensures
        store_wf(final(store)@),
        final(store)@ == spec_register(
            old(store)@,
            payload.username@,
            payload.email@,
            payload.password@,
            user_id,
            token@,
            now,
            ttl,
        ).0,
        match spec_register(
            old(store)@,
            payload.username@,
            payload.email@,
            payload.password@,
            user_id,
            token@,
            now,
            ttl,
        ).1 {
            RegisterOutcome::UsernameTaken => r matches Err(e) && unprocessable_with(
                e@,
                "username"@,
                "username taken"@,
            ),
            RegisterOutcome::EmailTaken => r matches Err(e) && unprocessable_with(
                e@,
                "email"@,
                "email taken"@,
            ),
            RegisterOutcome::IdCollision => r matches Err(e) && e@ is Internal,
            RegisterOutcome::TokenCollision => r matches Err(e) && e@ is Internal,
            RegisterOutcome::Registered => r matches Ok(reg) && reg.user_id == user_id
                && reg.token@ == token@,
        },
{
    let password_hash = hash_password(payload.password.as_str());
    match store.create_user(
        user_id,
        payload.username.as_str(),
        payload.email.as_str(),
        password_hash.as_str(),
        now,
    ) {
        Err(e) => Err(e),
        Ok(id) => {
            let expires = crate::token::expiry_timestamp(now, ttl);
            match store.insert_verification_token(token, expires, id) {
                Err(e) => Err(e),
                Ok(_) => Ok(Registration { user_id: id, token: token.to_owned() }),
            }
        },
    }
}

/// Registration as the handler runs it: a fresh user id and a minted token.
/// The username and email conflicts are reported exactly as in
/// [`spec_register`], whatever random values were drawn; an internal error
/// can arise only from a collision of those values.
pub fn register(store: &mut Store, payload: &UserRequest, now: i64, ttl: u64) -> (r: Result<
    Registration,
    Error,
>)
    requires
        store_wf(old(store)@),
    ensures
        store_wf(final(store)@),
        user_by_username(old(store)@.users, payload.username@) is Some ==> ({
            &&& r matches Err(e) && unprocessable_with(e@, "username"@, "username taken"@)
            &&& final(store)@ == old(store)@
        }),
        (user_by_username(old(store)@.users, payload.username@) is None && user_by_email(
            old(store)@.users,
            payload.email@,
        ) is Some) ==> ({
            &&& r matches Err(e) && unprocessable_with(e@, "email"@, "email taken"@)
            &&& final(store)@ == old(store)@
        }),
        match r {
            Ok(reg) => ({
                &&& reg.token@.len() == TOKEN_LENGTH as nat
                &&& forall|i: int| 0 <= i < reg.token@.len() ==> is_token_char(reg.token@[i])
                &&& spec_register(
                    old(store)@,
                    payload.username@,
                    payload.email@,
                    payload.password@,
                    reg.user_id,
                    reg.token@,
                    now,
                    ttl,
                ).1 is Registered
                &&& final(store)@ == spec_register(
                    old(store)@,
                    payload.username@,
                    payload.email@,
                    payload.password@,
                    reg.user_id,
                    reg.token@,
                    now,
                    ttl,
                ).0
            }),
            Err(e) => ({
                &&& (e@ is Internal ==> user_by_username(old(store)@.users, payload.username@)
                    is None && user_by_email(old(store)@.users, payload.email@) is None)
                &&& ((user_by_username(old(store)@.users, payload.username@) is None
                    && user_by_email(old(store)@.users, payload.email@) is None) ==> e@
                    is Internal)
                &&& exists|uid: u128, tok: Seq<char>|
                    {
                        &&& final(store)@ == #[trigger] spec_register(
                            old(store)@,
                            payload.username@,
                            payload.email@,
                            payload.password@,
                            uid,
                            tok,
                            now,
                            ttl,
                        ).0
                        &&& !(spec_register(
                            old(store)@,
                            payload.username@,
                            payload.email@,
                            payload.password@,
                            uid,
                            tok,
                            now,
                            ttl,
                        ).1 is Registered)
                    }
            }),
        },
    {
    let ghost s0 = store@;
    let user_id = fresh_uuid();
    let token = generate_verification_token(TOKEN_LENGTH);
    let r = register_with(store, payload, user_id, token.as_str(), now, ttl);
    proof {
        if r is Err {
            assert(store@ == spec_register(
                s0,
                payload.username@,
                payload.email@,
                payload.password@,
                user_id,
                token@,
                now,
                ttl,
            ).0 && !(spec_register(
                s0,
                payload.username@,
                payload.email@,
                payload.password@,
                user_id,
                token@,
                now,
                ttl,
            ).1 is Registered));
        }
    }
    r
}

/// What login returns on success: the session id to place in the cookie,
/// the cookie's absolute expiry, and the public view of the user.
#[derive(Debug)]
pub struct LoginSuccess {
    pub session_id: u128,
    pub expiry_date: i64,
    pub user: UserResponse,
}

/// The outcome of login, at the level of the model.
pub enum LoginOutcome {
    /// No user holds this email; nothing changed.
    UnknownEmail,
    /// The user has not verified their email; the password is never judged.
    NotVerified,
    /// The password does not hash to the stored hash; nothing changed.
    WrongPassword,
    /// The chosen session id collides with a stored one; nothing changed.
    SessionCollision,
    /// A session is persisted for the user.
    LoggedIn(crate::model::SessionV, UserV),
}

/// What login does to the store: find the user by email, require a verified
/// email, require the password to hash to the stored hash, then persist a
/// session expiring `ttl` seconds from `now`.
pub open spec fn spec_login(
    s: StoreV,
    email: Seq<char>,
    password: Seq<char>,
    session_id: u128,
    data: Seq<char>,
    now: i64,
    ttl: u64,
) -> (StoreV, LoginOutcome) {
    match user_by_email(s.users, email) {
        None => (s, LoginOutcome::UnknownEmail),
        Some(u) => if !u.email_verified {
            (s, LoginOutcome::NotVerified)
        } else if spec_hash_password(password) != u.password_hash {
            (s, LoginOutcome::WrongPassword)
        } else if session_by_id(s.sessions, session_id) is Some {
            (s, LoginOutcome::SessionCollision)
        } else {
            let sess = crate::model::SessionV {
                id: session_id,
                user_id: u.id,
                data,
                expiry_date: sat_add(now, ttl),
            };
            (StoreV { sessions: s.sessions.push(sess), ..s }, LoginOutcome::LoggedIn(sess, u))
        },
    }
}

/// Login with the fresh session id supplied as an argument: exactly
/// [`spec_login`] of it, with the default settings payload.
pub fn login_with(
    store: &mut Store,
    payload: &LoginPayload,
    session_id: u128,
    now: i64,
    ttl: u64,
) -> (r: Result<LoginSuccess, Error>)
    requires
        store_wf(old(store)@),
    ensures
        store_wf(final(store)@),
        final(store)@ == spec_login(
            old(store)@,
            payload.email@,
            payload.password@,
            session_id,
            default_session_data(),
            now,
            ttl,
        ).0,
        match spec_login(
            old(store)@,
            payload.email@,
            payload.password@,
            session_id,
            default_session_data(),
            now,
            ttl,
        ).1 {
            LoginOutcome::UnknownEmail => r matches Err(e) && unprocessable_with(
                e@,
                "email"@,
                "email does not exist"@,
            ),
            LoginOutcome::NotVerified => r matches Err(e) && e@ is NotVerified,
            LoginOutcome::WrongPassword => r matches Err(e) && e@ is Unauthorized,
            LoginOutcome::SessionCollision => r matches Err(e) && e@ is Internal,
            LoginOutcome::LoggedIn(sess, u) => r matches Ok(ls) && ls.session_id == session_id
                && ls.expiry_date == sess.expiry_date && response_matches_user(ls.user, u),
        },
{
    let user = match store.find_user_by_email(payload.email.as_str()) {
        Err(e) => {
            // An unknown email still pays the hashing cost, so this failure
            // and a wrong password differ only in their field-level detail,
            // not in the work done before answering.
            let _ = hash_password(payload.password.as_str());
            return Err(e);
        },
        Ok(u) => u,
    };
    if !user.email_verified {
        return Err(Error::NotVerified);
    }
    match verify_password(payload.password.as_str(), user.password_hash.as_str()) {
        Err(e) => {
            return Err(e);
        },
        Ok(_) => {},
    }
    let expiry = crate::token::expiry_timestamp(now, ttl);
    let data = MyData { settings: String::from_str("DUMMY") };
    let user_id = user.id;
    match store.create_session(session_id, user_id, data, expiry) {
        Err(e) => Err(e),
        Ok(resp) => Ok(
            LoginSuccess {
                session_id: resp.id,
                expiry_date: expiry,
                user: UserResponse::from(user),
            },
        ),
    }
}

/// Login as the handler runs it, with a fresh random session id. The
/// unknown-email, not-verified and wrong-password failures are exact,
/// whatever id was drawn; an internal error can arise only from a session-id
/// collision, so on correct, verified credentials against a store holding no
/// session, login is owed success.
pub fn login(store: &mut Store, payload: &LoginPayload, now: i64, ttl: u64) -> (r: Result<
    LoginSuccess,
    Error,
>)
    requires
        store_wf(old(store)@),
    ensures
        store_wf(final(store)@),
        match user_by_email(old(store)@.users, payload.email@) {
            None => r matches Err(e) && unprocessable_with(e@, "email"@, "email does not exist"@)
                && final(store)@ == old(store)@,
            Some(u) => if !u.email_verified {
                r matches Err(e) && e@ is NotVerified && final(store)@ == old(store)@
            } else if spec_hash_password(payload.password@) != u.password_hash {
                r matches Err(e) && e@ is Unauthorized && final(store)@ == old(store)@
            } else {
                match r {
                    Ok(ls) => ({
                        &&& response_matches_user(ls.user, u)
                        &&& ls.expiry_date == sat_add(now, ttl)
                        &&& spec_login(
                            old(store)@,
                            payload.email@,
                            payload.password@,
                            ls.session_id,
                            default_session_data(),
                            now,
                            ttl,
                        ).1 is LoggedIn
                        &&& final(store)@ == spec_login(
                            old(store)@,
                            payload.email@,
                            payload.password@,
                            ls.session_id,
                            default_session_data(),
                            now,
                            ttl,
                        ).0
                    }),
                    Err(e) => ({
                        &&& e@ is Internal
                        &&& final(store)@ == old(store)@
                        &&& old(store)@.sessions.len() > 0
                        &&& exists|sid: u128| #[trigger] session_by_id(
                            old(store)@.sessions,
                            sid,
                        ) is Some
                    }),
                }
            },
        },
{
    let ghost s0 = store@;
    let session_id = fresh_uuid();
    let r = login_with(store, payload, session_id, now, ttl);
    proof {
        if r is Err {
            match user_by_email(s0.users, payload.email@) {
                Some(u) => {
                    if u.email_verified && spec_hash_password(payload.password@)
                        == u.password_hash {
                        assert(session_by_id(s0.sessions, session_id) is Some);
                        crate::model::lemma_first_match_some(
                            s0.sessions,
                            |s: crate::model::SessionV| s.id == session_id,
                        );
                    }
                },
                None => {},
            }
        }
    }
    r
}

/// What a reset request returns on success: the owner and the minted reset
/// token to embed in the emailed link.
#[derive(Debug)]
pub struct ResetIssue {
    pub user_id: u128,
    pub username: String,
    pub token: String,
}

/// The outcome of a password-reset request, at the level of the model.
pub enum ResetRequestOutcome {
    /// No user holds this email; nothing changed.
    UnknownEmail,
    /// The user has not verified their email; nothing changed.
    NotVerified,
    /// The minted token collides with a stored one; nothing changed.
    TokenCollision,
    /// A reset token is persisted for the user.
    Issued(UserV),
}

/// What a reset request does to the store: find the user by email, require a
/// verified email, then persist a reset token expiring `ttl` seconds from
/// `now`.
pub open spec fn spec_request_reset(
    s: StoreV,
    email: Seq<char>,
    token: Seq<char>,
    now: i64,
    ttl: u64,
) -> (StoreV, ResetRequestOutcome) {
    match user_by_email(s.users, email) {
        None => (s, ResetRequestOutcome::UnknownEmail),
        Some(u) => if !u.email_verified {
            (s, ResetRequestOutcome::NotVerified)
        } else if token_by_id(s.reset_tokens, token) is Some {
            (s, ResetRequestOutcome::TokenCollision)
        } else {
            (
                StoreV {
                    reset_tokens: s.reset_tokens.push(
                        TokenV { id: token, active_expires: sat_add(now, ttl), user_id: u.id },
                    ),
                    ..s
                },
                ResetRequestOutcome::Issued(u),
            )
        },
    }
}

/// A reset request with the minted token supplied as an argument: exactly
/// [`spec_request_reset`] of it.
pub fn request_password_reset_with(
    store: &mut Store,
    payload: &ResetPayload,
    token: &str,
    now: i64,
    ttl: u64,
) -> (r: Result<ResetIssue, Error>)
    requires
        store_wf(old(store)@),
    ensures
        store_wf(final(store)@),
        final(store)@ == spec_request_reset(old(store)@, payload.email@, token@, now, ttl).0,
        match spec_request_reset(old(store)@, payload.email@, token@, now, ttl).1 {
            ResetRequestOutcome::UnknownEmail => r matches Err(e) && unprocessable_with(
                e@,
                "email"@,
                "email does not exist"@,
            ),
            ResetRequestOutcome::NotVerified => r matches Err(e) && e@ is NotVerified,
            ResetRequestOutcome::TokenCollision => r matches Err(e) && e@ is Internal,
            ResetRequestOutcome::Issued(u) => r matches Ok(ri) && ri.user_id == u.id
                && ri.username@ == u.username && ri.token@ == token@,
        },
{
    let user = match store.find_user_by_email(payload.email.as_str()) {
        Err(e) => {
            return Err(e);
        },
        Ok(u) => u,
    };
    if !user.email_verified {
        return Err(Error::NotVerified);
    }
    let expires = crate::token::expiry_timestamp(now, ttl);
    match store.insert_reset_password_token(token, expires, user.id) {
        Err(e) => Err(e),
        Ok(_) => Ok(
            ResetIssue { user_id: user.id, username: user.username, token: token.to_owned() },
        ),
    }
}

/// A reset request as the handler runs it, with a freshly minted token. The
/// unknown-email and not-verified failures are exact, whatever token was
/// drawn; an internal error can arise only from a token collision, so for a
/// verified user against an empty reset-token table the request is owed
/// success.
pub fn request_password_reset(store: &mut Store, payload: &ResetPayload, now: i64, ttl: u64) -> (r:
    Result<ResetIssue, Error>)
    requires
        store_wf(old(store)@),
    ensures
        store_wf(final(store)@),
        match user_by_email(old(store)@.users, payload.email@) {
            None => ({
                &&& r matches Err(e) && unprocessable_with(e@, "email"@, "email does not exist"@)
                &&& final(store)@ == old(store)@
            }),
            Some(u) => if !u.email_verified {
                r matches Err(e) && e@ is NotVerified && final(store)@ == old(store)@
            } else {
                match r {
                    Ok(ri) => ({
                        &&& ri.user_id == u.id
                        &&& ri.username@ == u.username
                        &&& ri.token@.len() == TOKEN_LENGTH as nat
                        &&& forall|i: int|
                            0 <= i < ri.token@.len() ==> is_token_char(ri.token@[i])
                        &&& spec_request_reset(
                            old(store)@,
                            payload.email@,
                            ri.token@,
                            now,
                            ttl,
                        ).1 is Issued
                        &&& final(store)@ == spec_request_reset(
                            old(store)@,
                            payload.email@,
                            ri.token@,
                            now,
                            ttl,
                        ).0
                    }),
                    Err(e) => ({
                        &&& e@ is Internal
                        &&& final(store)@ == old(store)@
                        &&& old(store)@.reset_tokens.len() > 0
                        &&& exists|tok: Seq<char>|
                            {
                                &&& tok.len() == TOKEN_LENGTH as nat
                                &&& forall|i: int| 0 <= i < tok.len() ==> is_token_char(tok[i])
                                &&& #[trigger] token_by_id(
                                    old(store)@.reset_tokens,
                                    tok,
                                ) is Some
                            }
                    }),
                }
            },
        },
{
    let ghost s0 = store@;
    let token = generate_verification_token(TOKEN_LENGTH);
    let r = request_password_reset_with(store, payload, token.as_str(), now, ttl);
    proof {
        if r is Err {
            match user_by_email(s0.users, payload.email@) {
                Some(u) => {
                    if u.email_verified {
                        assert(token_by_id(s0.reset_tokens, token@) is Some);
                        crate::model::lemma_first_match_some(
                            s0.reset_tokens,
                            |t: TokenV| t.id == token@,
                        );
                    }
                },
                None => {},
            }
        }
    }
    r
}

/// The outcome of a token-consuming flow, at the level of the model.
pub enum TokenFlowOutcome {
    /// The token row is absent; nothing changed.
    NotFound,
    /// The token sits past its expiry; nothing changed — the stale row is
    /// left for cleanup and no user state is touched.
    Expired,
    /// The token was consumed and the owning user's state updated.
    Done(u128),
}

/// What verifying an email does to the store: consume the verification
/// token, then mark its owner as email-verified.
pub open spec fn spec_verify_email(s: StoreV, token: Seq<char>, now: i64) -> (
    StoreV,
    TokenFlowOutcome,
) {
    let c = spec_consume(s.verification_tokens, token, now);
    match c.1 {
        ConsumeOutcome::NotFound => (s, TokenFlowOutcome::NotFound),
        ConsumeOutcome::Expired => (s, TokenFlowOutcome::Expired),
        ConsumeOutcome::Consumed(uid) => (
            StoreV {
                verification_tokens: c.0,
                users: with_user_verified(s.users, uid),
                ..s
            },
            TokenFlowOutcome::Done(uid),
        ),
    }
}

/// Verifies an email address: consumes the verification token as one atomic
/// step and flips the owner's `email_verified` flag exactly once.
pub fn verify_email(store: &mut Store, token: &str, now: i64) -> (r: Result<(), Error>)
    requires
        store_wf(old(store)@),
    ensures
        store_wf(final(store)@),
        final(store)@ == spec_verify_email(old(store)@, token@, now).0,
        match spec_verify_email(old(store)@, token@, now).1 {
            TokenFlowOutcome::NotFound => r matches Err(e) && unprocessable_nofield(
                e@,
                "token not found"@,
            ),
            TokenFlowOutcome::Expired => r matches Err(e) && unprocessable_nofield(
                e@,
                "token expired"@,
            ),
            TokenFlowOutcome::Done(_) => r is Ok,
        },
{
    match validate_and_consume(store, TokenKind::Verification, token, now) {
        Err(TokenError::TokenNotFound) => Err(
            Error::unprocessable_entity(FieldError::new(None, "token not found")),
        ),
        Err(TokenError::TokenExpired) => Err(
            Error::unprocessable_entity(FieldError::new(None, "token expired")),
        ),
        Ok(uid) => {
            let _ = store.verify_user(uid);
            Ok(())
        },
    }
}

/// What confirming a password reset does to the store: consume the reset
/// token, then replace the owner's password hash with the hash of the new
/// password.
pub open spec fn spec_confirm_reset(s: StoreV, token: Seq<char>, password: Seq<char>, now: i64) -> (
    StoreV,
    TokenFlowOutcome,
) {
    let c = spec_consume(s.reset_tokens, token, now);
    match c.1 {
        ConsumeOutcome::NotFound => (s, TokenFlowOutcome::NotFound),
        ConsumeOutcome::Expired => (s, TokenFlowOutcome::Expired),
        ConsumeOutcome::Consumed(uid) => (
            StoreV {
                reset_tokens: c.0,
                users: with_user_password(s.users, uid, spec_hash_password(password)),
                ..s
            },
            TokenFlowOutcome::Done(uid),
        ),
    }
}

/// Confirms a password reset: consumes the reset token as one atomic step
/// and replaces the owner's password hash.
pub fn confirm_password_reset(
    store: &mut Store,
    token: &str,
    payload: &VerifyResetPasswordPayload,
    now: i64,
) -> (r: Result<(), Error>)
    requires
        store_wf(old(store)@),
    ensures
        store_wf(final(store)@),
        final(store)@ == spec_confirm_reset(old(store)@, token@, payload.password@, now).0,
        match spec_confirm_reset(old(store)@, token@, payload.password@, now).1 {
            TokenFlowOutcome::NotFound => r matches Err(e) && unprocessable_nofield(
                e@,
                "token not found"@,
            ),
            TokenFlowOutcome::Expired => r matches Err(e) && unprocessable_nofield(
                e@,
                "token expired"@,
            ),
            TokenFlowOutcome::Done(_) => r is Ok,
        },
{
    match validate_and_consume(store, TokenKind::Reset, token, now) {
        Err(TokenError::TokenNotFound) => Err(
            Error::unprocessable_entity(FieldError::new(None, "token not found")),
        ),
        Err(TokenError::TokenExpired) => Err(
            Error::unprocessable_entity(FieldError::new(None, "token expired")),
        ),
        Ok(uid) => {
            let hash = hash_password(payload.password.as_str());
            let _ = store.reset_user_password(uid, hash.as_str());
            Ok(())
        },
    }
}

/// Login for a user whose email is unverified always fails `NotVerified`,
/// whatever password is supplied: the stored hash is never judged against
/// it, and the store is unchanged.
pub proof fn lemma_login_unverified(
    s: StoreV,
    email: Seq<char>,
    password: Seq<char>,
    session_id: u128,
    data: Seq<char>,
    now: i64,
    ttl: u64,
    u: UserV,
)
    requires
        user_by_email(s.users, email) == Some(u),
        !u.email_verified,
    ensures
        spec_login(s, email, password, session_id, data, now, ttl).0 == s,
        spec_login(s, email, password, session_id, data, now, ttl).1 == LoginOutcome::NotVerified,
{
}

/// Login with a wrong password for an existing, verified user fails
/// `Unauthorized` and changes nothing.
pub proof fn lemma_login_wrong_password(
    s: StoreV,
    email: Seq<char>,
    password: Seq<char>,
    session_id: u128,
    data: Seq<char>,
    now: i64,
    ttl: u64,
    u: UserV,
)
    requires
        user_by_email(s.users, email) == Some(u),
        u.email_verified,
        spec_hash_password(password) != u.password_hash,
    ensures
        spec_login(s, email, password, session_id, data, now, ttl).0 == s,
        spec_login(s, email, password, session_id, data, now, ttl).1
            == LoginOutcome::WrongPassword,
{
}

/// Login for an email no user holds fails with the email-level field error
/// and changes nothing; it differs from a wrong password only in the
/// field-level detail of the reported error.
pub proof fn lemma_login_unknown_email(
    s: StoreV,
    email: Seq<char>,
    password: Seq<char>,
    session_id: u128,
    data: Seq<char>,
    now: i64,
    ttl: u64,
)
    requires
        user_by_email(s.users, email) is None,
    ensures
        spec_login(s, email, password, session_id, data, now, ttl).0 == s,
        spec_login(s, email, password, session_id, data, now, ttl).1
            == LoginOutcome::UnknownEmail,
{
}

/// A token-consuming flow run on an expired token reports it expired and
/// mutates nothing: the stale row stays for cleanup, and no user row is
/// touched.
pub proof fn lemma_expired_token_flows_unchanged(
    s: StoreV,
    token: Seq<char>,
    password: Seq<char>,
    now: i64,
)
    ensures
        (token_by_id(s.verification_tokens, token) matches Some(t) && now >= t.active_expires)
            ==> spec_verify_email(s, token, now) == (s, TokenFlowOutcome::Expired),
        (token_by_id(s.reset_tokens, token) matches Some(t) && now >= t.active_expires)
            ==> spec_confirm_reset(s, token, password, now) == (s, TokenFlowOutcome::Expired),
{
}

/// The full round trip: after a successful registration, verifying the email
/// with the issued token (before it expires) succeeds for the registered
/// user; logging in with the same credentials then succeeds; and the session
/// id embedded in the returned cookie resolves through the middleware — before the
/// session expires — to the same user id.
pub proof fn lemma_register_verify_login_roundtrip(
    s0: StoreV,
    username: Seq<char>,
    email: Seq<char>,
    password: Seq<char>,
    user_id: u128,
    vtoken: Seq<char>,
    t_reg: i64,
    ttl_token: u64,
    t_verify: i64,
    session_id: u128,
    data: Seq<char>,
    t_login: i64,
    ttl_session: u64,
    t_middleware: i64,
)
    requires
        store_wf(s0),
        spec_register(s0, username, email, password, user_id, vtoken, t_reg, ttl_token).1
            is Registered,
        t_verify < sat_add(t_reg, ttl_token),
        session_by_id(s0.sessions, session_id) is None,
        t_middleware < sat_add(t_login, ttl_session),
    ensures
        ({
            let s1 = spec_register(
                s0,
                username,
                email,
                password,
                user_id,
                vtoken,
                t_reg,
                ttl_token,
            ).0;
            let v = spec_verify_email(s1, vtoken, t_verify);
            let l = spec_login(v.0, email, password, session_id, data, t_login, ttl_session);
            &&& v.1 == TokenFlowOutcome::Done(user_id)
            &&& l.1 matches LoginOutcome::LoggedIn(sess, u) && sess.id == session_id && u.id
                == user_id
            &&& crate::middleware::spec_authenticate(l.0, session_id, t_middleware) == Ok::<u128, ()>(user_id)
        }),
{
    let s1 = spec_register(s0, username, email, password, user_id, vtoken, t_reg, ttl_token).0;
    let u0 = UserV {
        id: user_id,
        username,
        email,
        email_verified: false,
        password_hash: spec_hash_password(password),
        created_at: t_reg,
        updated_at: t_reg,
    };
    let tv0 = TokenV { id: vtoken, active_expires: sat_add(t_reg, ttl_token), user_id };
    assert(s1.users == s0.users.push(u0));
    assert(s1.verification_tokens == s0.verification_tokens.push(tv0));
    assert(s1.sessions == s0.sessions);

    // The issued token is found, unexpired, and consumed for the new user.
    let ptok = |t: TokenV| t.id == vtoken;
    crate::model::lemma_first_match_some(s0.verification_tokens, ptok);
    assert forall|j: int| 0 <= j < s0.verification_tokens.len() implies !ptok(
        s1.verification_tokens[j],
    ) by {
        assert(s1.verification_tokens[j] == s0.verification_tokens[j]);
    }
    crate::model::lemma_first_match_found(
        s1.verification_tokens,
        ptok,
        s0.verification_tokens.len() as int,
    );
    assert(token_by_id(s1.verification_tokens, vtoken) == Some(tv0));
    let v = spec_verify_email(s1, vtoken, t_verify);
    assert(v.1 == TokenFlowOutcome::Done(user_id));

    // Verification flips exactly the new user's flag.
    let pid = |u: UserV| u.id == user_id;
    crate::model::lemma_first_match_some(s0.users, pid);
    let u1 = UserV { email_verified: true, ..u0 };
    assert(v.0.users =~= s0.users.push(u1));
    assert(v.0.sessions == s0.sessions);

    // Login finds the now-verified user and its stored hash matches.
    let pmail = |u: UserV| u.email == email;
    crate::model::lemma_first_match_some(s0.users, pmail);
    assert forall|j: int| 0 <= j < s0.users.len() implies !pmail(v.0.users[j]) by {
        assert(v.0.users[j] == s0.users[j]);
    }
    crate::model::lemma_first_match_found(v.0.users, pmail, s0.users.len() as int);
    assert(user_by_email(v.0.users, email) == Some(u1));
    let l = spec_login(v.0, email, password, session_id, data, t_login, ttl_session);
    let sess = crate::model::SessionV {
        id: session_id,
        user_id,
        data,
        expiry_date: sat_add(t_login, ttl_session),
    };
    assert(l.1 == LoginOutcome::LoggedIn(sess, u1));
    assert(l.0.sessions == s0.sessions.push(sess));

    // The cookie's session id resolves through the middleware to the same user.
    let psid = |s: crate::model::SessionV| s.id == session_id;
    crate::model::lemma_first_match_some(s0.sessions, psid);
    assert forall|j: int| 0 <= j < s0.sessions.len() implies !psid(l.0.sessions[j]) by {
        assert(l.0.sessions[j] == s0.sessions[j]);
    }
    crate::model::lemma_first_match_found(l.0.sessions, psid, s0.sessions.len() as int);
    assert(session_by_id(l.0.sessions, session_id) == Some(sess));
    assert(crate::middleware::spec_authenticate(l.0, session_id, t_middleware) == Ok::<u128, ()>(user_id));
}

} // verus!
