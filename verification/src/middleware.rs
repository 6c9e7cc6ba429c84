//! The authentication middleware: resolves the raw `session_id` cookie value into
//! an authenticated identity, or rejects the request. A missing cookie is
//! `NotFound` (deliberately not `Unauthorized`); a value that does not parse
//! as a uuid fails with the uuid error class; an unknown or expired session
//! is `Forbidden`.
use vstd::prelude::*;

use crate::errors::Error;
use crate::ext::parse_session_uuid;
use crate::ext::uuid_parse;
use crate::model::SessionV;
use crate::model::StoreV;
use crate::model::session_by_id;
use crate::store::Store;

verus! {

/// The identity the middleware injects for downstream handlers.
#[derive(Clone, Copy, Debug, PartialEq, Eq, Structural)]
pub struct AuthContext {
    pub user_id: u128,
}

/// The middleware's decision on a parsed session id: the owning user when the
/// session exists and its expiry lies strictly after `now`, `Forbidden`
/// otherwise.
pub open spec fn spec_authenticate(s: StoreV, session_id: u128, now: i64) -> Result<u128, ()> {
    match session_by_id(s.sessions, session_id) {
        None => Err(()),
        Some(sess) => if sess.expiry_date > now {
            Ok(sess.user_id)
        } else {
            Err(())
        },
    }
}

/// Decides, for one request, whether the caller is authenticated: exactly
/// one session lookup, and the request proceeds only with a valid,
/// non-expired session.
pub fn authenticate(store: &Store, cookie: Option<&str>, now: i64) -> (r: Result<
    AuthContext,
    Error,
>)
    ensures
        match cookie {
            None => r matches Err(e) && e@ is NotFound,
            Some(c) => match uuid_parse(c@) {
                None => r matches Err(e) && e@ is Uuid,
                Some(sid) => match spec_authenticate(store@, sid, now) {
                    Ok(uid) => r matches Ok(ctx) && ctx.user_id == uid,
                    Err(_) => r matches Err(e) && e@ is Forbidden,
                },
            },
        },
{
    let value = match cookie {
        None => {
            return Err(Error::NotFound);
        },
        Some(c) => c,
    };
    let session_id = match parse_session_uuid(value) {
        None => {
            return Err(Error::Uuid);
        },
        Some(sid) => sid,
    };
    match store.get_session(session_id) {
        Err(e) => Err(e),
        Ok(session) => {
            if session.expiry_date > now {
                Ok(AuthContext { user_id: session.user_id })
            } else {
                Err(Error::Forbidden)
            }
        },
    }
}

/// A session whose expiry lies at or before `now` is never accepted by the
/// middleware, no matter how far in the past it expired.
pub proof fn lemma_expired_session_rejected(s: StoreV, sess: SessionV, now: i64)
    requires
        session_by_id(s.sessions, sess.id) == Some(sess),
        sess.expiry_date <= now,
    ensures
        spec_authenticate(s, sess.id, now) is Err,
{
}

} // verus!
