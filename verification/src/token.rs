//! The token lifecycle manager: minting of random single-use tokens, the
//! validity predicate, and validate-and-consume as one atomic step over the
//! store. Proofs of single use and of consume exclusivity live here too.
use vstd::prelude::*;

use crate::errors::Error;
use crate::ext::generate_verification_token;
use crate::ext::is_token_char;
use crate::model::StoreV;
use crate::model::TokenV;
use crate::model::lemma_consumed_token_absent;
use crate::model::lemma_first_match_found;
use crate::model::store_wf;
use crate::model::token_by_id;
use crate::model::tokens_wf;
use crate::model::without_token;
use crate::store::Store;

verus! {

/// The length, in characters, of every minted token.
pub const TOKEN_LENGTH: usize = 8;

/// The two kinds of single-use token, stored in separate tables.
#[derive(Clone, Copy, Debug, PartialEq, Eq, Structural)]
pub enum TokenKind {
    Verification,
    Reset,
}

/// Why validating a token failed: the row is absent, or it sits past its
/// expiry (and is left in place for cleanup).
#[derive(Clone, Copy, Debug, PartialEq, Eq, Structural)]
pub enum TokenError {
    TokenNotFound,
    TokenExpired,
}

/// The table holding tokens of the given kind.
pub open spec fn table_of(s: StoreV, kind: TokenKind) -> Seq<TokenV> {
    match kind {
        TokenKind::Verification => s.verification_tokens,
        TokenKind::Reset => s.reset_tokens,
    }
}

/// The store with the table of the given kind replaced.
pub open spec fn store_with_table(s: StoreV, kind: TokenKind, t: Seq<TokenV>) -> StoreV {
    match kind {
        TokenKind::Verification => StoreV { verification_tokens: t, ..s },
        TokenKind::Reset => StoreV { reset_tokens: t, ..s },
    }
}

/// The outcome of consuming a token, at the level of the model.
pub enum ConsumeOutcome {
    NotFound,
    Expired,
    Consumed(u128),
}

/// What validate-and-consume does to a token table: an absent token fails;
/// a token with `now >= active_expires` fails expired and the stale row is
/// left for cleanup; otherwise the row is deleted and the owner returned.
pub open spec fn spec_consume(toks: Seq<TokenV>, id: Seq<char>, now: i64) -> (
    Seq<TokenV>,
    ConsumeOutcome,
) {
    match token_by_id(toks, id) {
        None => (toks, ConsumeOutcome::NotFound),
        Some(t) => if now >= t.active_expires {
            (toks, ConsumeOutcome::Expired)
        } else {
            (without_token(toks, id), ConsumeOutcome::Consumed(t.user_id))
        },
    }
}

/// `now + ttl` on the timestamp axis, saturating at the largest timestamp.
pub open spec fn sat_add(now: i64, ttl: u64) -> i64 {
    if now + ttl > i64::MAX {
        i64::MAX
    } else {
        (now + ttl) as i64
    }
}

/// Computes [`sat_add`].
pub fn expiry_timestamp(now: i64, ttl: u64) -> (r: i64)
    ensures
        r == sat_add(now, ttl),
{
    match now.checked_add_unsigned(ttl) {
        Some(v) => v,
        None => i64::MAX,
    }
}

/// Mints a token of [`TOKEN_LENGTH`] alphanumeric characters, computes its
/// absolute expiry as `now + ttl` (ttl in seconds), and persists it under the
/// given kind's table for `user_id`. Returns the token string, to be embedded
/// in an emailed link. Fails only when the minted string collides with a
/// stored token of the same kind, so issuing into an empty table is owed
/// success.
pub fn issue(store: &mut Store, kind: TokenKind, user_id: u128, now: i64, ttl: u64) -> (r: Result<
    String,
    Error,
>)
    requires
        store_wf(old(store)@),
    ensures
        store_wf(final(store)@),
        match r {
            Ok(tok) => ({
                &&& tok@.len() == TOKEN_LENGTH as nat
                &&& forall|i: int| 0 <= i < tok@.len() ==> is_token_char(tok@[i])
                &&& token_by_id(table_of(old(store)@, kind), tok@) is None
                &&& final(store)@ == store_with_table(
                    old(store)@,
                    kind,
                    table_of(old(store)@, kind).push(
                        TokenV { id: tok@, active_expires: sat_add(now, ttl), user_id },
                    ),
                )
            }),
            Err(e) => ({
                &&& e@ is Internal
                &&& final(store)@ == old(store)@
                &&& exists|tok: Seq<char>|
                    {
                        &&& tok.len() == TOKEN_LENGTH as nat
                        &&& forall|i: int| 0 <= i < tok.len() ==> is_token_char(tok[i])
                        &&& #[trigger] token_by_id(table_of(old(store)@, kind), tok) is Some
                    }
            }),
        },
{
    let ghost s0 = store@;
    let token = generate_verification_token(TOKEN_LENGTH);
    let expires = expiry_timestamp(now, ttl);
    let inserted = match kind {
        TokenKind::Verification => store.insert_verification_token(&token, expires, user_id),
        TokenKind::Reset => store.insert_reset_password_token(&token, expires, user_id),
    };
    match inserted {
        Ok(_) => Ok(token),
        Err(e) => {
            proof {
                assert(token_by_id(table_of(s0, kind), token@) is Some);
            }
            Err(e)
        },
    }
}

/// Validates and consumes a token of the given kind as one atomic step:
/// fails `TokenNotFound` on an absent token, `TokenExpired` when
/// `now >= active_expires` (leaving the stale row in place), and otherwise
/// deletes the row and returns the owning user id. User rows and sessions
/// are never touched.
pub fn validate_and_consume(store: &mut Store, kind: TokenKind, token: &str, now: i64) -> (r:
    Result<u128, TokenError>)
    requires
        store_wf(old(store)@),
    ensures
        store_wf(final(store)@),
        final(store)@ == store_with_table(
            old(store)@,
            kind,
            spec_consume(table_of(old(store)@, kind), token@, now).0,
        ),
        match spec_consume(table_of(old(store)@, kind), token@, now).1 {
            ConsumeOutcome::NotFound => r == Err::<u128, TokenError>(TokenError::TokenNotFound),
            ConsumeOutcome::Expired => r == Err::<u128, TokenError>(TokenError::TokenExpired),
            ConsumeOutcome::Consumed(uid) => r == Ok::<u128, TokenError>(uid),
        },
{
    let row = match kind {
        TokenKind::Verification => store.get_user_from_email_token(token),
        TokenKind::Reset => store.get_user_from_reset_password_token(token),
    };
    match row {
        Err(_) => Err(TokenError::TokenNotFound),
        Ok(t) => {
            if now >= t.active_expires {
                Err(TokenError::TokenExpired)
            } else {
                let deleted = match kind {
                    TokenKind::Verification => store.delete_email_token(token),
                    TokenKind::Reset => store.delete_reset_password_token(token),
                };
                match deleted {
                    Ok(_) => Ok(t.user_id),
                    Err(_) => Ok(t.user_id),
                }
            }
        },
    }
}

/// A stored, unexpired token is consumed exactly once: the first consume
/// succeeds and returns the owning user, and a second consume of the same
/// token — at any later or earlier clock reading — fails `TokenNotFound`.
pub proof fn lemma_token_single_use(
    toks: Seq<TokenV>,
    id: Seq<char>,
    t: TokenV,
    now1: i64,
    now2: i64,
)
    requires
        tokens_wf(toks),
        token_by_id(toks, id) == Some(t),
        now1 < t.active_expires,
    ensures
        spec_consume(toks, id, now1).1 == ConsumeOutcome::Consumed(t.user_id),
        spec_consume(spec_consume(toks, id, now1).0, id, now2).1 == ConsumeOutcome::NotFound,
{
    lemma_consumed_token_absent(toks, id);
}

/// An expired token is reported `TokenExpired` and nothing is mutated: the
/// table keeps the stale row, and no other state is touched.
pub proof fn lemma_expired_token_unconsumed(toks: Seq<TokenV>, id: Seq<char>, t: TokenV, now: i64)
    requires
        token_by_id(toks, id) == Some(t),
        now >= t.active_expires,
    ensures
        spec_consume(toks, id, now).0 == toks,
        spec_consume(toks, id, now).1 == ConsumeOutcome::Expired,
{
}

/// Two consumption attempts on the same token, in whichever order the store
/// serializes them, never both succeed: whenever the first succeeds, the
/// second observes `TokenNotFound`.
pub proof fn lemma_concurrent_consume_exclusive(
    toks: Seq<TokenV>,
    id: Seq<char>,
    now1: i64,
    now2: i64,
)
    requires
        tokens_wf(toks),
    ensures
        spec_consume(toks, id, now1).1 matches ConsumeOutcome::Consumed(_)
            ==> spec_consume(spec_consume(toks, id, now1).0, id, now2).1
            == ConsumeOutcome::NotFound,
{
    if spec_consume(toks, id, now1).1 matches ConsumeOutcome::Consumed(_) {
        lemma_consumed_token_absent(toks, id);
    }
}

/// A token freshly issued with a positive ttl is immediately consumable, and
/// only once: consuming it at issue time succeeds, and a second consume
/// fails `TokenNotFound`.
pub proof fn lemma_issued_token_single_use(
    toks: Seq<TokenV>,
    id: Seq<char>,
    user_id: u128,
    now: i64,
    ttl: u64,
    now2: i64,
)
    requires
        tokens_wf(toks),
        token_by_id(toks, id) is None,
        ttl > 0,
        now < i64::MAX,
    ensures
        ({
            let issued = toks.push(TokenV { id, active_expires: sat_add(now, ttl), user_id });
            &&& spec_consume(issued, id, now).1 == ConsumeOutcome::Consumed(user_id)
            &&& spec_consume(spec_consume(issued, id, now).0, id, now2).1
                == ConsumeOutcome::NotFound
        }),
{
    let tv = TokenV { id, active_expires: sat_add(now, ttl), user_id };
    let issued = toks.push(tv);
    let p = |t: TokenV| t.id == id;
    crate::model::lemma_first_match_some(toks, p);
    assert forall|j: int| 0 <= j < toks.len() implies !p(issued[j]) by {
        assert(issued[j] == toks[j]);
    }
    lemma_first_match_found(issued, p, toks.len() as int);
    assert(token_by_id(issued, id) == Some(tv));
    assert forall|a: int, b: int|
        #![trigger issued[a], issued[b]]
        0 <= a < issued.len() && 0 <= b < issued.len() && a != b implies issued[a].id
        != issued[b].id by {
        if a < toks.len() && b < toks.len() {
            assert(issued[a] == toks[a] && issued[b] == toks[b]);
        }
    }
    lemma_token_single_use(issued, id, tv, now, now2);
}

} // verus!
