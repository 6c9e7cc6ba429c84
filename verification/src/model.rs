//! The mathematical model of the credential store: abstract values for users,
//! sessions and single-use tokens, lookup and update functions over sequences
//! of rows, and the well-formedness (key-uniqueness) predicates that the
//! store's operations preserve.
use vstd::prelude::*;

verus! {

/// Abstract value of a stored user row.
pub struct UserV {
    pub id: u128,
    pub username: Seq<char>,
    pub email: Seq<char>,
    pub email_verified: bool,
    pub password_hash: Seq<char>,
    pub created_at: i64,
    pub updated_at: i64,
}

/// Abstract value of a single-use token row: the token string is the key.
pub struct TokenV {
    pub id: Seq<char>,
    pub active_expires: i64,
    pub user_id: u128,
}

/// Abstract value of a session row.
pub struct SessionV {
    pub id: u128,
    pub user_id: u128,
    pub data: Seq<char>,
    pub expiry_date: i64,
}

/// Abstract value of the whole credential store. Verification and reset
/// tokens are structurally identical but live in separate tables.
#[verifier::ext_equal]
pub struct StoreV {
    pub users: Seq<UserV>,
    pub sessions: Seq<SessionV>,
    pub verification_tokens: Seq<TokenV>,
    pub reset_tokens: Seq<TokenV>,
}

/// The first element of `s` satisfying `p`, if any.
pub open spec fn first_match<T>(s: Seq<T>, p: spec_fn(T) -> bool) -> Option<T>
    decreases s.len(),
{
    if s.len() == 0 {
        None
    } else if p(s[0]) {
        Some(s[0])
    } else {
        first_match(s.drop_first(), p)
    }
}

/// `s` without its first element satisfying `p`; `s` itself if none does.
pub open spec fn remove_first<T>(s: Seq<T>, p: spec_fn(T) -> bool) -> Seq<T>
    decreases s.len(),
{
    if s.len() == 0 {
        s
    } else if p(s[0]) {
        s.drop_first()
    } else {
        seq![s[0]] + remove_first(s.drop_first(), p)
    }
}

/// If `i` is the first index of `s` where `p` holds, the first match is `s[i]`.
pub proof fn lemma_first_match_found<T>(s: Seq<T>, p: spec_fn(T) -> bool, i: int)
    requires
        0 <= i < s.len(),
        p(s[i]),
        forall|j: int| 0 <= j < i ==> !p(s[j]),
    ensures
        first_match(s, p) == Some(s[i]),
    decreases i,
{
    if i > 0 {
        assert(!p(s[0]));
        assert forall|j: int| 0 <= j < i - 1 implies !p(s.drop_first()[j]) by {
            assert(s.drop_first()[j] == s[j + 1]);
        }
        lemma_first_match_found(s.drop_first(), p, i - 1);
        assert(s.drop_first()[i - 1] == s[i]);
    }
}

/// If no element of `s` satisfies `p`, there is no first match.
pub proof fn lemma_first_match_absent<T>(s: Seq<T>, p: spec_fn(T) -> bool)
    requires
        forall|j: int| 0 <= j < s.len() ==> !p(s[j]),
    ensures
        first_match(s, p) is None,
    decreases s.len(),
{
    if s.len() > 0 {
        assert forall|j: int| 0 <= j < s.drop_first().len() implies !p(s.drop_first()[j]) by {
            assert(s.drop_first()[j] == s[j + 1]);
        }
        lemma_first_match_absent(s.drop_first(), p);
    }
}

/// A first match, when there is one, is an element of `s` satisfying `p`;
/// when there is none, no element satisfies `p`.
pub proof fn lemma_first_match_some<T>(s: Seq<T>, p: spec_fn(T) -> bool)
    ensures
        first_match(s, p) matches Some(t) ==> exists|i: int|
            0 <= i < s.len() && s[i] == t && p(s[i]),
        first_match(s, p) is None ==> forall|i: int| 0 <= i < s.len() ==> !p(s[i]),
    decreases s.len(),
{
    if s.len() > 0 {
        if !p(s[0]) {
            lemma_first_match_some(s.drop_first(), p);
            match first_match(s.drop_first(), p) {
                Some(t) => {
                    let i0 = choose|i: int|
                        0 <= i < s.drop_first().len() && s.drop_first()[i] == t && p(
                            s.drop_first()[i],
                        );
                    assert(s[i0 + 1] == s.drop_first()[i0]);
                    assert(0 <= i0 + 1 < s.len() && s[i0 + 1] == t && p(s[i0 + 1]));
                },
                None => {
                    assert forall|i: int| 0 <= i < s.len() implies !p(s[i]) by {
                        if i > 0 {
                            assert(s.drop_first()[i - 1] == s[i]);
                        }
                    }
                },
            }
        }
    }
}

/// If no element of `s` satisfies `p`, removing the first match is a no-op.
pub proof fn lemma_remove_first_absent<T>(s: Seq<T>, p: spec_fn(T) -> bool)
    requires
        forall|j: int| 0 <= j < s.len() ==> !p(s[j]),
    ensures
        remove_first(s, p) =~= s,
    decreases s.len(),
{
    if s.len() > 0 {
        assert forall|j: int| 0 <= j < s.drop_first().len() implies !p(s.drop_first()[j]) by {
            assert(s.drop_first()[j] == s[j + 1]);
        }
        lemma_remove_first_absent(s.drop_first(), p);
        assert(remove_first(s, p) =~= seq![s[0]] + s.drop_first());
    }
}

/// If `i` is the first index of `s` where `p` holds, removing the first match
/// removes exactly the element at `i`.
pub proof fn lemma_remove_first_at<T>(s: Seq<T>, p: spec_fn(T) -> bool, i: int)
    requires
        0 <= i < s.len(),
        p(s[i]),
        forall|j: int| 0 <= j < i ==> !p(s[j]),
    ensures
        remove_first(s, p) =~= s.remove(i),
    decreases i,
{
    if i == 0 {
        assert(remove_first(s, p) == s.drop_first());
    } else {
        assert(!p(s[0]));
        assert forall|j: int| 0 <= j < i - 1 implies !p(s.drop_first()[j]) by {
            assert(s.drop_first()[j] == s[j + 1]);
        }
        assert(s.drop_first()[i - 1] == s[i]);
        lemma_remove_first_at(s.drop_first(), p, i - 1);
    }
}

/// No two user rows share an id, a username or an email address.
pub open spec fn users_wf(users: Seq<UserV>) -> bool {
    forall|i: int, j: int|
        #![trigger users[i], users[j]]
        0 <= i < users.len() && 0 <= j < users.len() && i != j ==> {
            &&& users[i].id != users[j].id
            &&& users[i].username != users[j].username
            &&& users[i].email != users[j].email
        }
}

/// No two token rows of one table share a token string.
pub open spec fn tokens_wf(toks: Seq<TokenV>) -> bool {
    forall|i: int, j: int|
        #![trigger toks[i], toks[j]]
        0 <= i < toks.len() && 0 <= j < toks.len() && i != j ==> toks[i].id != toks[j].id
}

/// No two session rows share a session id.
pub open spec fn sessions_wf(sessions: Seq<SessionV>) -> bool {
    forall|i: int, j: int|
        #![trigger sessions[i], sessions[j]]
        0 <= i < sessions.len() && 0 <= j < sessions.len() && i != j ==> sessions[i].id
            != sessions[j].id
}

/// Well-formedness of the whole store: every key column is unique.
pub open spec fn store_wf(s: StoreV) -> bool {
    &&& users_wf(s.users)
    &&& sessions_wf(s.sessions)
    &&& tokens_wf(s.verification_tokens)
    &&& tokens_wf(s.reset_tokens)
}

/// The stored user with the given email address, if any.
pub open spec fn user_by_email(users: Seq<UserV>, email: Seq<char>) -> Option<UserV> {
    first_match(users, |u: UserV| u.email == email)
}

/// The stored user with the given username, if any.
pub open spec fn user_by_username(users: Seq<UserV>, username: Seq<char>) -> Option<UserV> {
    first_match(users, |u: UserV| u.username == username)
}

/// The stored user with the given id, if any.
pub open spec fn user_by_id(users: Seq<UserV>, id: u128) -> Option<UserV> {
    first_match(users, |u: UserV| u.id == id)
}

/// The token row with the given token string, if any.
pub open spec fn token_by_id(toks: Seq<TokenV>, id: Seq<char>) -> Option<TokenV> {
    first_match(toks, |t: TokenV| t.id == id)
}

/// The session row with the given session id, if any.
pub open spec fn session_by_id(sessions: Seq<SessionV>, id: u128) -> Option<SessionV> {
    first_match(sessions, |s: SessionV| s.id == id)
}

/// The token table without the row keyed by `id`.
pub open spec fn without_token(toks: Seq<TokenV>, id: Seq<char>) -> Seq<TokenV> {
    remove_first(toks, |t: TokenV| t.id == id)
}

/// The user table with the user of the given id marked email-verified;
/// every other row, and every other column, is unchanged.
pub open spec fn with_user_verified(users: Seq<UserV>, id: u128) -> Seq<UserV> {
    Seq::new(
        users.len(),
        |i: int|
            if users[i].id == id {
                UserV { email_verified: true, ..users[i] }
            } else {
                users[i]
            },
    )
}

/// The user table with the password hash of the user of the given id
/// replaced; every other row, and every other column, is unchanged.
pub open spec fn with_user_password(users: Seq<UserV>, id: u128, hash: Seq<char>) -> Seq<UserV> {
    Seq::new(
        users.len(),
        |i: int|
            if users[i].id == id {
                UserV { password_hash: hash, ..users[i] }
            } else {
                users[i]
            },
    )
}

/// In a well-formed token table, consuming a token leaves no row under its
/// id: a second lookup of the same token fails.
pub proof fn lemma_consumed_token_absent(toks: Seq<TokenV>, id: Seq<char>)
    requires
        tokens_wf(toks),
        token_by_id(toks, id) is Some,
    ensures
        token_by_id(without_token(toks, id), id) is None,
        tokens_wf(without_token(toks, id)),
        without_token(toks, id).len() == toks.len() - 1,
{
    let p = |t: TokenV| t.id == id;
    lemma_first_match_some(toks, p);
    let w = choose|i: int| 0 <= i < toks.len() && toks[i] == token_by_id(toks, id)->Some_0 && p(
        toks[i],
    );
    let i = first_index(toks, p, w);
    lemma_remove_first_at(toks, p, i);
    let rest = toks.remove(i);
    assert forall|j: int| 0 <= j < rest.len() implies !p(rest[j]) by {
        if j < i {
            assert(rest[j] == toks[j]);
        } else {
            assert(rest[j] == toks[j + 1]);
        }
    }
    lemma_first_match_absent(rest, p);
    assert forall|a: int, b: int|
        #![trigger rest[a], rest[b]]
        0 <= a < rest.len() && 0 <= b < rest.len() && a != b implies rest[a].id != rest[b].id by {
        let a0 = if a < i {
            a
        } else {
            a + 1
        };
        let b0 = if b < i {
            b
        } else {
            b + 1
        };
        assert(rest[a] == toks[a0]);
        assert(rest[b] == toks[b0]);
    }
}

/// The least index at or below `w` where `p` holds, given that `p(s[w])`.
pub proof fn first_index<T>(s: Seq<T>, p: spec_fn(T) -> bool, w: int) -> (i: int)
    requires
        0 <= w < s.len(),
        p(s[w]),
    ensures
        0 <= i < s.len(),
        p(s[i]),
        forall|j: int| 0 <= j < i ==> !p(s[j]),
    decreases w,
{
    if exists|j: int| 0 <= j < w && p(s[j]) {
        let w2 = choose|j: int| 0 <= j < w && p(s[j]);
        first_index(s, p, w2)
    } else {
        w
    }
}

} // verus!
