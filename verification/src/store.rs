//! The credential store: an in-memory, verified implementation of the
//! persistence contract the flows and the middleware depend on. It owns all durable
//! state — users, sessions, and the two single-use token tables — and each
//! operation is atomic: no partial write is ever visible.
use vstd::prelude::*;

use crate::errors::Error;
use crate::errors::FieldError;
use crate::errors::unprocessable_with;
use crate::model::SessionV;
use crate::model::StoreV;
use crate::model::TokenV;
use crate::model::UserV;
use crate::model::lemma_first_match_absent;
use crate::model::lemma_first_match_found;
use crate::model::lemma_remove_first_absent;
use crate::model::lemma_remove_first_at;
use crate::model::session_by_id;
use crate::model::store_wf;
use crate::model::token_by_id;
use crate::model::tokens_wf;
use crate::model::user_by_email;
use crate::model::user_by_id;
use crate::model::user_by_username;
use crate::model::with_user_password;
use crate::model::with_user_verified;
use crate::model::without_token;

verus! {

/// A stored user row.
pub struct UserModel {
    pub id: u128,
    pub username: String,
    pub email: String,
    pub email_verified: bool,
    pub password_hash: String,
    pub created_at: i64,
    pub updated_at: i64,
}

impl View for UserModel {
    type V = UserV;

    open spec fn view(&self) -> UserV {
        UserV {
            id: self.id,
            username: self.username@,
            email: self.email@,
            email_verified: self.email_verified,
            password_hash: self.password_hash@,
            created_at: self.created_at,
            updated_at: self.updated_at,
        }
    }
}

impl Clone for UserModel {
    fn clone(&self) -> (r: Self)
        ensures
            r@ == self@,
    {
        UserModel {
            id: self.id,
            username: self.username.clone(),
            email: self.email.clone(),
            email_verified: self.email_verified,
            password_hash: self.password_hash.clone(),
            created_at: self.created_at,
            updated_at: self.updated_at,
        }
    }
}

/// A single-use token row; the token string itself is the key. Verification
/// and reset tokens share this shape but are stored in separate tables.
pub struct TokenRow {
    pub id: String,
    pub active_expires: i64,
    pub user_id: u128,
}

impl View for TokenRow {
    type V = TokenV;

    open spec fn view(&self) -> TokenV {
        TokenV { id: self.id@, active_expires: self.active_expires, user_id: self.user_id }
    }
}

impl Clone for TokenRow {
    fn clone(&self) -> (r: Self)
        ensures
            r@ == self@,
    {
        TokenRow {
            id: self.id.clone(),
            active_expires: self.active_expires,
            user_id: self.user_id,
        }
    }
}

/// The opaque client-side settings payload carried by a session.
pub struct MyData {
    pub settings: String,
}

impl View for MyData {
    type V = Seq<char>;

    open spec fn view(&self) -> Seq<char> {
        self.settings@
    }
}

impl Clone for MyData {
    fn clone(&self) -> (r: Self)
        ensures
            r@ == self@,
    {
        MyData { settings: self.settings.clone() }
    }
}

/// A stored session row; the id is the bearer credential placed in a cookie.
pub struct SessionModel {
    pub id: u128,
    pub user_id: u128,
    pub data: MyData,
    pub expiry_date: i64,
}

impl View for SessionModel {
    type V = SessionV;

    open spec fn view(&self) -> SessionV {
        SessionV {
            id: self.id,
            user_id: self.user_id,
            data: self.data@,
            expiry_date: self.expiry_date,
        }
    }
}

impl Clone for SessionModel {
    fn clone(&self) -> (r: Self)
        ensures
            r@ == self@,
    {
        SessionModel {
            id: self.id,
            user_id: self.user_id,
            data: self.data.clone(),
            expiry_date: self.expiry_date,
        }
    }
}

/// The row returned by session creation: the id of the new session.
pub struct SessionResponse {
    pub id: u128,
}

/// The public view of a user, as returned to the client: every stored
/// column but the password hash.
#[derive(Debug)]
pub struct UserResponse {
    pub id: u128,
    pub username: String,
    pub email: String,
    pub email_verified: bool,
    pub created_at: i64,
    pub updated_at: i64,
}

/// A user response matches a stored user when it carries exactly its public
/// columns.
pub open spec fn response_matches_user(r: UserResponse, u: UserV) -> bool {
    &&& r.id == u.id
    &&& r.username@ == u.username
    &&& r.email@ == u.email
    &&& r.email_verified == u.email_verified
    &&& r.created_at == u.created_at
    &&& r.updated_at == u.updated_at
}

impl From<UserModel> for UserResponse {
    fn from(user_model: UserModel) -> (r: Self) {
        UserResponse {
            id: user_model.id,
            username: user_model.username,
            email: user_model.email,
            email_verified: user_model.email_verified,
            created_at: user_model.created_at,
            updated_at: user_model.updated_at,
        }
    }
}

impl vstd::std_specs::convert::FromSpecImpl<UserModel> for UserResponse {
    open spec fn obeys_from_spec() -> bool {
        true
    }

    open spec fn from_spec(u: UserModel) -> UserResponse {
        UserResponse {
            id: u.id,
            username: u.username,
            email: u.email,
            email_verified: u.email_verified,
            created_at: u.created_at,
            updated_at: u.updated_at,
        }
    }
}

/// The abstract contents of a sequence of token rows.
pub open spec fn rows_view(toks: Seq<TokenRow>) -> Seq<TokenV> {
    toks.map_values(|t: TokenRow| t@)
}

/// Index of the token row keyed by `token`, if any.
fn token_index(toks: &Vec<TokenRow>, token: &String) -> (r: Option<usize>)
    ensures
        match r {
            Some(i) => i < toks@.len() && rows_view(toks@)[i as int].id == token@ && (forall|
                j: int,
            | 0 <= j < i ==> rows_view(toks@)[j].id != token@),
            None => forall|j: int| 0 <= j < toks@.len() ==> rows_view(toks@)[j].id != token@,
        },
{
    let mut i: usize = 0;
    while i < toks.len()
        invariant
            i <= toks.len(),
            forall|j: int| 0 <= j < i ==> rows_view(toks@)[j].id != token@,
        decreases toks.len() - i,
    {
        if toks[i].id == *token {
            return Some(i);
        }
        i = i + 1;
    }
    None
}

/// Appends a token row, failing (as the database does on a duplicate
/// primary key) when the token string is already present.
fn insert_token(toks: &mut Vec<TokenRow>, token: &str, expires: i64, user_id: u128) -> (r: Result<
    (),
    Error,
>)
    requires
        tokens_wf(rows_view(old(toks)@)),
    ensures
        tokens_wf(rows_view(final(toks)@)),
        match token_by_id(rows_view(old(toks)@), token@) {
            Some(_) => r matches Err(e) && e@ is Internal && final(toks)@ == old(toks)@,
            None => r is Ok && rows_view(final(toks)@) == rows_view(old(toks)@).push(
                TokenV { id: token@, active_expires: expires, user_id },
            ),
        },
{
    let token_s = token.to_owned();
    match token_index(toks, &token_s) {
        Some(i) => {
            proof {
                lemma_first_match_found(
                    rows_view(toks@),
                    |t: TokenV| t.id == token@,
                    i as int,
                );
            }
            Err(Error::Internal)
        },
        None => {
            proof {
                lemma_first_match_absent(rows_view(toks@), |t: TokenV| t.id == token@);
            }
            let ghost before = rows_view(toks@);
            toks.push(TokenRow { id: token_s, active_expires: expires, user_id });
            proof {
                let tv = TokenV { id: token@, active_expires: expires, user_id };
                assert(rows_view(toks@) =~= before.push(tv));
                let nv = rows_view(toks@);
                assert forall|a: int, b: int|
                    #![trigger nv[a], nv[b]]
                    0 <= a < nv.len() && 0 <= b < nv.len() && a != b implies nv[a].id
                    != nv[b].id by {
                    if a < before.len() && b < before.len() {
                        assert(before[a] == nv[a] && before[b] == nv[b]);
                    }
                }
            }
            Ok(())
        },
    }
}

/// Removes the token row keyed by `token`; a no-op (still a success, as a
/// `DELETE` affecting no row is) when it is absent.
fn remove_token_row(toks: &mut Vec<TokenRow>, token: &String)
    requires
        tokens_wf(rows_view(old(toks)@)),
    ensures
        tokens_wf(rows_view(final(toks)@)),
        rows_view(final(toks)@) == without_token(rows_view(old(toks)@), token@),
{
    let ghost before = rows_view(toks@);
    match token_index(toks, token) {
        Some(i) => {
            proof {
                lemma_remove_first_at(before, |t: TokenV| t.id == token@, i as int);
            }
            toks.remove(i);
            proof {
                assert(rows_view(toks@) =~= before.remove(i as int));
                let nv = rows_view(toks@);
                assert forall|a: int, b: int|
                    #![trigger nv[a], nv[b]]
                    0 <= a < nv.len() && 0 <= b < nv.len() && a != b implies nv[a].id
                    != nv[b].id by {
                    let a0 = if a < i {
                        a
                    } else {
                        a + 1
                    };
                    let b0 = if b < i {
                        b
                    } else {
                        b + 1
                    };
                    assert(nv[a] == before[a0]);
                    assert(nv[b] == before[b0]);
                }
            }
        },
        None => {
            proof {
                lemma_remove_first_absent(before, |t: TokenV| t.id == token@);
            }
        },
    }
}

/// The token row keyed by `token`, cloned out of the table, if any.
fn token_row(toks: &Vec<TokenRow>, token: &String) -> (r: Option<TokenRow>)
    ensures
        match token_by_id(rows_view(toks@), token@) {
            Some(t) => r matches Some(rt) && rt@ == t,
            None => r is None,
        },
{
    match token_index(toks, token) {
        Some(i) => {
            proof {
                lemma_first_match_found(
                    rows_view(toks@),
                    |t: TokenV| t.id == token@,
                    i as int,
                );
            }
            Some(toks[i].clone())
        },
        None => {
            proof {
                lemma_first_match_absent(rows_view(toks@), |t: TokenV| t.id == token@);
            }
            None
        },
    }
}

/// The in-memory credential store.
pub struct Store {
    users: Vec<UserModel>,
    sessions: Vec<SessionModel>,
    verification_tokens: Vec<TokenRow>,
    reset_tokens: Vec<TokenRow>,
}

impl View for Store {
    type V = StoreV;

    closed spec fn view(&self) -> StoreV {
        StoreV {
            users: self.users@.map_values(|u: UserModel| u@),
            sessions: self.sessions@.map_values(|s: SessionModel| s@),
            verification_tokens: self.verification_tokens@.map_values(|t: TokenRow| t@),
            reset_tokens: self.reset_tokens@.map_values(|t: TokenRow| t@),
        }
    }
}

impl Store {
    /// An empty store; trivially well-formed.
    pub fn new() -> (r: Store)
        ensures
            store_wf(r@),
            r@.users.len() == 0,
            r@.sessions.len() == 0,
            r@.verification_tokens.len() == 0,
            r@.reset_tokens.len() == 0,
    {
        let r = Store {
            users: Vec::new(),
            sessions: Vec::new(),
            verification_tokens: Vec::new(),
            reset_tokens: Vec::new(),
        };
        proof {
            assert(r@.users =~= Seq::<UserV>::empty());
            assert(r@.sessions =~= Seq::<SessionV>::empty());
            assert(r@.verification_tokens =~= Seq::<TokenV>::empty());
            assert(r@.reset_tokens =~= Seq::<TokenV>::empty());
        }
        r
    }

    /// Index of the user row holding the given email, if any; the returned
    /// index is the first (and, in a well-formed store, the only) match.
    fn user_index_by_email(&self, email: &String) -> (r: Option<usize>)
        ensures
            match r {
                Some(i) => i < self@.users.len() && self@.users[i as int].email == email@ && (
                forall|j: int| 0 <= j < i ==> self@.users[j].email != email@),
                None => forall|j: int| 0 <= j < self@.users.len() ==> self@.users[j].email
                    != email@,
            },
    {
        let mut i: usize = 0;
        while i < self.users.len()
            invariant
                i <= self.users.len(),
                self@.users.len() == self.users.len(),
                forall|j: int| 0 <= j < i ==> self@.users[j].email != email@,
            decreases self.users.len() - i,
        {
            if self.users[i].email == *email {
                return Some(i);
            }
            i = i + 1;
        }
        None
    }

    /// Index of the user row holding the given username, if any.
    fn user_index_by_username(&self, username: &String) -> (r: Option<usize>)
        ensures
            match r {
                Some(i) => i < self@.users.len() && self@.users[i as int].username == username@
                    && (forall|j: int| 0 <= j < i ==> self@.users[j].username != username@),
                None => forall|j: int| 0 <= j < self@.users.len() ==> self@.users[j].username
                    != username@,
            },
    {
        let mut i: usize = 0;
        while i < self.users.len()
            invariant
                i <= self.users.len(),
                self@.users.len() == self.users.len(),
                forall|j: int| 0 <= j < i ==> self@.users[j].username != username@,
            decreases self.users.len() - i,
        {
            if self.users[i].username == *username {
                return Some(i);
            }
            i = i + 1;
        }
        None
    }

    /// Index of the user row holding the given id, if any.
    fn user_index_by_id(&self, id: u128) -> (r: Option<usize>)
        ensures
            match r {
                Some(i) => i < self@.users.len() && self@.users[i as int].id == id && (forall|
                    j: int,
                | 0 <= j < i ==> self@.users[j].id != id),
                None => forall|j: int| 0 <= j < self@.users.len() ==> self@.users[j].id != id,
            },
    {
        let mut i: usize = 0;
        while i < self.users.len()
            invariant
                i <= self.users.len(),
                self@.users.len() == self.users.len(),
                forall|j: int| 0 <= j < i ==> self@.users[j].id != id,
            decreases self.users.len() - i,
        {
            if self.users[i].id == id {
                return Some(i);
            }
            i = i + 1;
        }
        None
    }

    /// Index of the session row holding the given id, if any.
    fn session_index(&self, id: u128) -> (r: Option<usize>)
        ensures
            match r {
                Some(i) => i < self@.sessions.len() && self@.sessions[i as int].id == id && (
                forall|j: int| 0 <= j < i ==> self@.sessions[j].id != id),
                None => forall|j: int| 0 <= j < self@.sessions.len() ==> self@.sessions[j].id
                    != id,
            },
    {
        let mut i: usize = 0;
        while i < self.sessions.len()
            invariant
                i <= self.sessions.len(),
                self@.sessions.len() == self.sessions.len(),
                forall|j: int| 0 <= j < i ==> self@.sessions[j].id != id,
            decreases self.sessions.len() - i,
        {
            if self.sessions[i].id == id {
                return Some(i);
            }
            i = i + 1;
        }
        None
    }

    /// The user with the given email. Fails as the persistence layer does
    /// when no row matches: an unprocessable-entity error naming the field.
    pub fn find_user_by_email(&self, email: &str) -> (r: Result<UserModel, Error>)
        ensures
            match user_by_email(self@.users, email@) {
                Some(u) => r matches Ok(ru) && ru@ == u,
                None => r matches Err(e) && unprocessable_with(
                    e@,
                    "email"@,
                    "email does not exist"@,
                ),
            },
    {
        let email_s = email.to_owned();
        let found = self.user_index_by_email(&email_s);
        match found {
            Some(i) => {
                proof {
                    lemma_first_match_found(
                        self@.users,
                        |u: UserV| u.email == email@,
                        i as int,
                    );
                }
                Ok(self.users[i].clone())
            },
            None => {
                proof {
                    lemma_first_match_absent(self@.users, |u: UserV| u.email == email@);
                }
                Err(Error::unprocessable_entity(FieldError::new(
                    Some("email"),
                    "email does not exist",
                )))
            },
        }
    }

    /// Inserts a new user row, unverified, with the given id and password
    /// hash. Fails with a field-level conflict when the username or the email
    /// is already taken (username checked first, as the unique constraints
    /// fire), and as an internal error on an id collision.
    pub fn create_user(
        &mut self,
        id: u128,
        username: &str,
        email: &str,
        password_hash: &str,
        now: i64,
    ) -> (r: Result<u128, Error>)
        requires
            store_wf(old(self)@),
        ensures
            store_wf(final(self)@),
            match user_by_username(old(self)@.users, username@) {
                Some(_) => r matches Err(e) && unprocessable_with(
                    e@,
                    "username"@,
                    "username taken"@,
                ) && final(self)@ == old(self)@,
                None => match user_by_email(old(self)@.users, email@) {
                    Some(_) => r matches Err(e) && unprocessable_with(
                        e@,
                        "email"@,
                        "email taken"@,
                    ) && final(self)@ == old(self)@,
                    None => match user_by_id(old(self)@.users, id) {
                        Some(_) => r matches Err(e) && e@ is Internal && final(self)@ == old(self)@,
                        None => ({
                            &&& r matches Ok(rid) && rid == id
                            &&& final(self)@.users == old(self)@.users.push(
                                UserV {
                                    id,
                                    username: username@,
                                    email: email@,
                                    email_verified: false,
                                    password_hash: password_hash@,
                                    created_at: now,
                                    updated_at: now,
                                },
                            )
                            &&& final(self)@.sessions == old(self)@.sessions
                            &&& final(self)@.verification_tokens == old(self)@.verification_tokens
                            &&& final(self)@.reset_tokens == old(self)@.reset_tokens
                        }),
                    },
                },
            },
    {
        let username_s = username.to_owned();
        let email_s = email.to_owned();
        match self.user_index_by_username(&username_s) {
            Some(i) => {
                proof {
                    lemma_first_match_found(
                        self@.users,
                        |u: UserV| u.username == username@,
                        i as int,
                    );
                }
                return Err(Error::unprocessable_entity(FieldError::new(
                    Some("username"),
                    "username taken",
                )));
            },
            None => {
                proof {
                    lemma_first_match_absent(self@.users, |u: UserV| u.username == username@);
                }
            },
        }
        match self.user_index_by_email(&email_s) {
            Some(i) => {
                proof {
                    lemma_first_match_found(self@.users, |u: UserV| u.email == email@, i as int);
                }
                return Err(Error::unprocessable_entity(FieldError::new(
                    Some("email"),
                    "email taken",
                )));
            },
            None => {
                proof {
                    lemma_first_match_absent(self@.users, |u: UserV| u.email == email@);
                }
            },
        }
        match self.user_index_by_id(id) {
            Some(i) => {
                proof {
                    lemma_first_match_found(self@.users, |u: UserV| u.id == id, i as int);
                }
                return Err(Error::Internal);
            },
            None => {
                proof {
                    lemma_first_match_absent(self@.users, |u: UserV| u.id == id);
                }
            },
        }
        let ghost before = self@.users;
        self.users.push(
            UserModel {
                id,
                username: username_s,
                email: email_s,
                email_verified: false,
                password_hash: password_hash.to_owned(),
                created_at: now,
                updated_at: now,
            },
        );
        proof {
            let uv = UserV {
                id,
                username: username@,
                email: email@,
                email_verified: false,
                password_hash: password_hash@,
                created_at: now,
                updated_at: now,
            };
            assert(self@.users =~= before.push(uv));
            let nu = self@.users;
            assert forall|a: int, b: int|
                #![trigger nu[a], nu[b]]
                0 <= a < nu.len() && 0 <= b < nu.len() && a != b implies {
                &&& nu[a].id != nu[b].id
                &&& nu[a].username != nu[b].username
                &&& nu[a].email != nu[b].email
            } by {
                if a < before.len() && b < before.len() {
                    assert(before[a] == nu[a] && before[b] == nu[b]);
                }
            }
        }
        Ok(id)
    }

    /// Persists a fresh email-verification token row for `user_id`, expiring
    /// at `expires`. Fails as an internal error when the token string
    /// collides with a stored one.
    pub fn insert_verification_token(&mut self, token: &str, expires: i64, user_id: u128) -> (r:
        Result<(), Error>)
        requires
            store_wf(old(self)@),
        ensures
            store_wf(final(self)@),
            match token_by_id(old(self)@.verification_tokens, token@) {
                Some(_) => r matches Err(e) && e@ is Internal && final(self)@ == old(self)@,
                None => ({
                    &&& r is Ok
                    &&& final(self)@.verification_tokens == old(self)@.verification_tokens.push(
                        TokenV { id: token@, active_expires: expires, user_id },
                    )
                    &&& final(self)@.users == old(self)@.users
                    &&& final(self)@.sessions == old(self)@.sessions
                    &&& final(self)@.reset_tokens == old(self)@.reset_tokens
                }),
            },
    {
        let r = insert_token(&mut self.verification_tokens, token, expires, user_id);
        proof {
            if token_by_id(old(self)@.verification_tokens, token@) is Some {
                assert(self@ =~= old(self)@);
            }
        }
        r
    }

    /// Persists a fresh password-reset token row for `user_id`, expiring at
    /// `expires`. Fails as an internal error on a token-string collision.
    pub fn insert_reset_password_token(&mut self, token: &str, expires: i64, user_id: u128) -> (r:
        Result<(), Error>)
        requires
            store_wf(old(self)@),
        ensures
            store_wf(final(self)@),
            match token_by_id(old(self)@.reset_tokens, token@) {
                Some(_) => r matches Err(e) && e@ is Internal && final(self)@ == old(self)@,
                None => ({
                    &&& r is Ok
                    &&& final(self)@.reset_tokens == old(self)@.reset_tokens.push(
                        TokenV { id: token@, active_expires: expires, user_id },
                    )
                    &&& final(self)@.users == old(self)@.users
                    &&& final(self)@.sessions == old(self)@.sessions
                    &&& final(self)@.verification_tokens == old(self)@.verification_tokens
                }),
            },
    {
        let r = insert_token(&mut self.reset_tokens, token, expires, user_id);
        proof {
            if token_by_id(old(self)@.reset_tokens, token@) is Some {
                assert(self@ =~= old(self)@);
            }
        }
        r
    }

    /// Marks the user of the given id as email-verified. Succeeds — as an
    /// `UPDATE` touching no row does — even when the id is unknown, leaving
    /// the table unchanged in that case.
    pub fn verify_user(&mut self, user_id: u128) -> (r: Result<(), Error>)
        requires
            store_wf(old(self)@),
        ensures
            store_wf(final(self)@),
            r is Ok,
            final(self)@.users == with_user_verified(old(self)@.users, user_id),
            final(self)@.sessions == old(self)@.sessions,
            final(self)@.verification_tokens == old(self)@.verification_tokens,
            final(self)@.reset_tokens == old(self)@.reset_tokens,
    {
        let ghost before = self@.users;
        match self.user_index_by_id(user_id) {
            Some(i) => {
                let row = self.users[i].clone();
                self.users[i] = UserModel { email_verified: true, ..row };
                proof {
                    assert forall|a: int, b: int|
                        #![trigger self@.users[a], self@.users[b]]
                        0 <= a < self@.users.len() && 0 <= b < self@.users.len() && a
                            != b implies {
                        &&& self@.users[a].id != self@.users[b].id
                        &&& self@.users[a].username != self@.users[b].username
                        &&& self@.users[a].email != self@.users[b].email
                    } by {
                        assert(self@.users[a].id == before[a].id && self@.users[a].username
                            == before[a].username && self@.users[a].email == before[a].email);
                        assert(self@.users[b].id == before[b].id && self@.users[b].username
                            == before[b].username && self@.users[b].email == before[b].email);
                    }
                    assert(self@.users =~= with_user_verified(before, user_id));
                }
            },
            None => {
                proof {
                    assert(self@.users =~= with_user_verified(before, user_id));
                }
            },
        }
        Ok(())
    }

    /// Replaces the password hash of the user of the given id. Succeeds even
    /// when the id is unknown, leaving the table unchanged in that case.
    pub fn reset_user_password(&mut self, user_id: u128, password: &str) -> (r: Result<(), Error>)
        requires
            store_wf(old(self)@),
        ensures
            store_wf(final(self)@),
            r is Ok,
            final(self)@.users == with_user_password(old(self)@.users, user_id, password@),
            final(self)@.sessions == old(self)@.sessions,
            final(self)@.verification_tokens == old(self)@.verification_tokens,
            final(self)@.reset_tokens == old(self)@.reset_tokens,
    {
        let ghost before = self@.users;
        match self.user_index_by_id(user_id) {
            Some(i) => {
                let row = self.users[i].clone();
                self.users[i] = UserModel { password_hash: password.to_owned(), ..row };
                proof {
                    assert forall|a: int, b: int|
                        #![trigger self@.users[a], self@.users[b]]
                        0 <= a < self@.users.len() && 0 <= b < self@.users.len() && a
                            != b implies {
                        &&& self@.users[a].id != self@.users[b].id
                        &&& self@.users[a].username != self@.users[b].username
                        &&& self@.users[a].email != self@.users[b].email
                    } by {
                        assert(self@.users[a].id == before[a].id && self@.users[a].username
                            == before[a].username && self@.users[a].email == before[a].email);
                        assert(self@.users[b].id == before[b].id && self@.users[b].username
                            == before[b].username && self@.users[b].email == before[b].email);
                    }
                    assert(self@.users =~= with_user_password(before, user_id, password@));
                }
            },
            None => {
                proof {
                    assert(self@.users =~= with_user_password(before, user_id, password@));
                }
            },
        }
        Ok(())
    }

    /// Deletes the email-verification token row keyed by `token`; succeeds
    /// whether or not the row exists.
    pub fn delete_email_token(&mut self, token: &str) -> (r: Result<(), Error>)
        requires
            store_wf(old(self)@),
        ensures
            store_wf(final(self)@),
            r is Ok,
            final(self)@.verification_tokens == without_token(old(self)@.verification_tokens, token@),
            final(self)@.users == old(self)@.users,
            final(self)@.sessions == old(self)@.sessions,
            final(self)@.reset_tokens == old(self)@.reset_tokens,
    {
        let token_s = token.to_owned();
        remove_token_row(&mut self.verification_tokens, &token_s);
        Ok(())
    }

    /// Deletes the password-reset token row keyed by `token`; succeeds
    /// whether or not the row exists.
    pub fn delete_reset_password_token(&mut self, token: &str) -> (r: Result<(), Error>)
        requires
            store_wf(old(self)@),
        ensures
            store_wf(final(self)@),
            r is Ok,
            final(self)@.reset_tokens == without_token(old(self)@.reset_tokens, token@),
            final(self)@.users == old(self)@.users,
            final(self)@.sessions == old(self)@.sessions,
            final(self)@.verification_tokens == old(self)@.verification_tokens,
    {
        let token_s = token.to_owned();
        remove_token_row(&mut self.reset_tokens, &token_s);
        Ok(())
    }

    /// The email-verification token row keyed by `token`. Fails — as a
    /// single-row fetch does — when no row matches.
    pub fn get_user_from_email_token(&self, token: &str) -> (r: Result<TokenRow, Error>)
        ensures
            match token_by_id(self@.verification_tokens, token@) {
                Some(t) => r matches Ok(rt) && rt@ == t,
                None => r matches Err(e) && e@ is Internal,
            },
    {
        let token_s = token.to_owned();
        match token_row(&self.verification_tokens, &token_s) {
            Some(t) => Ok(t),
            None => Err(Error::Internal),
        }
    }

    /// The password-reset token row keyed by `token`. Fails — as a
    /// single-row fetch does — when no row matches.
    pub fn get_user_from_reset_password_token(&self, token: &str) -> (r: Result<TokenRow, Error>)
        ensures
            match token_by_id(self@.reset_tokens, token@) {
                Some(t) => r matches Ok(rt) && rt@ == t,
                None => r matches Err(e) && e@ is Internal,
            },
    {
        let token_s = token.to_owned();
        match token_row(&self.reset_tokens, &token_s) {
            Some(t) => Ok(t),
            None => Err(Error::Internal),
        }
    }

    /// Inserts a session row under the given id, bound to `user_id`, with
    /// the opaque settings payload and an absolute expiry. Fails as an
    /// internal error on a session-id collision.
    pub fn create_session(
        &mut self,
        session_id: u128,
        user_id: u128,
        data: MyData,
        expiry_date: i64,
    ) -> (r: Result<SessionResponse, Error>)
        requires
            store_wf(old(self)@),
        ensures
            store_wf(final(self)@),
            match session_by_id(old(self)@.sessions, session_id) {
                Some(_) => r matches Err(e) && e@ is Internal && final(self)@ == old(self)@,
                None => ({
                    &&& r matches Ok(resp) && resp.id == session_id
                    &&& final(self)@.sessions == old(self)@.sessions.push(
                        SessionV { id: session_id, user_id, data: data@, expiry_date },
                    )
                    &&& final(self)@.users == old(self)@.users
                    &&& final(self)@.verification_tokens == old(self)@.verification_tokens
                    &&& final(self)@.reset_tokens == old(self)@.reset_tokens
                }),
            },
    {
        match self.session_index(session_id) {
            Some(i) => {
                proof {
                    lemma_first_match_found(
                        self@.sessions,
                        |s: SessionV| s.id == session_id,
                        i as int,
                    );
                }
                Err(Error::Internal)
            },
            None => {
                proof {
                    lemma_first_match_absent(self@.sessions, |s: SessionV| s.id == session_id);
                }
                let ghost before = self@.sessions;
                let ghost dv = data@;
                self.sessions.push(
                    SessionModel { id: session_id, user_id, data, expiry_date },
                );
                proof {
                    let sv = SessionV { id: session_id, user_id, data: dv, expiry_date };
                    assert(self@.sessions =~= before.push(sv));
                    let ns = self@.sessions;
                    assert forall|a: int, b: int|
                        #![trigger ns[a], ns[b]]
                        0 <= a < ns.len() && 0 <= b < ns.len() && a != b implies ns[a].id
                        != ns[b].id by {
                        if a < before.len() && b < before.len() {
                            assert(before[a] == ns[a] && before[b] == ns[b]);
                        }
                    }
                }
                Ok(SessionResponse { id: session_id })
            },
        }
    }

    /// The session row keyed by `session_id`. Fails `Forbidden` — as the
    /// middleware's lookup does — when no row matches.
    pub fn get_session(&self, session_id: u128) -> (r: Result<SessionModel, Error>)
        ensures
            match session_by_id(self@.sessions, session_id) {
                Some(s) => r matches Ok(rs) && rs@ == s,
                None => r matches Err(e) && e@ is Forbidden,
            },
    {
        match self.session_index(session_id) {
            Some(i) => {
                proof {
                    lemma_first_match_found(
                        self@.sessions,
                        |s: SessionV| s.id == session_id,
                        i as int,
                    );
                }
                Ok(self.sessions[i].clone())
            },
            None => {
                proof {
                    lemma_first_match_absent(self@.sessions, |s: SessionV| s.id == session_id);
                }
                Err(Error::Forbidden)
            },
        }
    }
}

} // verus!
