//! Credential validator and login decision. An unknown username and a wrong
//! password are indistinguishable to the caller, and a lookup miss still
//! costs one hash comparison against a fixed dummy hash, so the two failure
//! paths do the same work.

use crate::codec::{percent_encode, percent_encoded, sign, sign_spec};
use crate::session::{find_session, session_user, SessionStore};
use crate::store::{bytes_eq, StorageError};
use crate::text::{
    admin_dashboard_path, admin_dashboard_path_text, authentication_failed,
    authentication_failed_text, login_error_query, login_error_query_text, something_went_wrong,
    something_went_wrong_text, tag_query, tag_query_text,
};
use vstd::prelude::*;

verus! {

/// Why a login attempt failed; InvalidCredentials is deliberately the same
/// for an unknown user and a wrong password.
#[derive(Clone, Copy, Debug, PartialEq, Eq, Structural)]
pub enum AuthError {
    InvalidCredentials,
    UnexpectedError,
}

/// The login route's error taxonomy, mapped one-to-one onto redirect
/// messages.
#[derive(Clone, Copy, Debug, PartialEq, Eq, Structural)]
pub enum LoginError {
    AuthError,
    UnexpectedError,
}

/// Spec: the user-facing message of a login failure.
pub open spec fn login_error_message(e: LoginError) -> Seq<u8> {
    match e {
        LoginError::AuthError => authentication_failed_text(),
        LoginError::UnexpectedError => something_went_wrong_text(),
    }
}

/// Spec: the login failure an authentication outcome maps to.
pub open spec fn login_error_of(e: AuthError) -> LoginError {
    match e {
        AuthError::InvalidCredentials => LoginError::AuthError,
        AuthError::UnexpectedError => LoginError::UnexpectedError,
    }
}

impl LoginError {
    /// The user-facing description of this failure.
    pub fn message(&self) -> (r: Vec<u8>)
        ensures
            r@ == login_error_message(*self),
    {
        match self {
            LoginError::AuthError => authentication_failed(),
            LoginError::UnexpectedError => something_went_wrong(),
        }
    }

    /// Every login failure answers with a redirect.
    pub fn status_code(&self) -> (r: u16)
        ensures
            r == 303,
    {
        303
    }
}

/// A stored user row: only a salted, opaque password hash persists.
pub struct UserRecord {
    pub user_id: u128,
    pub username: Vec<u8>,
    pub password_hash: Vec<u8>,
}

/// Spec-level image of a user row.
pub ghost struct UserRow {
    pub user_id: u128,
    pub username: Seq<u8>,
    pub password_hash: Seq<u8>,
}

impl UserRecord {
    /// Spec: the row this record stands for.
    pub open spec fn view(&self) -> UserRow {
        UserRow {
            user_id: self.user_id,
            username: self.username@,
            password_hash: self.password_hash@,
        }
    }
}

/// Spec: usernames and user ids are pairwise distinct.
pub open spec fn unique_users(rows: Seq<UserRow>) -> bool {
    &&& forall|i: int, j: int|
        0 <= i < j < rows.len() ==> (#[trigger] rows[i]).username != (#[trigger] rows[j]).username
    &&& forall|i: int, j: int|
        0 <= i < j < rows.len() ==> (#[trigger] rows[i]).user_id != (#[trigger] rows[j]).user_id
}

/// Spec: the first user row carrying this username, if any.
pub open spec fn find_user(rows: Seq<UserRow>, username: Seq<u8>) -> Option<UserRow>
    decreases rows.len(),
{
    if rows.len() == 0 {
        None
    } else if rows[0].username == username {
        Some(rows[0])
    } else {
        find_user(rows.drop_first(), username)
    }
}

/// Spec: the username of the user row carrying this id, if any.
pub open spec fn username_of(rows: Seq<UserRow>, user_id: u128) -> Option<Seq<u8>>
    decreases rows.len(),
{
    if rows.len() == 0 {
        None
    } else if rows[0].user_id == user_id {
        Some(rows[0].username)
    } else {
        username_of(rows.drop_first(), user_id)
    }
}

proof fn lemma_find_user_at(rows: Seq<UserRow>, username: Seq<u8>, i: int)
    requires
        0 <= i < rows.len(),
        rows[i].username == username,
        forall|j: int| 0 <= j < i ==> (#[trigger] rows[j]).username != username,
    ensures
        find_user(rows, username) == Some(rows[i]),
    decreases rows.len(),
{
    if i > 0 {
        assert(forall|j: int|
            0 <= j < i - 1 ==> (#[trigger] rows.drop_first()[j]).username != username);
        assert(rows.drop_first()[i - 1] == rows[i]);
        lemma_find_user_at(rows.drop_first(), username, i - 1);
    }
}

proof fn lemma_find_user_none(rows: Seq<UserRow>, username: Seq<u8>)
    requires
        forall|j: int| 0 <= j < rows.len() ==> (#[trigger] rows[j]).username != username,
    ensures
        find_user(rows, username) is None,
    decreases rows.len(),
{
    if rows.len() > 0 {
        assert(forall|j: int|
            0 <= j < rows.drop_first().len() ==> (#[trigger] rows.drop_first()[j]).username
                != username);
        lemma_find_user_none(rows.drop_first(), username);
    }
}

proof fn lemma_username_of_at(rows: Seq<UserRow>, user_id: u128, i: int)
    requires
        0 <= i < rows.len(),
        rows[i].user_id == user_id,
        forall|j: int| 0 <= j < i ==> (#[trigger] rows[j]).user_id != user_id,
    ensures
        username_of(rows, user_id) == Some(rows[i].username),
    decreases rows.len(),
{
    if i > 0 {
        assert(forall|j: int|
            0 <= j < i - 1 ==> (#[trigger] rows.drop_first()[j]).user_id != user_id);
        assert(rows.drop_first()[i - 1] == rows[i]);
        lemma_username_of_at(rows.drop_first(), user_id, i - 1);
    }
}

proof fn lemma_username_of_none(rows: Seq<UserRow>, user_id: u128)
    requires
        forall|j: int| 0 <= j < rows.len() ==> (#[trigger] rows[j]).user_id != user_id,
    ensures
        username_of(rows, user_id) is None,
    decreases rows.len(),
{
    if rows.len() > 0 {
        assert(forall|j: int|
            0 <= j < rows.drop_first().len() ==> (#[trigger] rows.drop_first()[j]).user_id
                != user_id);
        lemma_username_of_none(rows.drop_first(), user_id);
    }
}

/// The users table the validator reads.
pub struct UserStore {
    users: Vec<UserRecord>,
}

impl UserStore {
    /// Spec: the user rows.
    pub closed spec fn rows(&self) -> Seq<UserRow> {
        self.users@.map_values(|r: UserRecord| r@)
    }

    /// Spec: the store invariant.
    pub open spec fn wf(&self) -> bool {
        unique_users(self.rows())
    }

    /// An empty users table.
    pub fn new() -> (r: UserStore)
        ensures
            r.wf(),
            r.rows() =~= Seq::<UserRow>::empty(),
    {
        let r = UserStore { users: Vec::new() };
        proof {
            assert(r.rows() =~= Seq::<UserRow>::empty());
        }
        r
    }

    /// Insert a user row. Fails exactly on a username or id collision,
    /// changing nothing.
    pub fn add_user(&mut self, user_id: u128, username: Vec<u8>, password_hash: Vec<u8>) -> (r:
        Result<(), StorageError>)
        requires
            old(self).wf(),
        ensures
            final(self).wf(),
            r is Ok <==> (find_user(old(self).rows(), username@) is None && username_of(
                old(self).rows(),
                user_id,
            ) is None),
            r is Ok ==> final(self).rows() == old(self).rows().push(
                UserRow { user_id, username: username@, password_hash: password_hash@ },
            ),
            r is Err ==> *final(self) == *old(self),
    {
        let mut i: usize = 0;
        while i < self.users.len()
            invariant
                self.wf(),
                i <= self.users@.len(),
                self.rows().len() == self.users@.len(),
                forall|j: int| 0 <= j < i ==> (#[trigger] self.rows()[j]).username != username@,
                forall|j: int| 0 <= j < i ==> (#[trigger] self.rows()[j]).user_id != user_id,
            decreases self.users@.len() - i,
        {
            if bytes_eq(self.users[i].username.as_slice(), username.as_slice()) {
                proof {
                    lemma_find_user_at(self.rows(), username@, i as int);
                }
                return Err(StorageError);
            }
            if self.users[i].user_id == user_id {
                proof {
                    lemma_username_of_at(self.rows(), user_id, i as int);
                }
                return Err(StorageError);
            }
            i = i + 1;
        }
        proof {
            lemma_find_user_none(self.rows(), username@);
            lemma_username_of_none(self.rows(), user_id);
        }
        let ghost old_rows = self.rows();
        self.users.push(UserRecord { user_id, username, password_hash });
        proof {
            assert(self.rows() =~= old_rows.push(self.rows().last()));
        }
        Ok(())
    }

    /// The id and stored hash of the user carrying this username, if any.
    pub fn lookup(&self, username: &[u8]) -> (r: Option<(u128, Vec<u8>)>)
        requires
            self.wf(),
        ensures
            r is None <==> find_user(self.rows(), username@) is None,
            r matches Some((uid, hash)) ==> find_user(self.rows(), username@) == Some(
                UserRow { user_id: uid, username: username@, password_hash: hash@ },
            ),
    {
        let mut i: usize = 0;
        while i < self.users.len()
            invariant
                self.wf(),
                i <= self.users@.len(),
                self.rows().len() == self.users@.len(),
                forall|j: int| 0 <= j < i ==> (#[trigger] self.rows()[j]).username != username@,
            decreases self.users@.len() - i,
        {
            if bytes_eq(self.users[i].username.as_slice(), username) {
                proof {
                    lemma_find_user_at(self.rows(), username@, i as int);
                }
                return Some((self.users[i].user_id, self.users[i].password_hash.clone()));
            }
            i = i + 1;
        }
        proof {
            lemma_find_user_none(self.rows(), username@);
        }
        None
    }

    /// The username behind a user id, if any; protected pages greet by it.
    pub fn get_username(&self, user_id: u128) -> (r: Option<Vec<u8>>)
        requires
            self.wf(),
        ensures
            r is None <==> username_of(self.rows(), user_id) is None,
            r matches Some(name) ==> username_of(self.rows(), user_id) == Some(name@),
    {
        let mut i: usize = 0;
        while i < self.users.len()
            invariant
                self.wf(),
                i <= self.users@.len(),
                self.rows().len() == self.users@.len(),
                forall|j: int| 0 <= j < i ==> (#[trigger] self.rows()[j]).user_id != user_id,
            decreases self.users@.len() - i,
        {
            if self.users[i].user_id == user_id {
                proof {
                    lemma_username_of_at(self.rows(), user_id, i as int);
                }
                return Some(self.users[i].username.clone());
            }
            i = i + 1;
        }
        proof {
            lemma_username_of_none(self.rows(), user_id);
        }
        None
    }
}

/// Spec: the dummy hash compared against when the username is unknown.
pub open spec fn dummy_hash_text() -> Seq<u8> {
    Seq::new(32, |i: int| 0u8)
}

/// The fixed hash checked for unknown usernames, so that a lookup miss
/// still performs one comparison.
pub fn dummy_password_hash() -> (r: Vec<u8>)
    ensures
        r@ == dummy_hash_text(),
{
    let mut v: Vec<u8> = Vec::new();
    let mut i: usize = 0;
    while i < 32
        invariant
            i <= 32,
            v@ =~= Seq::new(i as nat, |k: int| 0u8),
        decreases 32 - i,
    {
        v.push(0);
        proof {
            assert(v@ =~= Seq::new((i + 1) as nat, |k: int| 0u8));
        }
        i = i + 1;
    }
    proof {
        assert(v@ =~= dummy_hash_text());
    }
    v
}

/// Spec: the outcome `validate` owes for a users table, a username and the
/// hash of the submitted secret.
pub open spec fn validate_spec(rows: Seq<UserRow>, username: Seq<u8>, candidate: Seq<u8>) -> Result<
    u128,
    AuthError,
> {
    match find_user(rows, username) {
        None => Err(AuthError::InvalidCredentials),
        Some(u) => if u.password_hash == candidate {
            Ok(u.user_id)
        } else {
            Err(AuthError::InvalidCredentials)
        },
    }
}

/// Validate a login attempt: succeed exactly when the username exists and
/// the candidate hash equals the stored hash; fail with the same error kind
/// for an unknown user and for a wrong secret, and compare a dummy hash on
/// a lookup miss so both paths cost one comparison.
pub fn validate(users: &UserStore, username: &[u8], candidate_hash: &[u8]) -> (r: Result<
    u128,
    AuthError,
>)
    requires
        users.wf(),
    ensures
        r == validate_spec(users.rows(), username@, candidate_hash@),
{
    match users.lookup(username) {
        None => {
            let dummy = dummy_password_hash();
            let _ = bytes_eq(dummy.as_slice(), candidate_hash);
            Err(AuthError::InvalidCredentials)
        },
        Some((uid, stored)) => {
            if bytes_eq(stored.as_slice(), candidate_hash) {
                Ok(uid)
            } else {
                Err(AuthError::InvalidCredentials)
            }
        },
    }
}

/// Law: an unknown username and a known username with a wrong secret yield
/// the very same error value.
pub proof fn lemma_validate_uniform_failure(
    rows: Seq<UserRow>,
    missing: Seq<u8>,
    present: Seq<u8>,
    candidate: Seq<u8>,
)
    requires
        find_user(rows, missing) is None,
        find_user(rows, present) matches Some(u) && u.password_hash != candidate,
    ensures
        validate_spec(rows, missing, candidate) == Err::<u128, AuthError>(
            AuthError::InvalidCredentials,
        ),
        validate_spec(rows, present, candidate) == validate_spec(rows, missing, candidate),
{
}

/// A redirect answer: HTTP status and target.
pub struct Redirect {
    pub status: u16,
    pub location: Vec<u8>,
}

/// Spec: the location of the redirect a login failure answers with: the
/// login page with the failure message and its authentication tag.
pub open spec fn login_failure_location(e: LoginError, key: Seq<u8>) -> Seq<u8> {
    login_error_query_text() + percent_encoded(login_error_message(e)) + tag_query_text()
        + sign_spec(login_error_message(e), key)
}

fn failure_location(e: LoginError, key: &[u8]) -> (r: Vec<u8>)
    ensures
        r@ == login_failure_location(e, key@),
{
    let msg = match e {
        LoginError::AuthError => authentication_failed(),
        LoginError::UnexpectedError => something_went_wrong(),
    };
    let mut loc = login_error_query();
    let mut enc = percent_encode(msg.as_slice());
    loc.append(&mut enc);
    let mut tq = tag_query();
    loc.append(&mut tq);
    let mut tag = sign(msg.as_slice(), key);
    loc.append(&mut tag);
    proof {
        assert(loc@ =~= login_failure_location(e, key@));
    }
    loc
}

/// Decide a login attempt's HTTP answer. On success a session is created
/// under the caller-supplied fresh id and the client goes to the dashboard;
/// on any failure nothing is stored and the client goes back to the login
/// page carrying the signed failure message.
pub fn login(
    sessions: &mut SessionStore,
    session_id: Vec<u8>,
    outcome: Result<u128, AuthError>,
    key: &[u8],
) -> (r: (Redirect, Option<LoginError>))
    requires
        old(sessions).wf(),
    ensures
        final(sessions).wf(),
        r.0.status == 303,
        outcome matches Ok(uid) ==> (if find_session(old(sessions).rows(), session_id@) is None {
            &&& r.0.location@ == admin_dashboard_path_text()
            &&& r.1 is None
            &&& session_user(final(sessions).rows(), session_id@) == Some(uid)
            &&& forall|other: Seq<u8>|
                other != session_id@ ==> find_session(final(sessions).rows(), other)
                    == find_session(old(sessions).rows(), other)
        } else {
            &&& r.0.location@ == login_failure_location(LoginError::UnexpectedError, key@)
            &&& r.1 == Some(LoginError::UnexpectedError)
            &&& *final(sessions) == *old(sessions)
        }),
        outcome matches Err(e) ==> ({
            &&& *final(sessions) == *old(sessions)
            &&& r.0.location@ == login_failure_location(login_error_of(e), key@)
            &&& r.1 == Some(login_error_of(e))
        }),
{
    match outcome {
        Ok(uid) => {
            match sessions.create(session_id, Some(uid)) {
                Ok(()) => (Redirect { status: 303, location: admin_dashboard_path() }, None),
                Err(_) => (
                    Redirect {
                        status: 303,
                        location: failure_location(LoginError::UnexpectedError, key),
                    },
                    Some(LoginError::UnexpectedError),
                ),
            }
        },
        Err(e) => {
            let le = match e {
                AuthError::InvalidCredentials => LoginError::AuthError,
                AuthError::UnexpectedError => LoginError::UnexpectedError,
            };
            (Redirect { status: 303, location: failure_location(le, key) }, Some(le))
        },
    }
}

} // verus!
