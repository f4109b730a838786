//! The authentication service: the Register and Login flows over the
//! credential store and the hashing engine, and the closed error taxonomy
//! with its fixed response mapping.

use crate::hashing::{hash_password, is_artifact, verifies, verify_password};
use crate::store::{email_taken, username_taken, CredentialStore, UserRecord, UserView};
use vstd::prelude::*;

verus! {

/// A registration request: the caller's chosen identity and password.
#[derive(Debug)]
pub struct RegisterRequest {
    pub username: String,
    pub email: String,
    pub password: String,
}

/// The opaque acknowledgement of a successful registration; it echoes no
/// credential back.
#[derive(Debug)]
pub struct RegisterResponse {
    pub msg: String,
}

/// A login request: the claimed identity and the password to check.
#[derive(Debug)]
pub struct LoginRequest {
    pub username: String,
    pub password: String,
}

/// The opaque acknowledgement of a successful login.
#[derive(Debug)]
pub struct LoginResponse {
    pub msg: String,
}

/// The errors an authentication flow can end in. Each variant carries no
/// detail of the underlying cause outward.
#[derive(Clone, Copy, Debug, PartialEq, Eq, Structural)]
pub enum AuthError {
    /// Login failed: unknown username, wrong password, or an unreadable
    /// stored artifact. One variant for all three, so that a caller cannot
    /// tell an unknown user from a wrong password.
    InvalidCredentials,
    /// Registration failed: the username is already in use.
    UsernameTaken,
    /// Registration failed: the email is already in use.
    EmailTaken,
    /// The password hashing engine failed internally.
    HashFailure,
    /// The credential store failed; the cause is not disclosed.
    StoreFailure,
}

/// The fixed response indicator each error maps to at the boundary.
pub open spec fn status_of(e: AuthError) -> u16 {
    match e {
        AuthError::InvalidCredentials => 401,
        AuthError::UsernameTaken => 409,
        AuthError::EmailTaken => 409,
        AuthError::HashFailure => 500,
        AuthError::StoreFailure => 500,
    }
}

/// The generic machine-readable label each error maps to at the boundary;
/// never a raw underlying error message.
pub open spec fn label_of(e: AuthError) -> Seq<char> {
    match e {
        AuthError::InvalidCredentials => "InvalidCredentials"@,
        AuthError::UsernameTaken => "UsernameTaken"@,
        AuthError::EmailTaken => "EmailTaken"@,
        AuthError::HashFailure => "HashFailure"@,
        AuthError::StoreFailure => "StoreFailure"@,
    }
}

impl AuthError {
    /// The response status code for this error.
    pub fn status_code(&self) -> (c: u16)
        ensures
            c == status_of(*self),
    {
        match self {
            AuthError::InvalidCredentials => 401,
            AuthError::UsernameTaken => 409,
            AuthError::EmailTaken => 409,
            AuthError::HashFailure => 500,
            AuthError::StoreFailure => 500,
        }
    }

    /// The machine-readable label for this error.
    pub fn label(&self) -> (s: String)
        ensures
            s@ == label_of(*self),
    {
        match self {
            AuthError::InvalidCredentials => "InvalidCredentials".to_owned(),
            AuthError::UsernameTaken => "UsernameTaken".to_owned(),
            AuthError::EmailTaken => "EmailTaken".to_owned(),
            AuthError::HashFailure => "HashFailure".to_owned(),
            AuthError::StoreFailure => "StoreFailure".to_owned(),
        }
    }
}

/// Register a new account. The username must be unused, else the flow fails
/// with `UsernameTaken`; then the email must be unused, else it fails with
/// `EmailTaken` — exactly in that order of precedence. Otherwise a record
/// is appended whose stored artifact matches the submitted password, and
/// only an internal fault of the hashing engine can still make the flow
/// fail. On any failure the store is unchanged.
pub fn register(store: &mut CredentialStore, payload: &RegisterRequest) -> (r: Result<
    RegisterResponse,
    AuthError,
>)
    requires
        old(store).wf(),
    ensures
        final(store).wf(),
        r == Err::<RegisterResponse, AuthError>(AuthError::UsernameTaken) <==> username_taken(
            old(store)@,
            payload.username@,
        ),
        r == Err::<RegisterResponse, AuthError>(AuthError::EmailTaken) <==> (!username_taken(
            old(store)@,
            payload.username@,
        ) && email_taken(old(store)@, payload.email@)),
        r matches Err(e) ==> (e == AuthError::UsernameTaken || e == AuthError::EmailTaken
            || e == AuthError::HashFailure) && final(store)@ == old(store)@,
        r matches Ok(resp) ==> ({
            &&& !username_taken(old(store)@, payload.username@)
            &&& !email_taken(old(store)@, payload.email@)
            &&& resp.msg@ == Seq::<char>::empty()
            &&& exists|h: Seq<char>|
                is_artifact(h) && verifies(payload.password@, h) && final(store)@ == old(
                    store,
                )@.push(
                    UserView {
                        username: payload.username@,
                        email: Some(payload.email@),
                        password_hash: h,
                    },
                )
        }),
{
    if store.index_of_username(&payload.username).is_some() {
        return Err(AuthError::UsernameTaken);
    }
    if store.contains_email(&payload.email) {
        return Err(AuthError::EmailTaken);
    }
    let hash = match hash_password(payload.password.as_str()) {
        Ok(h) => h,
        Err(_) => {
            return Err(AuthError::HashFailure);
        },
    };
    let rec = UserRecord {
        username: payload.username.clone(),
        email: Some(payload.email.clone()),
        password_hash: hash,
    };
    store.insert(rec);
    Ok(RegisterResponse { msg: String::new() })
}

/// A login succeeds on exactly these store contents: some record carries
/// the claimed username, its stored artifact is well formed, and the
/// submitted password matches it.
pub open spec fn login_ok(
    users: Seq<UserView>,
    username: Seq<char>,
    password: Seq<char>,
) -> bool {
    exists|i: int|
        0 <= i < users.len() && users[i].username == username && is_artifact(
            users[i].password_hash,
        ) && verifies(password, users[i].password_hash)
}

/// Log a user in. Succeeds exactly when the claimed username names a record
/// whose stored artifact matches the submitted password. Every failure —
/// unknown username, wrong password, or an unreadable stored artifact — is
/// the same `InvalidCredentials`, so that a caller cannot tell them apart.
pub fn login(store: &CredentialStore, payload: &LoginRequest) -> (r: Result<
    LoginResponse,
    AuthError,
>)
    requires
        store.wf(),
    ensures
        r is Ok <==> login_ok(store@, payload.username@, payload.password@),
        r matches Ok(resp) ==> resp.msg@ == Seq::<char>::empty(),
        r is Err ==> r == Err::<LoginResponse, AuthError>(AuthError::InvalidCredentials),
{
    let i = match store.index_of_username(&payload.username) {
        Some(i) => i,
        None => {
            return Err(AuthError::InvalidCredentials);
        },
    };
    let rec = store.record_at(i);
    let matched = match verify_password(payload.password.as_str(), rec.password_hash.as_str()) {
        Ok(b) => b,
        Err(_) => false,
    };
    proof {
        lemma_unique_username_pins_login(store@, payload.username@, payload.password@, i as int);
    }
    if matched {
        Ok(LoginResponse { msg: String::new() })
    } else {
        Err(AuthError::InvalidCredentials)
    }
}

/// In a well-formed store, at most one record carries a username, so a
/// login with that username stands or falls with that one record.
proof fn lemma_unique_username_pins_login(
    users: Seq<UserView>,
    username: Seq<char>,
    password: Seq<char>,
    i: int,
)
    requires
        crate::store::store_wf(users),
        0 <= i < users.len(),
        users[i].username == username,
    ensures
        login_ok(users, username, password) <==> (is_artifact(users[i].password_hash) && verifies(
            password,
            users[i].password_hash,
        )),
{
    if login_ok(users, username, password) {
        let j = choose|j: int|
            0 <= j < users.len() && users[j].username == username && is_artifact(
                users[j].password_hash,
            ) && verifies(password, users[j].password_hash);
        if j < i {
            assert(crate::store::distinct_identity(users[j], users[i]));
        } else if i < j {
            assert(crate::store::distinct_identity(users[i], users[j]));
        }
    }
}

/// Of two registrations of the same username, at most one can succeed: a
/// successful registration leaves the store with that username taken, and
/// `register` refuses a taken username with exactly `UsernameTaken`.
pub proof fn lemma_registration_claims_username(users: Seq<UserView>, rec: UserView)
    ensures
        username_taken(users.push(rec), rec.username),
{
    assert(users.push(rec)[users.len() as int] == rec);
}

} // verus!
