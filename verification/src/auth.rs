//! Sign-up and log-in: what is decided about a password and about the
//! answers to the client. Passwords are hashed and checked by `argon2`;
//! reading the user from the store and signing the token are left to the
//! caller, who hands in what the store returned and what the signer made.

use crate::clock::Timestamp;
use argon2::password_hash::{PasswordHash, PasswordHasher, PasswordVerifier, SaltString};
use argon2::Argon2;
use rand_core::OsRng;
use vstd::prelude::*;

verus! {

/// What a client sends to sign up.
#[derive(Debug, Clone, PartialEq, Eq)]
pub struct SignupRequest {
    pub name: String,
    pub email: String,
    pub password: String,
}

/// What a client is told after signing up.
#[derive(Debug, Clone, PartialEq, Eq)]
pub struct AuthResponse {
    pub message: String,
}

/// What a client sends to log in.
#[derive(Debug, Clone, PartialEq, Eq)]
pub struct LoginRequest {
    pub email: String,
    pub password: String,
}

/// What a client is told about the user it logged in as.
#[derive(Debug, Clone, PartialEq, Eq)]
pub struct UserData {
    pub id: i32,
    pub name: String,
    pub email: String,
}

/// What a client is told after logging in.
#[derive(Debug, Clone, PartialEq, Eq)]
pub struct LoginResponse {
    pub token: String,
    pub user: UserData,
}

/// A user to be stored: what a sign-up asks for, with the password hashed.
#[derive(Debug, Clone, PartialEq, Eq)]
pub struct NewUser {
    pub name: String,
    pub email: String,
    pub password_hash: String,
}

/// A user as the store holds it.
#[derive(Debug, Clone, PartialEq, Eq)]
pub struct StoredUser {
    pub id: i32,
    pub name: String,
    pub email: String,
    pub password: Option<String>,
}

/// What a token states about its bearer.
#[derive(Debug, Clone, PartialEq, Eq)]
pub struct Claims {
    /// The user's identifier.
    pub sub: i32,
    /// The second, counted from the Unix epoch, at which the token expires.
    pub exp: i64,
    pub email: String,
    pub name: String,
}

/// How a failure is reported: as the client's fault or as the server's.
#[derive(Debug, Clone, Copy, PartialEq, Eq, Structural)]
pub enum AuthErrorKind {
    Unauthorized,
    Internal,
}

/// A failure of sign-up or log-in.
#[derive(Debug, Clone, PartialEq, Eq)]
pub struct AuthError {
    pub kind: AuthErrorKind,
    pub message: String,
}

/// How a password compares with a stored hash.
#[derive(Debug, Clone, Copy, PartialEq, Eq, Structural)]
pub enum PasswordCheck {
    /// The hash is the password's.
    Match,
    /// The hash is another password's.
    Mismatch,
    /// The stored text is no password hash.
    Unreadable,
}

/// A token is good for seven days.
pub const TOKEN_LIFETIME_SECS: i64 = 604_800;

/// How `argon2` judges `password` against the stored hash `stored`:
/// `Unreadable` if `PasswordHash::new` rejects `stored`, else whether
/// `verify_password` accepts the password.
pub uninterp spec fn password_check(password: Seq<char>, stored: Seq<char>) -> PasswordCheck;

/// Draws a salt with `SaltString::generate` from the operating system's
/// random numbers and calls `Argon2::default().hash_password`; returns the
/// hash in PHC text form, or `None` if argon2 reports an error. Trusted: a
/// hash that argon2 made of a password is one that argon2 accepts for that
/// password, as its documentation shows; [`password_check`] then says
/// `Match`. Nothing else is claimed: the salt makes every hash different.
/// The draw panics if the operating system has no random numbers to give.
#[verifier::external_body]
fn argon2_hash(password: &str) -> (r: Option<String>)
    ensures
        r matches Some(hash) ==> password_check(password@, hash@) == PasswordCheck::Match,
{
    let salt = SaltString::generate(&mut OsRng);
    match Argon2::default().hash_password(password.as_bytes(), &salt) {
        Ok(hash) => Some(hash.to_string()),
        Err(_) => None,
    }
}

/// Parses `stored` with `PasswordHash::new` and calls
/// `Argon2::default().verify_password`. Trusted: the answer is, by
/// definition, [`password_check`]; the empty text is never a hash.
#[verifier::external_body]
fn argon2_verify(password: &str, stored: &str) -> (r: PasswordCheck)
    ensures
        r == password_check(password@, stored@),
        stored@.len() == 0 ==> r == PasswordCheck::Unreadable,
{
    match PasswordHash::new(stored) {
        Ok(parsed) => match Argon2::default().verify_password(password.as_bytes(), &parsed) {
            Ok(_) => PasswordCheck::Match,
            Err(_) => PasswordCheck::Mismatch,
        },
        Err(_) => PasswordCheck::Unreadable,
    }
}

impl AuthErrorKind {
    /// The HTTP status that reports a failure of this kind.
    pub open spec fn spec_status_code(&self) -> u16 {
        match self {
            AuthErrorKind::Unauthorized => 401,
            AuthErrorKind::Internal => 500,
        }
    }

    /// The HTTP status that reports a failure of this kind.
    #[verifier::when_used_as_spec(spec_status_code)]
    pub fn status_code(&self) -> (code: u16)
        ensures
            code == self.spec_status_code(),
    {
        match self {
            AuthErrorKind::Unauthorized => 401,
            AuthErrorKind::Internal => 500,
        }
    }
}

/// A failure that is the client's fault.
pub fn unauthorized(msg: &str) -> (e: AuthError)
    ensures
        e.kind == AuthErrorKind::Unauthorized,
        e.message@ == msg@,
{
    AuthError { kind: AuthErrorKind::Unauthorized, message: msg.to_string() }
}

/// A failure that is the server's fault.
pub fn internal_error(msg: String) -> (e: AuthError)
    ensures
        e.kind == AuthErrorKind::Internal,
        e.message == msg,
{
    AuthError { kind: AuthErrorKind::Internal, message: msg }
}

/// The failure that reports an error of the store, whose own words are
/// `detail`.
pub fn database_error(detail: &str) -> (e: AuthError)
    ensures
        e.kind == AuthErrorKind::Internal,
        e.message@ == "Database error: "@ + detail@,
{
    let mut message = "Database error: ".to_string();
    message.append(detail);
    internal_error(message)
}

/// What becomes of the hasher's answer: its hash, or the failure that
/// reports that it made none.
pub fn hashing_outcome(hashed: Option<String>) -> (r: Result<String, AuthError>)
    ensures
        match hashed {
            Some(hash) => r matches Ok(h) && h == hash,
            None => r matches Err(e) && e.kind == AuthErrorKind::Internal && e.message@
                == "Failed to hash password"@,
        },
{
    match hashed {
        Some(hash) => Ok(hash),
        None => Err(internal_error("Failed to hash password".to_string())),
    }
}

/// Hashes a password for storage, with a fresh random salt. The hash is one
/// that opens the account again: checked against the same password, it
/// matches. Which hash it is depends on the salt. A failure of the hasher is
/// reported as the server's.
pub fn hash_password(password: &str) -> (r: Result<String, AuthError>)
    ensures
        r matches Ok(hash) ==> password_check(password@, hash@) == PasswordCheck::Match,
        r matches Err(e) ==> e.kind == AuthErrorKind::Internal && e.message@
            == "Failed to hash password"@,
{
    hashing_outcome(argon2_hash(password))
}

/// Prepares a sign-up for the store: the name and the address as they were
/// sent, and the password hashed with a fresh salt, so that a log-in with the
/// same password matches the stored hash. A failure of the hasher is reported
/// as the server's.
pub fn signup(request: &SignupRequest) -> (r: Result<NewUser, AuthError>)
    ensures
        r matches Ok(user) ==> user.name == request.name && user.email == request.email
            && password_check(request.password@, user.password_hash@) == PasswordCheck::Match,
        r matches Err(e) ==> e.kind == AuthErrorKind::Internal && e.message@
            == "Failed to hash password"@,
{
    match hash_password(request.password.as_str()) {
        Ok(password_hash) => Ok(
            NewUser { name: request.name.clone(), email: request.email.clone(), password_hash },
        ),
        Err(e) => Err(e),
    }
}

/// What a client is told after the store was asked to keep a new user:
/// success, or the store's error, whose own words are in `Err`.
pub fn signup_outcome(stored: Result<(), String>) -> (r: Result<AuthResponse, AuthError>)
    ensures
        match stored {
            Ok(_) => r matches Ok(response) && response.message@ == "User created successfully"@,
            Err(detail) => r matches Err(e) && e.kind == AuthErrorKind::Internal && e.message@
                == "Failed to create user: "@ + detail@,
        },
{
    match stored {
        Ok(_) => Ok(AuthResponse { message: "User created successfully".to_string() }),
        Err(detail) => {
            let mut message = "Failed to create user: ".to_string();
            message.append(detail.as_str());
            Err(internal_error(message))
        },
    }
}

/// The second at which a token issued at `now` expires: seven days later,
/// or the last second that fits if that lies beyond it.
pub open spec fn expiry(now: Timestamp) -> i64 {
    if now.spec_secs() + TOKEN_LIFETIME_SECS > i64::MAX {
        i64::MAX
    } else {
        (now.spec_secs() + TOKEN_LIFETIME_SECS) as i64
    }
}

/// The text of the stored hash; a user without one has the empty text.
pub open spec fn stored_hash(user: StoredUser) -> Seq<char> {
    match user.password {
        Some(hash) => hash@,
        None => Seq::<char>::empty(),
    }
}

/// Decides a log-in once the password was checked against the stored hash:
/// a match yields the claims of a token issued at `now`, a mismatch is the
/// client's fault, an unreadable hash the server's.
pub fn grant_login(user: &StoredUser, check: PasswordCheck, now: &Timestamp) -> (r: Result<
    Claims,
    AuthError,
>)
    ensures
        match check {
            PasswordCheck::Match => r matches Ok(claims) && claims.sub == user.id && claims.exp
                == expiry(*now) && claims.email@ == user.email@ && claims.name@ == user.name@,
            PasswordCheck::Mismatch => r matches Err(e) && e.kind == AuthErrorKind::Unauthorized
                && e.message@ == "Invalid email or password"@,
            PasswordCheck::Unreadable => r matches Err(e) && e.kind == AuthErrorKind::Internal
                && e.message@ == "Stored password hash is invalid"@,
        },
{
    match check {
        PasswordCheck::Match => {
            let secs = now.secs();
            let exp: i64 = if secs > i64::MAX - TOKEN_LIFETIME_SECS {
                i64::MAX
            } else {
                secs + TOKEN_LIFETIME_SECS
            };
            Ok(Claims { sub: user.id, exp, email: user.email.clone(), name: user.name.clone() })
        },
        PasswordCheck::Mismatch => Err(unauthorized("Invalid email or password")),
        PasswordCheck::Unreadable => Err(
            internal_error("Stored password hash is invalid".to_string()),
        ),
    }
}

/// Decides a log-in from what the store returned for the address of the
/// request: no such user is the client's fault, in the same words as a wrong
/// password; otherwise the password of the request is checked against the
/// stored hash and [`grant_login`] decides.
pub fn login(found: &Option<StoredUser>, request: &LoginRequest, now: &Timestamp) -> (r: Result<
    Claims,
    AuthError,
>)
    ensures
        match *found {
            None => r matches Err(e) && e.kind == AuthErrorKind::Unauthorized && e.message@
                == "Invalid email or password"@,
            Some(user) => match password_check(request.password@, stored_hash(user)) {
                PasswordCheck::Match => r matches Ok(claims) && claims.sub == user.id
                    && claims.exp == expiry(*now) && claims.email@ == user.email@ && claims.name@
                    == user.name@,
                PasswordCheck::Mismatch => r matches Err(e) && e.kind
                    == AuthErrorKind::Unauthorized && e.message@ == "Invalid email or password"@,
                PasswordCheck::Unreadable => r matches Err(e) && e.kind == AuthErrorKind::Internal
                    && e.message@ == "Stored password hash is invalid"@,
            },
        },
        (*found matches Some(user) && user.password is None) ==> (r matches Err(e) && e.kind
            == AuthErrorKind::Internal),
{
    match found {
        None => Err(unauthorized("Invalid email or password")),
        Some(user) => {
            let check = match &user.password {
                Some(hash) => argon2_verify(request.password.as_str(), hash.as_str()),
                None => {
                    let none = String::new();
                    argon2_verify(request.password.as_str(), none.as_str())
                },
            };
            grant_login(user, check, now)
        },
    }
}

/// What a client is told after its claims were signed: the token and the
/// user, or the signer's error, whose own words are in `Err`.
pub fn login_outcome(claims: Claims, token: Result<String, String>) -> (r: Result<
    LoginResponse,
    AuthError,
>)
    ensures
        match token {
            Ok(t) => r matches Ok(response) && response.token == t && response.user.id
                == claims.sub && response.user.name == claims.name && response.user.email
                == claims.email,
            Err(detail) => r matches Err(e) && e.kind == AuthErrorKind::Internal && e.message@
                == "Failed to generate token: "@ + detail@,
        },
{
    match token {
        Ok(t) => Ok(
            LoginResponse {
                token: t,
                user: UserData { id: claims.sub, name: claims.name, email: claims.email },
            },
        ),
        Err(detail) => {
            let mut message = "Failed to generate token: ".to_string();
            message.append(detail.as_str());
            Err(internal_error(message))
        },
    }
}

} // verus!
