//! Logging in: who is let in, and what the token says.

use crate::clock::{current_timestamp, CLOCK_BOUND};
use crate::models::{Claims, LoginRequest, LoginResponse, User};
use vstd::prelude::*;
use vstd::string::StringExecFns;

verus! {

/// Whether `hash` parses as a PHC string.
pub uninterp spec fn phc_parses(hash: Seq<char>) -> bool;

/// Whether Argon2 with its default settings accepts `password` for the PHC
/// string `hash`: `hash` parses, holds a salt and an output, and hashing the
/// bytes of `password` with its parameters and salt gives that output.
pub uninterp spec fn argon2_accepts(password: Seq<char>, hash: Seq<char>) -> bool;

/// `password_hash::PasswordHash::new`, which `argon2` hands on: whether
/// `hash` parses as a PHC string. The parser reads nothing but the text.
#[verifier::external_body]
fn parses_as_phc(hash: &str) -> (ok: bool)
    ensures
        ok == phc_parses(hash@),
{
    argon2::PasswordHash::new(hash).is_ok()
}

/// `password_hash::PasswordVerifier::verify_password` on
/// `argon2::Argon2::default()`: whether the password matches the hash. The
/// hash is parsed for the call, and one that does not parse matches nothing.
/// The answer depends on the two texts alone: the default settings hold no
/// secret, and the parameters and the salt are read from the hash.
#[verifier::external_body]
fn password_verifies(password: &str, hash: &str) -> (ok: bool)
    ensures
        ok == argon2_accepts(password@, hash@),
{
    match argon2::PasswordHash::new(hash) {
        Ok(parsed) => argon2::PasswordVerifier::verify_password(
            &argon2::Argon2::default(),
            password.as_bytes(),
            &parsed,
        ).is_ok(),
        Err(_) => false,
    }
}

/// How long a token is valid: 24 hours, in seconds.
pub const TOKEN_LIFETIME: i64 = 86_400;

/// Why a login is turned down.
#[derive(Debug)]
pub enum LoginError {
    /// No such user, or the password does not match.
    InvalidCredentials,
    /// The stored password hash is no PHC string.
    InvalidHashFormat,
    /// The store or the token encoder failed; with the reason.
    Internal(String),
}

impl LoginError {
    /// The HTTP status that answers the request: 401 for wrong credentials,
    /// 500 for a fault of the server.
    pub open spec fn status_code(&self) -> u16 {
        match self {
            LoginError::InvalidCredentials => 401,
            LoginError::InvalidHashFormat => 500,
            LoginError::Internal(_) => 500,
        }
    }

    /// The text that answers the request.
    pub open spec fn message_text(&self) -> Seq<char> {
        match self {
            LoginError::InvalidCredentials => "Invalid credentials"@,
            LoginError::InvalidHashFormat => "Invalid hash format"@,
            LoginError::Internal(reason) => reason@,
        }
    }

    /// The HTTP status that answers the request.
    pub fn status(&self) -> (code: u16)
        ensures
            code == self.status_code(),
    {
        match self {
            LoginError::InvalidCredentials => 401,
            LoginError::InvalidHashFormat => 500,
            LoginError::Internal(_) => 500,
        }
    }

    /// The text that answers the request.
    pub fn message(&self) -> (text: String)
        ensures
            text@ == self.message_text(),
    {
        match self {
            LoginError::InvalidCredentials => String::from_str("Invalid credentials"),
            LoginError::InvalidHashFormat => String::from_str("Invalid hash format"),
            LoginError::Internal(reason) => reason.clone(),
        }
    }
}

/// Why a login is turned down, if it is, given the user that the store
/// found, whether the stored hash parses and whether it accepts the password.
///
/// No user, or a password that the hash does not accept, is a matter of wrong
/// credentials; a stored hash that does not parse is the server's fault and
/// is reported before the password is looked at.
pub open spec fn login_refusal(
    user: Option<User>,
    hash_parses: bool,
    password_accepted: bool,
) -> Option<LoginError> {
    if user is None {
        Some(LoginError::InvalidCredentials)
    } else if !hash_parses {
        Some(LoginError::InvalidHashFormat)
    } else if !password_accepted {
        Some(LoginError::InvalidCredentials)
    } else {
        None
    }
}

/// Decides whether the user that the store found for a login is let in:
/// turned down as `login_refusal` says, and handed back otherwise.
pub fn authenticate(user: Option<User>, hash_parses: bool, password_accepted: bool) -> (r: Result<
    User,
    LoginError,
>)
    ensures
        match login_refusal(user, hash_parses, password_accepted) {
            Some(error) => r == Err::<User, LoginError>(error),
            None => r == Ok::<User, LoginError>(user->0),
        },
{
    match user {
        None => Err(LoginError::InvalidCredentials),
        Some(user) => {
            if !hash_parses {
                Err(LoginError::InvalidHashFormat)
            } else if !password_accepted {
                Err(LoginError::InvalidCredentials)
            } else {
                Ok(user)
            }
        },
    }
}

/// The claims of a token issued to `user` at the time `now`: it names the
/// user and expires `TOKEN_LIFETIME` seconds later.
pub fn issue_claims(user: User, now: i64) -> (claims: Claims)
    requires
        now + TOKEN_LIFETIME <= i64::MAX,
    ensures
        claims.sub == user.username,
        claims.uid == user.id,
        claims.exp == (now + TOKEN_LIFETIME) as usize,
{
    let expiration: i64 = now + TOKEN_LIFETIME;
    Claims { sub: user.username, uid: user.id, exp: expiration as usize }
}

/// Handles a login: `user` is what the store found under the name in
/// `payload`.
///
/// The login is turned down as `login_refusal` says of the stored hash and
/// the password: the user is let in exactly when there is one, the stored
/// hash parses and Argon2 accepts the password for it. The claims then name
/// the user and expire `TOKEN_LIFETIME` seconds after some reading of the
/// clock.
pub fn login(user: Option<User>, payload: &LoginRequest) -> (r: Result<Claims, LoginError>)
    ensures
        match login_refusal(
            user,
            phc_parses(user->0.password_hash@),
            argon2_accepts(payload.password@, user->0.password_hash@),
        ) {
            Some(error) => r == Err::<Claims, LoginError>(error),
            None => r matches Ok(claims) && claims.sub == user->0.username && claims.uid
                == user->0.id && exists|now: i64|
                0 <= now < CLOCK_BOUND && claims.exp == (#[trigger] (now + TOKEN_LIFETIME))
                    as usize,
        },
{
    let (parses, accepted) = match &user {
        None => (false, false),
        Some(found) => {
            let parses = parses_as_phc(found.password_hash.as_str());
            let accepted = parses && password_verifies(
                payload.password.as_str(),
                found.password_hash.as_str(),
            );
            (parses, accepted)
        },
    };
    match authenticate(user, parses, accepted) {
        Err(error) => Err(error),
        Ok(user) => {
            let now = current_timestamp();
            Ok(issue_claims(user, now))
        },
    }
}

/// Answers a login once the token encoder has run: the token it gave, or its
/// failure as a fault of the server.
pub fn token_response(encoded: Result<String, String>) -> (r: Result<LoginResponse, LoginError>)
    ensures
        encoded is Ok ==> (r matches Ok(response) && response.token == encoded->Ok_0),
        encoded is Err ==> (r matches Err(LoginError::Internal(text)) && text == encoded->Err_0),
{
    match encoded {
        Ok(token) => Ok(LoginResponse { token }),
        Err(reason) => Err(LoginError::Internal(reason)),
    }
}

} // verus!
