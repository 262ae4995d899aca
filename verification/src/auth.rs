//! The identity that billing is called with: what a token claims and for
//! how long, and how a token is taken from a request. Signing and checking
//! tokens is done elsewhere.

use vstd::prelude::*;
use vstd::string::*;
use crate::errors::AppError;

verus! {

/// What a token says of its bearer. Instants are seconds since the Unix
/// epoch.
#[derive(Debug, PartialEq, Eq)]
pub struct Claims {
    pub sub: String,
    pub email: String,
    pub role: String,
    pub exp: i64,
    pub iat: i64,
}

/// The secret that tokens are signed with, and the time that they last.
pub struct AuthService {
    jwt_secret: String,
    jwt_expiration: i64,
}

/// The words that open an authorization header.
pub open spec fn bearer_prefix() -> Seq<char> {
    "Bearer "@
}

/// The text that refuses a request without an authorization header.
pub open spec fn missing_header_text() -> Seq<char> {
    "Missing authorization header"@
}

/// The text that refuses an authorization header of another form.
pub open spec fn invalid_format_text() -> Seq<char> {
    "Invalid token format"@
}

/// Whether a header opens with the bearer prefix.
pub open spec fn is_bearer(header: Seq<char>) -> bool {
    header.len() >= bearer_prefix().len() && header.subrange(0, bearer_prefix().len() as int)
        == bearer_prefix()
}

impl AuthService {
    /// The secret that tokens are signed with.
    pub closed spec fn secret(&self) -> Seq<char> {
        self.jwt_secret@
    }

    /// The number of seconds that a token lasts.
    pub closed spec fn expiration(&self) -> i64 {
        self.jwt_expiration
    }

    /// Makes a service that signs with `jwt_secret` tokens that last
    /// `jwt_expiration` seconds.
    pub fn new(jwt_secret: String, jwt_expiration: i64) -> (service: AuthService)
        ensures
            service.secret() == jwt_secret@,
            service.expiration() == jwt_expiration,
    {
        AuthService { jwt_secret, jwt_expiration }
    }

    /// Returns the secret that tokens are signed with.
    pub fn jwt_secret(&self) -> (secret: &str)
        ensures
            secret@ == self.secret(),
    {
        self.jwt_secret.as_str()
    }

    /// Returns the number of seconds that a token lasts.
    pub fn jwt_expiration(&self) -> (seconds: i64)
        ensures
            seconds == self.expiration(),
    {
        self.jwt_expiration
    }

    /// Makes the claims of a token issued at `now`: it names the user, and
    /// runs out when the service's time has passed.
    pub fn claims(&self, user_id: String, email: String, role: String, now: i64) -> (claims: Claims)
        requires
            i64::MIN <= now + self.expiration() <= i64::MAX,
        ensures
            claims.sub@ == user_id@,
            claims.email@ == email@,
            claims.role@ == role@,
            claims.iat == now,
            claims.exp == now + self.expiration(),
    {
        Claims { sub: user_id, email, role, iat: now, exp: now + self.jwt_expiration }
    }
}

/// Takes the token from the authorization header of a request. A request
/// without the header, or with one that does not open with `Bearer `, is
/// refused.
pub fn bearer_token(header: Option<&str>) -> (outcome: Result<String, AppError>)
    ensures
        match outcome {
            Ok(token) => header matches Some(text) && is_bearer(text@) && token@
                == text@.subrange(bearer_prefix().len() as int, text@.len() as int),
            Err(error) => error is Unauthorized && match header {
                Some(text) => !is_bearer(text@) && error.text() == invalid_format_text(),
                None => error.text() == missing_header_text(),
            },
        },
{
    let text = match header {
        Some(text) => text,
        None => {
            return Err(AppError::Unauthorized(String::from_str("Missing authorization header")));
        },
    };
    proof {
        reveal_strlit("Bearer ");
    }
    let length = text.unicode_len();
    if length >= 7 {
        let opening = String::from_str(text.substring_char(0, 7));
        let prefix = String::from_str("Bearer ");
        if opening == prefix {
            return Ok(String::from_str(text.substring_char(7, length)));
        }
    }
    Err(AppError::Unauthorized(String::from_str("Invalid token format")))
}

} // verus!
