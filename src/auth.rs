//! Pulling the session token out of a request.
use vstd::prelude::*;
use vstd::string::StringExecFns;

verus! {

/// A raw session token as the request carried it; not yet verified.
#[derive(Debug)]
pub struct AuthToken(String);

impl View for AuthToken {
    type V = Seq<char>;

    closed spec fn view(&self) -> Seq<char> {
        self.0@
    }
}

/// Why a request carries no usable token.
#[derive(Debug, PartialEq, Eq)]
pub enum AuthError {
    MissingToken,
    InvalidToken,
}

impl AuthError {
    /// The human-readable text of the error.
    pub fn message(&self) -> (r: String)
        ensures
            r@ == "Auth error: "@ + match self {
                AuthError::MissingToken => "Missing token"@,
                AuthError::InvalidToken => "Invalid token"@,
            },
    {
        let mut text = String::from_str("Auth error: ");
        match self {
            AuthError::MissingToken => text.append("Missing token"),
            AuthError::InvalidToken => text.append("Invalid token"),
        }
        text
    }
}

impl AuthToken {
    /// Wraps a raw token; every string is accepted.
    pub fn try_from(value: String) -> (r: Result<AuthToken, String>)
        ensures
            r matches Ok(t) && t@ == value@,
    {
        Ok(AuthToken(value))
    }

    pub fn as_str(&self) -> (r: &str)
        ensures
            r@ == self@,
    {
        self.0.as_str()
    }
}

/// Turns what the request's token carrier holds into a token: no carrier is
/// `MissingToken`, a value that cannot be wrapped is `InvalidToken`.
pub fn extract_auth_token(carrier: Option<String>) -> (r: Result<AuthToken, AuthError>)
    ensures
        match carrier {
            None => r == Err::<AuthToken, _>(AuthError::MissingToken),
            Some(v) => r matches Ok(t) && t@ == v@,
        },
{
    match carrier {
        None => Err(AuthError::MissingToken),
        Some(v) => match AuthToken::try_from(v) {
            Ok(t) => Ok(t),
            Err(_) => Err(AuthError::InvalidToken),
        },
    }
}

} // verus!
