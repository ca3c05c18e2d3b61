//! Keyed password hashing: the hasher's secret and the stored hash.
use vstd::prelude::*;
use vstd::string::StringExecFns;
use crate::secret::{secret_accepted, validate_secret, EnvSecret};

verus! {

/// A self-describing password hash (algorithm, parameters, salt, digest).
#[derive(Debug, Clone)]
pub struct HashedPassword(String);

impl View for HashedPassword {
    type V = Seq<char>;

    closed spec fn view(&self) -> Seq<char> {
        self.0@
    }
}

impl HashedPassword {
    pub fn as_str(&self) -> (r: &str)
        ensures
            r@ == self@,
    {
        self.0.as_str()
    }

    /// Wraps a stored hash; every string is accepted.
    pub fn from_str(s: &str) -> (r: Result<HashedPassword, &'static str>)
        ensures
            r matches Ok(h) && h@ == s@,
    {
        Ok(HashedPassword(s.to_owned()))
    }
}

/// Why a hasher could not be built or a hash computed.
#[derive(Debug, PartialEq, Eq)]
pub enum PasswordHasherError {
    NoSecretKey,
    InvalidSecretKey,
    /// The hashing library failed; the text describes its error.
    HashingError(String),
}

impl PasswordHasherError {
    /// The human-readable text of the error.
    pub fn message(&self) -> (r: String)
        ensures
            r@ == match self {
                PasswordHasherError::NoSecretKey => "No secret key"@,
                PasswordHasherError::InvalidSecretKey => "Invalid secret key"@,
                PasswordHasherError::HashingError(inner) => "Hashing error: "@ + inner@,
            },
    {
        match self {
            PasswordHasherError::NoSecretKey => String::from_str("No secret key"),
            PasswordHasherError::InvalidSecretKey => String::from_str("Invalid secret key"),
            PasswordHasherError::HashingError(inner) => {
                let mut text = String::from_str("Hashing error: ");
                text.append(inner.as_str());
                text
            },
        }
    }
}

/// Holds the secret that keys every hash; built only from an accepted secret.
#[derive(Debug)]
pub struct PasswordHasher {
    secret: String,
}

impl PasswordHasher {
    /// The secret that keys the hashes.
    pub closed spec fn key(&self) -> Seq<char> {
        self.secret@
    }

    pub closed spec fn wf(&self) -> bool {
        secret_accepted(self.secret@)
    }

    /// Builds a hasher; a secret shorter than the minimum is refused.
    pub fn new(secret: &str) -> (r: Result<PasswordHasher, PasswordHasherError>)
        ensures
            r is Ok <==> secret_accepted(secret@),
            r matches Ok(h) ==> h.wf() && h.key() == secret@,
            r matches Err(e) ==> e == PasswordHasherError::InvalidSecretKey,
    {
        if validate_secret(secret) {
            Ok(PasswordHasher { secret: secret.to_owned() })
        } else {
            Err(PasswordHasherError::InvalidSecretKey)
        }
    }

    /// Builds a hasher from what the environment holds for the secret.
    pub fn from_env_secret(var: EnvSecret) -> (r: Result<PasswordHasher, PasswordHasherError>)
        ensures
            match var {
                EnvSecret::NotPresent => r == Err::<PasswordHasher, _>(
                    PasswordHasherError::NoSecretKey,
                ),
                EnvSecret::NotUnicode => r == Err::<PasswordHasher, _>(
                    PasswordHasherError::InvalidSecretKey,
                ),
                EnvSecret::Present(s) => (r is Ok <==> secret_accepted(s@)) && (r matches Ok(h)
                    ==> h.wf() && h.key() == s@) && (r matches Err(e) ==> e
                    == PasswordHasherError::InvalidSecretKey),
            },
    {
        match var {
            EnvSecret::NotPresent => Err(PasswordHasherError::NoSecretKey),
            EnvSecret::NotUnicode => Err(PasswordHasherError::InvalidSecretKey),
            EnvSecret::Present(s) => PasswordHasher::new(s.as_str()),
        }
    }

    /// The secret, to key the hashing library with.
    pub fn secret(&self) -> (r: &str)
        ensures
            r@ == self.key(),
    {
        self.secret.as_str()
    }
}

} // verus!
