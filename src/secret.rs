//! The shared server secret used for both password keying and token signing.
use vstd::prelude::*;
use vstd::utf8::encode_utf8;

verus! {

/// Fewest bytes a secret may have.
pub const MIN_SECRET_LEN: usize = 31;

/// A secret is accepted when its UTF-8 encoding has at least `MIN_SECRET_LEN` bytes.
pub open spec fn secret_accepted(secret: Seq<char>) -> bool {
    encode_utf8(secret).len() >= MIN_SECRET_LEN
}

/// What the environment holds for the secret variable.
pub enum EnvSecret {
    /// The variable is not set.
    NotPresent,
    /// The variable is set but its value is not valid text.
    NotUnicode,
    /// The variable is set to this text.
    Present(String),
}

/// Whether `secret` is long enough to key hashes and sign tokens.
pub fn validate_secret(secret: &str) -> (r: bool)
    ensures
        r == secret_accepted(secret@),
{
    secret.as_bytes().len() >= MIN_SECRET_LEN
}

/// Every secret shorter than the minimum length is refused.
pub proof fn lemma_short_secret_refused(secret: Seq<char>)
    requires
        encode_utf8(secret).len() < MIN_SECRET_LEN,
    ensures
        !secret_accepted(secret),
{
}

} // verus!
