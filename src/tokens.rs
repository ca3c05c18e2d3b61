//! Signed session tokens: compact tokens signed with HMAC-SHA-256 whose
//! payload is the serialized claims.
use vstd::prelude::*;
use vstd::slice::slice_to_vec;
use vstd::utf8::encode_utf8;
use crate::secret::{secret_accepted, validate_secret, EnvSecret};

verus! {

#[verifier::external_type_specification]
#[verifier::external_body]
pub struct ExJwtError(biscuit::errors::Error);

/// Algorithms that a token may declare and be signed with.
#[derive(Debug, Clone, Copy, PartialEq, Eq)]
pub enum SigningAlgorithm {
    /// HMAC with SHA-256.
    Hs256,
}

/// The one algorithm that tokens are issued with and accepted under.
pub const SIGNATURE_ALGORITHM: SigningAlgorithm = SigningAlgorithm::Hs256;

/// The compact token that signing `payload` under `key` with `alg` produces.
pub uninterp spec fn signed_token(alg: SigningAlgorithm, key: Seq<u8>, payload: Seq<u8>) -> Seq<
    char,
>;

/// The payload of `token` when it parses as a compact token that declares
/// `alg` and whose signature checks under `key`; `None` otherwise.
pub uninterp spec fn checked_payload(alg: SigningAlgorithm, key: Seq<u8>, token: Seq<char>) -> Option<
    Seq<u8>,
>;

/// Relies on biscuit's `jws::Compact::into_encoded` with `Secret::Bytes` and a
/// header that declares `alg`: HMAC signing with a byte key always succeeds,
/// the token is a function of algorithm, key and payload, and biscuit's own
/// decoding of it under the same key and algorithm gives the payload back.
#[verifier::external_body]
fn sign_compact(alg: SigningAlgorithm, key: &[u8], payload: &[u8]) -> (r: Result<
    String,
    biscuit::errors::Error,
>)
    ensures
        r is Ok,
        r matches Ok(t) ==> t@ == signed_token(alg, key@, payload@) && checked_payload(
            alg,
            key@,
            t@,
        ) == Some(payload@),
{
    let algorithm = match alg {
        SigningAlgorithm::Hs256 => biscuit::jwa::SignatureAlgorithm::HS256,
    };
    let header = biscuit::jws::Header::<biscuit::Empty>::from(
        biscuit::jws::RegisteredHeader { algorithm, ..Default::default() },
    );
    biscuit::jws::Compact::<Vec<u8>, biscuit::Empty>::new_decoded(header, payload.to_vec())
        .into_encoded(&biscuit::jws::Secret::Bytes(key.to_vec()))?
        .encoded()
        .map(|compact| compact.to_string())
}

/// Relies on biscuit's `jws::Compact::into_decoded` with `Secret::Bytes`: it
/// returns the payload exactly when the token is well formed, declares `alg`
/// and carries a valid signature under the key.
#[verifier::external_body]
fn verify_compact(alg: SigningAlgorithm, key: &[u8], token: &str) -> (r: Result<
    Vec<u8>,
    biscuit::errors::Error,
>)
    ensures
        match r {
            Ok(p) => checked_payload(alg, key@, token@) == Some(p@),
            Err(_) => checked_payload(alg, key@, token@) is None,
        },
{
    let algorithm = match alg {
        SigningAlgorithm::Hs256 => biscuit::jwa::SignatureAlgorithm::HS256,
    };
    biscuit::jws::Compact::<Vec<u8>, biscuit::Empty>::new_encoded(token)
        .into_decoded(&biscuit::jws::Secret::Bytes(key.to_vec()), algorithm)
        .map(|decoded| decoded.unwrap_decoded().1)
}

/// Why a token could not be issued or verified, or a manager not built.
#[derive(Debug)]
pub enum TokenError {
    NoSecretKey,
    InvalidSecretKey,
    /// The token is malformed, declares another algorithm, or its signature
    /// does not check.
    Jwt(biscuit::errors::Error),
}

/// Issues and verifies signed tokens under one fixed secret.
pub struct TokenManager {
    key: Vec<u8>,
}

impl TokenManager {
    /// The signing key.
    pub closed spec fn key(&self) -> Seq<u8> {
        self.key@
    }

    /// The key is an accepted secret.
    pub closed spec fn wf(&self) -> bool {
        exists|secret: Seq<char>| secret_accepted(secret) && self.key@ == encode_utf8(secret)
    }

    /// The token that this manager issues for `claims`.
    pub open spec fn issued_token(&self, claims: Seq<u8>) -> Seq<char> {
        signed_token(SIGNATURE_ALGORITHM, self.key(), claims)
    }

    /// The claims that this manager accepts `token` for, if any.
    pub open spec fn verified_claims(&self, token: Seq<char>) -> Option<Seq<u8>> {
        checked_payload(SIGNATURE_ALGORITHM, self.key(), token)
    }

    /// Builds a manager from a secret; a secret shorter than the minimum is refused.
    pub fn new(secret: &str) -> (r: Result<TokenManager, TokenError>)
        ensures
            r is Ok <==> secret_accepted(secret@),
            r matches Ok(m) ==> m.wf() && m.key() == encode_utf8(secret@),
            r matches Err(e) ==> e is InvalidSecretKey,
    {
        if validate_secret(secret) {
            let m = TokenManager { key: slice_to_vec(secret.as_bytes()) };
            assert(secret_accepted(secret@) && m.key@ == encode_utf8(secret@));
            Ok(m)
        } else {
            Err(TokenError::InvalidSecretKey)
        }
    }

    /// Builds a manager from what the environment holds for the secret.
    pub fn from_env_secret(var: EnvSecret) -> (r: Result<TokenManager, TokenError>)
        ensures
            match var {
                EnvSecret::NotPresent => r matches Err(TokenError::NoSecretKey),
                EnvSecret::NotUnicode => r matches Err(TokenError::InvalidSecretKey),
                EnvSecret::Present(s) => (r is Ok <==> secret_accepted(s@)) && (r matches Ok(m)
                    ==> m.wf() && m.key() == encode_utf8(s@)) && (r matches Err(e) ==> e is InvalidSecretKey),
            },
    {
        match var {
            EnvSecret::NotPresent => Err(TokenError::NoSecretKey),
            EnvSecret::NotUnicode => Err(TokenError::InvalidSecretKey),
            EnvSecret::Present(s) => TokenManager::new(s.as_str()),
        }
    }

    /// Signs the serialized `claims` into a compact token; this always
    /// succeeds. Verifying the token with this manager gives the same claims back.
    pub fn create_token(&self, claims: &[u8]) -> (r: Result<String, TokenError>)
        ensures
            r is Ok,
            r matches Ok(t) ==> t@ == self.issued_token(claims@) && self.verified_claims(t@)
                == Some(claims@),
    {
        match sign_compact(SIGNATURE_ALGORITHM, self.key.as_slice(), claims) {
            Ok(t) => Ok(t),
            Err(e) => Err(TokenError::Jwt(e)),
        }
    }

    /// The serialized claims of `token`, only when its signature checks under
    /// this manager's secret and it declares the expected algorithm.
    pub fn verify_token(&self, token: &str) -> (r: Result<Vec<u8>, TokenError>)
        ensures
            r is Ok <==> self.verified_claims(token@) is Some,
            r matches Ok(p) ==> self.verified_claims(token@) == Some(p@),
            r matches Err(e) ==> e is Jwt,
    {
        match verify_compact(SIGNATURE_ALGORITHM, self.key.as_slice(), token) {
            Ok(p) => Ok(p),
            Err(e) => Err(TokenError::Jwt(e)),
        }
    }
}

} // verus!
