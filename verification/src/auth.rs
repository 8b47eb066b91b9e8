use vstd::prelude::*;

use sha2::{Digest, Sha256};

verus! {

/// The account triple the session layer works with, as the abstraction
/// layer hands it up.
#[derive(Debug, Clone, PartialEq)]
pub struct User {
    pub id: i64,
    pub email: String,
    pub role: String,
}

/// The part of an account a session token carries.
#[derive(Debug, Clone, PartialEq)]
pub struct TokenUser {
    pub id: i64,
    pub email: String,
    pub role: String,
}

/// The part of a stored file a transfer token carries.
#[derive(Debug, Clone, PartialEq)]
pub struct TokenFile {
    pub id: i64,
    pub name: String,
}

/// The claims of a session token: the account it stands for, when it was
/// issued, and when it lapses.
#[derive(Debug, Clone, PartialEq)]
pub struct AuthTokenClaims {
    pub user: TokenUser,
    pub iat: usize,
    pub exp: usize,
}

/// The claims of a transient transfer token: the file it stands for,
/// when it was issued, and when it lapses.
#[derive(Debug, Clone, PartialEq)]
pub struct StorageTokenClaims {
    pub file: TokenFile,
    pub iat: usize,
    pub exp: usize,
}

/// How long a session token lives, in seconds: a full day.
pub const AUTH_TOKEN_LIFETIME: usize = 86400;

/// How long a transfer token lives, in seconds: two minutes.
pub const STORAGE_TOKEN_LIFETIME: usize = 120;

/// Builds the claims of a session token issued at `now` (seconds since
/// the epoch): it carries the account triple unchanged and lapses
/// exactly one session lifetime later.
pub fn auth_claims(user: User, now: usize) -> (c: AuthTokenClaims)
    requires
        now + AUTH_TOKEN_LIFETIME <= usize::MAX,
    ensures
        c.iat == now,
        c.exp == now + AUTH_TOKEN_LIFETIME,
        c.user.id == user.id,
        c.user.email == user.email,
        c.user.role == user.role,
{
    AuthTokenClaims {
        user: TokenUser { id: user.id, email: user.email, role: user.role },
        iat: now,
        exp: now + AUTH_TOKEN_LIFETIME,
    }
}

/// Builds the claims of a transfer token issued at `now`: it carries the
/// file record unchanged and lapses exactly one transfer lifetime later.
pub fn storage_claims(file: TokenFile, now: usize) -> (c: StorageTokenClaims)
    requires
        now + STORAGE_TOKEN_LIFETIME <= usize::MAX,
    ensures
        c.iat == now,
        c.exp == now + STORAGE_TOKEN_LIFETIME,
        c.file == file,
{
    StorageTokenClaims { file, iat: now, exp: now + STORAGE_TOKEN_LIFETIME }
}

/// The lower-case hexadecimal SHA-256 digest of a string's bytes: a
/// fixed function of the input alone, named rather than spelled out.
pub uninterp spec fn sha256_hex(s: Seq<char>) -> Seq<char>;

/// Relies on sha2's SHA-256 and on the digest array's hex formatting:
/// the digest is a function of the hashed bytes alone, and the 32-byte
/// digest prints as exactly two lower-case hex digits per byte.
#[verifier::external_body]
fn sha256_hex_of(data: &str) -> (r: String)
    ensures
        r@ == sha256_hex(data@),
        r@.len() == 64,
{
    let mut hasher = Sha256::new();
    hasher.update(data);
    let hash = hasher.finalize();
    format!("{:x}", hash)
}

/// Hashes a password for storage: the lower-case hex SHA-256 digest of
/// its bytes, always 64 characters.
pub fn hash_password(password: String) -> (r: String)
    ensures
        r@ == sha256_hex(password@),
        r@.len() == 64,
{
    sha256_hex_of(password.as_str())
}

} // verus!
