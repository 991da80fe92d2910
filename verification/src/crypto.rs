//! Password hashing and session-token generation.
//!
//! Passwords are hashed with Argon2id into a self-describing PHC string that
//! embeds algorithm, parameters and salt. Tokens are 64 bytes from the
//! operating system's random source in unpadded URL-safe base64.

use argon2::password_hash::SaltString;
use argon2::{Argon2, PasswordHash, PasswordHasher, PasswordVerifier};
use base64::Engine;
use rand::rngs::OsRng;
use rand::RngCore;
use vstd::prelude::*;
use zeroize::Zeroize;

verus! {

/// Number of random bytes in the salt of a fresh password hash.
pub const SALT_BYTES: usize = 16;

/// Number of random bytes behind a session token.
pub const TOKEN_BYTES: usize = 64;

/// Number of characters of a session token.
pub const TOKEN_CHARS: usize = 86;

/// Longest password, in bytes, that Argon2 takes.
pub const MAX_PASSWORD_BYTES: usize = 0xFFFF_FFFF;

/// Shortest salt, in bytes, that Argon2 takes.
pub const MIN_SALT_BYTES: usize = 8;

/// Longest salt, in bytes, whose encoding fits a PHC salt field.
pub const MAX_SALT_BYTES: usize = 48;

/// The PHC string that Argon2id with the default parameters gives for
/// `password` under `salt`.
pub uninterp spec fn argon2id_phc(password: Seq<u8>, salt: Seq<u8>) -> Seq<char>;

/// Whether `hashed` parses as a PHC string.
pub uninterp spec fn phc_parses(hashed: Seq<char>) -> bool;

/// Whether Argon2 recomputes, from `password` and the parameters and salt in
/// the PHC string `hashed`, the output that `hashed` carries.
pub uninterp spec fn argon2_accepts(password: Seq<u8>, hashed: Seq<char>) -> bool;

/// The unpadded URL-safe base64 text of `bytes`.
pub uninterp spec fn base64url_nopad(bytes: Seq<u8>) -> Seq<char>;

/// A stored hash vouches for a password when it is a PHC string and Argon2
/// reproduces its output from the password.
pub open spec fn password_matches(password: Seq<u8>, hashed: Seq<char>) -> bool {
    phc_parses(hashed) && argon2_accepts(password, hashed)
}

/// `hashed` is what hashing `password` under some salt of the standard size
/// gives.
pub open spec fn is_hash_of(password: Seq<u8>, hashed: Seq<char>) -> bool {
    exists|salt: Seq<u8>|
        salt.len() == SALT_BYTES && hashed == #[trigger] argon2id_phc(password, salt)
}

/// Length of the unpadded base64 text of `n` bytes.
pub open spec fn base64_nopad_len(n: nat) -> nat {
    4 * (n / 3) + if n % 3 == 0 {
        0nat
    } else if n % 3 == 1 {
        2nat
    } else {
        3nat
    }
}

/// The characters of the URL-safe base64 alphabet.
pub open spec fn is_url_safe(c: char) -> bool {
    ||| 'A' <= c <= 'Z'
    ||| 'a' <= c <= 'z'
    ||| '0' <= c <= '9'
    ||| c == '-'
    ||| c == '_'
}

/// `token` is the text of some `TOKEN_BYTES` bytes.
pub open spec fn is_token(token: Seq<char>) -> bool {
    exists|bytes: Seq<u8>|
        bytes.len() == TOKEN_BYTES && token == #[trigger] base64url_nopad(bytes)
}

/// Why a password was not accepted. It carries nothing: which part of the
/// check failed is not told.
#[derive(Clone, Copy, Debug, PartialEq, Eq)]
pub struct Rejected;

/// Trusted: `rand::rngs::OsRng` through `RngCore::fill_bytes`, which asks the
/// operating system to overwrite every byte of the buffer. Nothing is claimed
/// of the bytes; the buffer keeps its length. The call does not return if the
/// system has no random source.
#[verifier::external_body]
fn fill_from_os(buf: &mut Vec<u8>)
    ensures
        final(buf)@.len() == old(buf)@.len(),
{
    OsRng.fill_bytes(buf.as_mut_slice());
}

/// Trusted: `SaltString::encode_b64` and `Argon2::default().hash_password`,
/// then `to_string`. The salt is encoded for the PHC salt field, and the
/// password hashed under it with Argon2id and the default parameters. The
/// result depends on the two arguments alone; it parses as a PHC string, and
/// `verify_password` of the same crate accepts it for the same password,
/// since it recomputes with the algorithm, parameters and salt it reads back.
#[verifier::external_body]
fn argon2_hash(password: &[u8], salt: &[u8]) -> (hashed: String)
    requires
        password@.len() <= MAX_PASSWORD_BYTES,
        MIN_SALT_BYTES <= salt@.len() <= MAX_SALT_BYTES,
    ensures
        hashed@ == argon2id_phc(password@, salt@),
        phc_parses(hashed@),
        argon2_accepts(password@, hashed@),
{
    let salt = SaltString::encode_b64(salt).unwrap();
    Argon2::default().hash_password(password, &salt).unwrap().to_string()
}

/// Trusted: `PasswordHash::new`, which parses a PHC string. Says only
/// whether it parsed.
#[verifier::external_body]
fn phc_is_well_formed(hashed: &str) -> (ok: bool)
    ensures
        ok == phc_parses(hashed@),
{
    PasswordHash::new(hashed).is_ok()
}

/// Trusted: `Argon2::default().verify_password` on the PHC string, parsed
/// once more with `PasswordHash::new`. It hashes the password with the
/// algorithm, parameters and salt that the string holds and compares the
/// outputs in constant time; any error counts as a refusal. It takes as
/// much memory as the parameters in the string ask for.
#[verifier::external_body]
fn argon2_verify(password: &[u8], hashed: &str) -> (ok: bool)
    requires
        phc_parses(hashed@),
    ensures
        ok == argon2_accepts(password@, hashed@),
{
    let parsed = PasswordHash::new(hashed).unwrap();
    Argon2::default().verify_password(password, &parsed).is_ok()
}

/// Trusted: `Engine::encode` of `base64::prelude::BASE64_URL_SAFE_NO_PAD`.
/// The text depends on the bytes alone, has the length that the crate's
/// `encoded_len` gives without padding, and is drawn from the URL-safe
/// alphabet. The length must fit a `usize`.
#[verifier::external_body]
fn base64url_encode(bytes: &[u8]) -> (text: String)
    requires
        base64_nopad_len(bytes@.len()) <= usize::MAX,
    ensures
        text@ == base64url_nopad(bytes@),
        text@.len() == base64_nopad_len(bytes@.len()),
        forall|i: int| 0 <= i < text@.len() ==> is_url_safe(#[trigger] text@[i]),
{
    base64::prelude::BASE64_URL_SAFE_NO_PAD.encode(bytes)
}

/// Trusted: `Zeroize::zeroize` for `Vec<u8>`, which overwrites the bytes and
/// the spare capacity with zeros and then clears the vector.
#[verifier::external_body]
fn zeroize_bytes(secret: &mut Vec<u8>)
    ensures
        final(secret)@ == Seq::<u8>::empty(),
{
    secret.zeroize();
}

/// A buffer of `n` zero bytes.
fn zeroed(n: usize) -> (buf: Vec<u8>)
    ensures
        buf@.len() == n,
{
    let mut buf: Vec<u8> = Vec::new();
    while buf.len() < n
        invariant
            buf@.len() <= n,
        decreases n - buf@.len(),
    {
        buf.push(0u8);
    }
    buf
}

/// Hashes `password` under the given salt.
///
/// The result is a function of the two arguments, and it is a hash that
/// `verify_password` accepts for `password`.
pub fn hash_password_with_salt(password: &[u8], salt: &[u8]) -> (hashed: String)
    requires
        password@.len() <= MAX_PASSWORD_BYTES,
        MIN_SALT_BYTES <= salt@.len() <= MAX_SALT_BYTES,
    ensures
        hashed@ == argon2id_phc(password@, salt@),
        password_matches(password@, hashed@),
{
    argon2_hash(password, salt)
}

/// Hashes `password` under a fresh random salt of `SALT_BYTES` bytes.
///
/// Whatever salt was drawn, the result is the hash of `password` under it,
/// and `verify_password` accepts it for `password`.
pub fn hash_password(password: &[u8]) -> (hashed: String)
    requires
        password@.len() <= MAX_PASSWORD_BYTES,
    ensures
        is_hash_of(password@, hashed@),
        password_matches(password@, hashed@),
{
    let mut salt = zeroed(SALT_BYTES);
    fill_from_os(&mut salt);
    hash_password_with_salt(password, salt.as_slice())
}

/// Checks `password` against a stored hash.
///
/// Succeeds exactly when the stored string is a PHC string whose output
/// Argon2 reproduces from `password`; a string that does not parse is
/// refused like a wrong password.
pub fn verify_password(password: &[u8], hashed_password: &str) -> (outcome: Result<(), Rejected>)
    ensures
        outcome is Ok <==> password_matches(password@, hashed_password@),
{
    if !phc_is_well_formed(hashed_password) {
        return Err(Rejected);
    }
    if argon2_verify(password, hashed_password) {
        Ok(())
    } else {
        Err(Rejected)
    }
}

/// The token that stands for the given random bytes.
pub fn token_from_bytes(bytes: &[u8]) -> (token: String)
    requires
        bytes@.len() == TOKEN_BYTES,
    ensures
        token@ == base64url_nopad(bytes@),
        is_token(token@),
        token@.len() == TOKEN_CHARS,
        forall|i: int| 0 <= i < token@.len() ==> is_url_safe(#[trigger] token@[i]),
{
    base64url_encode(bytes)
}

/// Draws a fresh session token: `TOKEN_BYTES` bytes from the operating
/// system's random source, as `TOKEN_CHARS` URL-safe characters.
pub fn generate_token() -> (token: String)
    ensures
        is_token(token@),
        token@.len() == TOKEN_CHARS,
        forall|i: int| 0 <= i < token@.len() ==> is_url_safe(#[trigger] token@[i]),
{
    let mut bytes = zeroed(TOKEN_BYTES);
    fill_from_os(&mut bytes);
    token_from_bytes(bytes.as_slice())
}

/// Clears a cleartext password: the buffer is overwritten and left empty.
///
/// This is best effort. Copies that the allocator or the caller made before
/// are out of reach.
pub fn scrub(secret: &mut Vec<u8>)
    ensures
        final(secret)@ == Seq::<u8>::empty(),
{
    zeroize_bytes(secret);
}

} // verus!
