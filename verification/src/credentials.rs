//! Credential hasher and salt generator: a fixed-length random alphanumeric
//! salt per account, and a memory-hard keyed password hash. Hashing is
//! deterministic given password, salt and the server-wide hashing secret;
//! verification recomputes the hash under the same parameters and compares.

use vstd::prelude::*;
use vstd::string::StringSliceAdditionalSpecFns;
use vstd::utf8::is_ascii_chars;
use vstd::utf8::is_ascii_chars_encode_utf8;
use crate::errors::ApiError;

verus! {

/// Length of the per-account salt, in characters.
pub const SALT_LEN: usize = 8;

/// Size of the alphanumeric alphabet salts are drawn from.
pub const SALT_ALPHABET_LEN: usize = 62;

/// The code points a salt may contain: ASCII upper case, lower case, digits.
pub open spec fn is_salt_code(n: u32) -> bool {
    (65 <= n <= 90) || (97 <= n <= 122) || (48 <= n <= 57)
}

/// A salt character is alphanumeric ASCII.
pub open spec fn is_salt_char(c: char) -> bool {
    is_salt_code(c as u32)
}

/// A salt byte is alphanumeric ASCII.
pub open spec fn is_salt_byte(b: u8) -> bool {
    is_salt_code(b as u32)
}

/// A well-formed salt: exactly `SALT_LEN` alphanumeric ASCII characters.
pub open spec fn is_valid_salt(s: Seq<char>) -> bool {
    s.len() == SALT_LEN && forall|i: int| 0 <= i < s.len() ==> is_salt_char(#[trigger] s[i])
}

/// Relies on rand::random_range over the thread-local generator, which the
/// rand crate seeds from the operating system: a draw below the bound.
#[verifier::external_body]
fn random_below(bound: usize) -> (r: usize)
    requires
        0 < bound,
    ensures
        r < bound,
{
    rand::random_range(0..bound)
}

/// Relies on String::from_utf8: ASCII bytes are valid UTF-8 and decode to
/// the characters with the same code points, one character per byte.
#[verifier::external_body]
fn ascii_bytes_to_string(bytes: Vec<u8>) -> (r: String)
    requires
        forall|i: int| 0 <= i < bytes@.len() ==> bytes@[i] < 128,
    ensures
        r@.len() == bytes@.len(),
        forall|i: int| 0 <= i < bytes@.len() ==> r@[i] == bytes@[i] as char,
{
    String::from_utf8(bytes).unwrap_or_default()
}

/// The alphabet cell at `idx`: the 26 upper-case letters, then the 26
/// lower-case letters, then the 10 digits.
fn salt_byte(idx: usize) -> (b: u8)
    requires
        idx < SALT_ALPHABET_LEN,
    ensures
        is_salt_byte(b),
        b < 128,
{
    if idx < 26 {
        65u8 + idx as u8
    } else if idx < 52 {
        97u8 + (idx - 26) as u8
    } else {
        48u8 + (idx - 52) as u8
    }
}

/// Produces a fresh salt: `SALT_LEN` characters drawn uniformly from the
/// alphanumeric alphabet, using the operating-system-seeded generator.
pub fn generate_salt() -> (salt: String)
    ensures
        is_valid_salt(salt@),
        is_ascii_chars(salt@),
{
    let mut bytes: Vec<u8> = Vec::new();
    let mut k: usize = 0;
    while k < SALT_LEN
        invariant
            k <= SALT_LEN,
            bytes@.len() == k,
            forall|i: int| 0 <= i < bytes@.len() ==> is_salt_byte(#[trigger] bytes@[i]),
            forall|i: int| 0 <= i < bytes@.len() ==> bytes@[i] < 128,
        decreases SALT_LEN - k,
    {
        let idx = random_below(SALT_ALPHABET_LEN);
        let b = salt_byte(idx);
        bytes.push(b);
        k += 1;
    }
    let salt = ascii_bytes_to_string(bytes);
    proof {
        assert forall|i: int| 0 <= i < salt@.len() implies is_salt_char(#[trigger] salt@[i]) by {
            assert(salt@[i] == bytes@[i] as char);
        }
        assert forall|i: int| 0 <= i < salt@.len() implies '\0' <= #[trigger] salt@[i] <= '\u{7f}' by {
            assert(salt@[i] == bytes@[i] as char);
        }
    }
    salt
}

/// The encoded hash that the Argon2 function derives from a password, a
/// salt and the hashing secret under this library's fixed parameters.
pub uninterp spec fn hash_of(password: Seq<char>, salt: Seq<char>, secret: Seq<char>) -> Seq<char>;

/// Largest byte length the Argon2 implementation accepts for a password,
/// salt or secret.
pub open spec fn fits_argon2(s: Seq<u8>) -> bool {
    s.len() <= 0xFFFF_FFFF
}

/// Relies on argon2::hash_encoded (the rust-argon2 crate) with a fixed
/// configuration carrying the hashing secret as its keyed secret: the
/// encoded result is a deterministic function of password, salt and secret,
/// and the call succeeds whenever the salt is at least 8 bytes and every
/// input is within the crate's length bounds.
#[verifier::external_body]
fn argon2_hash_encoded(password: &str, salt: &str, secret: &str) -> (r: Result<String, ApiError>)
    ensures
        8 <= salt.spec_bytes().len() && fits_argon2(salt.spec_bytes()) && fits_argon2(
            password.spec_bytes(),
        ) && fits_argon2(secret.spec_bytes()) ==> r is Ok,
        r matches Ok(h) ==> h@ == hash_of(password@, salt@, secret@) && h@.len() > 0,
        r matches Err(e) ==> e == ApiError::ServiceFault,
{
    let mut config = argon2::Config::original();
    config.secret = secret.as_bytes();
    match argon2::hash_encoded(password.as_bytes(), salt.as_bytes(), &config) {
        Ok(h) => Ok(h),
        Err(_) => Err(ApiError::ServiceFault),
    }
}

/// Derives the stored hash for a password: memory-hard, salted with the
/// per-account salt and keyed with the server-wide hashing secret. The
/// result is deterministic given the same three inputs; a library fault
/// surfaces as a recoverable error.
pub fn hash_password(password: &str, salt: &str, secret: &str) -> (r: Result<String, ApiError>)
    ensures
        8 <= salt.spec_bytes().len() && fits_argon2(salt.spec_bytes()) && fits_argon2(
            password.spec_bytes(),
        ) && fits_argon2(secret.spec_bytes()) ==> r is Ok,
        r matches Ok(h) ==> h@ == hash_of(password@, salt@, secret@) && h@.len() > 0,
        r matches Err(e) ==> e == ApiError::ServiceFault,
{
    argon2_hash_encoded(password, salt, secret)
}

/// Verifies a presented password against a stored hash by recomputing the
/// hash under the same salt, secret and parameters and comparing. Returns
/// exactly whether the stored hash is the hash of the presented password:
/// a hash derived from the same password, salt and secret always verifies,
/// and a stored value that is not that hash never does.
pub fn verify_password(stored: &str, password: &str, salt: &str, secret: &str) -> (r: Result<
    bool,
    ApiError,
>)
    ensures
        8 <= salt.spec_bytes().len() && fits_argon2(salt.spec_bytes()) && fits_argon2(
            password.spec_bytes(),
        ) && fits_argon2(secret.spec_bytes()) ==> r is Ok,
        r matches Ok(b) ==> b == (stored@ == hash_of(password@, salt@, secret@)),
        stored@ == hash_of(password@, salt@, secret@) ==> (r matches Ok(b) ==> b),
        stored@ != hash_of(password@, salt@, secret@) ==> (r matches Ok(b) ==> !b),
        r matches Err(e) ==> e == ApiError::ServiceFault,
{
    match hash_password(password, salt, secret) {
        Ok(recomputed) => {
            let stored_owned = stored.to_owned();
            Ok(recomputed == stored_owned)
        },
        Err(e) => Err(e),
    }
}

/// A well-formed salt of `SALT_LEN` ASCII characters occupies exactly
/// `SALT_LEN` bytes once encoded, which meets the Argon2 minimum, so
/// hashing with such a salt is never rejected for its length.
pub proof fn lemma_valid_salt_fits_argon2(s: Seq<char>)
    requires
        is_valid_salt(s),
        is_ascii_chars(s),
    ensures
        vstd::utf8::encode_utf8(s).len() == SALT_LEN,
        8 <= vstd::utf8::encode_utf8(s).len(),
        fits_argon2(vstd::utf8::encode_utf8(s)),
{
    is_ascii_chars_encode_utf8(s);
}

} // verus!
