//! Password hashing: a salted, memory-hard, one-way transform of a secret
//! into a self-describing encoded hash, and the check of a secret against
//! such a hash.

use vstd::prelude::*;
use vstd::string::StringSliceAdditionalSpecFns;
use rand::RngCore;

verus! {

/// The number of random bytes in a fresh salt.
pub const SALT_LENGTH: usize = 16;

/// The longest password and salt, in bytes, that the hash function takes.
pub const MAX_INPUT_LENGTH: usize = 0xFFFF_FFFF;

/// The shortest salt, in bytes, that the hash function takes.
pub const MIN_SALT_LENGTH: usize = 8;

/// Hashing failed: the hash function refused its input.
#[derive(Clone, Copy, Debug, PartialEq, Eq, Structural)]
pub struct HashingFailure;

#[verifier::external_type_specification]
#[verifier::external_body]
pub struct ExArgon2Error(argon2::Error);

/// The encoded hash that Argon2, in its default configuration, computes
/// from the bytes of a password and a salt.
pub uninterp spec fn argon2_encoding(password: Seq<u8>, salt: Seq<u8>) -> Seq<char>;

/// What checking the bytes of a password against an encoded hash gives:
/// whether they match, or nothing where the encoded hash cannot be read.
pub uninterp spec fn argon2_verification(encoded: Seq<char>, password: Seq<u8>) -> Option<bool>;

/// Whether the hash function accepts a password and a salt of these lengths.
pub open spec fn hashable(password: Seq<u8>, salt: Seq<u8>) -> bool {
    &&& password.len() <= MAX_INPUT_LENGTH
    &&& MIN_SALT_LENGTH <= salt.len() <= MAX_INPUT_LENGTH
}

/// Whether a password matches an encoded hash. A hash that cannot be read
/// matches nothing.
pub open spec fn password_matches(password: Seq<char>, encoded: Seq<char>) -> bool {
    argon2_verification(encoded, vstd::utf8::encode_utf8(password)) == Some(true)
}

/// Calls `argon2::hash_encoded` with `Config::default()`. Not proved: that
/// it succeeds exactly on a password of at most 2^32 - 1 bytes with a salt
/// of 8 to 2^32 - 1 bytes, which are the only limits its input check can
/// miss in that configuration; that its result is a function of password
/// and salt, named `argon2_encoding`; and that `argon2::verify_encoded`
/// accepts the same password against that result.
#[verifier::external_body]
fn argon2_hash_encoded(password: &[u8], salt: &[u8]) -> (r: Result<String, argon2::Error>)
    ensures
        r is Ok <==> hashable(password@, salt@),
        r matches Ok(h) ==> h@ == argon2_encoding(password@, salt@),
        r matches Ok(h) ==> argon2_verification(h@, password@) == Some(true),
{
    argon2::hash_encoded(password, salt, &argon2::Config::default())
}

/// Calls `argon2::verify_encoded`. Not proved: that its result is a
/// function of the encoded hash and the password, named
/// `argon2_verification`, with an error standing for no answer.
#[verifier::external_body]
fn argon2_verify_encoded(encoded: &str, password: &[u8]) -> (r: Result<bool, argon2::Error>)
    ensures
        match r {
            Ok(b) => argon2_verification(encoded@, password@) == Some(b),
            Err(_) => argon2_verification(encoded@, password@) is None,
        },
{
    argon2::verify_encoded(encoded, password)
}

/// Fills a fresh buffer of `n` bytes from the thread-local generator of the
/// `rand` crate (`rand::rng`, `RngCore::fill_bytes`). Only the length of
/// the result is stated; the bytes differ from call to call. The generator
/// does not return where the operating system gives it no entropy to seed
/// itself with.
#[verifier::external_body]
fn random_bytes(n: usize) -> (r: Vec<u8>)
    ensures
        r@.len() == n,
{
    let mut bytes = vec![0u8; n];
    rand::rng().fill_bytes(&mut bytes);
    bytes
}

/// Hashes a password with the given salt.
///
/// Succeeds exactly when the hash function accepts the lengths of both; the
/// encoded hash is then the one that password and salt determine, and the
/// password matches it.
pub fn hash_password_with_salt(password: &str, salt: &[u8]) -> (r: Result<String, HashingFailure>)
    ensures
        r is Ok <==> hashable(password.spec_bytes(), salt@),
        r matches Ok(h) ==> h@ == argon2_encoding(password.spec_bytes(), salt@),
        r matches Ok(h) ==> password_matches(password@, h@),
{
    match argon2_hash_encoded(password.as_bytes(), salt) {
        Ok(encoded) => Ok(encoded),
        Err(_) => Err(HashingFailure),
    }
}

/// Hashes a password with a fresh random salt of `SALT_LENGTH` bytes.
///
/// Succeeds on every password of at most `MAX_INPUT_LENGTH` bytes. The
/// encoded hash is the one that the password and some salt of that length
/// determine, and the password matches it.
pub fn hash_password(password: &str) -> (r: Result<String, HashingFailure>)
    ensures
        r is Ok <==> password.spec_bytes().len() <= MAX_INPUT_LENGTH,
        r matches Ok(h) ==> password_matches(password@, h@),
        r matches Ok(h) ==> exists|salt: Seq<u8>|
            salt.len() == SALT_LENGTH && h@ == #[trigger] argon2_encoding(
                password.spec_bytes(),
                salt,
            ),
{
    let salt = random_bytes(SALT_LENGTH);
    hash_password_with_salt(password, salt.as_slice())
}

/// Checks a password against an encoded hash. A hash that cannot be read is
/// not told apart from one that does not match: both give `false`.
pub fn verify_password(password: &str, hash: &str) -> (r: bool)
    ensures
        r == password_matches(password@, hash@),
{
    match argon2_verify_encoded(hash, password.as_bytes()) {
        Ok(matches) => matches,
        Err(_) => false,
    }
}

} // verus!
