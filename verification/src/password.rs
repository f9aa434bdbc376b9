//! The credential hasher: Argon2id hashes in the PHC string format, each
//! under a salt of its own.

use argon2::Argon2;
use argon2::PasswordHasher;
use argon2::PasswordVerifier;
use password_hash::rand_core::OsRng;
use password_hash::PasswordHash;
use password_hash::Salt;
use password_hash::SaltString;
use vstd::prelude::*;
use crate::error::AuthError;

verus! {

/// The encoded hash that Argon2id, with the crate's default parameters,
/// derives from a password under a salt; `None` where it refuses the pair.
pub uninterp spec fn argon2id_encoding(password: Seq<char>, salt: Seq<char>) -> Option<Seq<char>>;

/// Whether a string reads as a hash in the PHC string format.
pub uninterp spec fn encoded_hash_parses(encoded: Seq<char>) -> bool;

/// Whether Argon2 finds that a password matches an encoded hash.
pub uninterp spec fn argon2_accepts(password: Seq<char>, encoded: Seq<char>) -> bool;

/// What verifying `password` against `stored_hash` gives: an error for an
/// empty argument or a hash that does not parse, else whether they match.
pub open spec fn verification_outcome(password: Seq<char>, stored_hash: Seq<char>) -> Result<
    bool,
    AuthError,
> {
    if password.len() == 0 || stored_hash.len() == 0 || !encoded_hash_parses(stored_hash) {
        Err(AuthError::InvalidInput)
    } else {
        Ok(argon2_accepts(password, stored_hash))
    }
}

/// What hashing `password` under `salt` gives: an error for an empty
/// password, else the encoded hash, or an error where Argon2 refuses the
/// pair.
pub open spec fn hashing_outcome(password: Seq<char>, salt: Seq<char>) -> Result<
    Seq<char>,
    AuthError,
> {
    if password.len() == 0 {
        Err(AuthError::InvalidInput)
    } else {
        match argon2id_encoding(password, salt) {
            Some(encoded) => Ok(encoded),
            None => Err(AuthError::InvalidInput),
        }
    }
}

/// The mathematical content of what hashing returns.
pub open spec fn hash_result(r: Result<String, AuthError>) -> Result<Seq<char>, AuthError> {
    match r {
        Ok(encoded) => Ok(encoded@),
        Err(e) => Err(e),
    }
}

/// Calls `password_hash::SaltString::generate` on the operating system's
/// random source and hands the salt out as text. The salt is random, so
/// nothing is claimed of it.
#[verifier::external_body]
fn fresh_salt() -> (salt: String) {
    SaltString::generate(&mut OsRng).as_str().to_owned()
}

/// Calls `argon2::Argon2::hash_password` with the default parameters and
/// renders the result in the PHC string format.
///
/// Trusted: the call is a function of the password and the salt alone, and a
/// hash it returns parses and is accepted for the same password, since
/// verifying recomputes the hash from the parameters and the salt that the
/// string carries.
#[verifier::external_body]
fn argon2_hash(password: &str, salt: &str) -> (encoded: Option<String>)
    ensures
        encoded.is_some() == argon2id_encoding(password@, salt@).is_some(),
        encoded matches Some(h) ==> {
            &&& argon2id_encoding(password@, salt@) == Some(h@)
            &&& encoded_hash_parses(h@)
            &&& argon2_accepts(password@, h@)
            &&& h@.len() > 0
        },
{
    match Salt::from_b64(salt) {
        Ok(salt) => match Argon2::default().hash_password(password.as_bytes(), salt) {
            Ok(hash) => Some(hash.to_string()),
            Err(_) => None,
        },
        Err(_) => None,
    }
}

/// Calls `password_hash::PasswordHash::new` and tells whether it parsed.
#[verifier::external_body]
fn parses_as_encoded_hash(encoded: &str) -> (ok: bool)
    ensures
        ok == encoded_hash_parses(encoded@),
{
    PasswordHash::new(encoded).is_ok()
}

/// Calls `argon2::Argon2::verify_password` on a hash that parses, and tells
/// whether it returned `Ok`. Every error of the call counts as a mismatch.
#[verifier::external_body]
fn argon2_verify(password: &str, encoded: &str) -> (ok: bool)
    requires
        encoded_hash_parses(encoded@),
    ensures
        ok == argon2_accepts(password@, encoded@),
{
    match PasswordHash::new(encoded) {
        Ok(parsed) => Argon2::default().verify_password(password.as_bytes(), &parsed).is_ok(),
        Err(_) => false,
    }
}

/// Hashes a password under a fresh random salt.
///
/// An empty password is refused. Otherwise the result is what Argon2id makes
/// of the password under the salt that was drawn, and a hash that comes back
/// is one that `verify_password_hash` accepts for the same password.
pub fn hash_password(password: String) -> (result: Result<String, AuthError>)
    ensures
        exists|salt: Seq<char>| hash_result(result) == #[trigger] hashing_outcome(password@, salt),
        password@.len() == 0 ==> result == Err::<String, AuthError>(AuthError::InvalidInput),
        result matches Ok(encoded) ==> verification_outcome(password@, encoded@) == Ok::<
            bool,
            AuthError,
        >(true),
{
    if password.as_str().is_empty() {
        assert(hash_result(Err(AuthError::InvalidInput)) == hashing_outcome(
            password@,
            Seq::empty(),
        ));
        return Err(AuthError::InvalidInput);
    }
    let salt = fresh_salt();
    let result = match argon2_hash(password.as_str(), salt.as_str()) {
        Some(encoded) => Ok(encoded),
        None => Err(AuthError::InvalidInput),
    };
    assert(hash_result(result) == hashing_outcome(password@, salt@));
    result
}

/// Checks a password against a stored hash.
///
/// A mismatch is the answer `Ok(false)`, never an error: only an empty
/// argument or a stored hash that does not parse is.
pub fn verify_password_hash(password: String, stored_hash: String) -> (result: Result<
    bool,
    AuthError,
>)
    ensures
        result == verification_outcome(password@, stored_hash@),
{
    check_password(password.as_str(), stored_hash.as_str())
}

/// `verify_password_hash` on borrowed text.
pub fn check_password(password: &str, stored_hash: &str) -> (result: Result<bool, AuthError>)
    ensures
        result == verification_outcome(password@, stored_hash@),
{
    if password.is_empty() {
        return Err(AuthError::InvalidInput);
    }
    if stored_hash.is_empty() {
        return Err(AuthError::InvalidInput);
    }
    if !parses_as_encoded_hash(stored_hash) {
        return Err(AuthError::InvalidInput);
    }
    Ok(argon2_verify(password, stored_hash))
}

} // verus!
