//! Password hashing: salts, encoded hashes, and checking a password against one.

use crate::handle_errors::{Error, ErrorView};
use crate::views::result_view;
use vstd::prelude::*;

verus! {

/// Number of random bytes in the salt of a stored password.
pub const SALT_LENGTH: usize = 32;

/// What `argon2::hash_encoded` makes of a password and a salt under the hashing
/// library's default configuration: the encoded hash, or the text of the
/// library's refusal.
pub uninterp spec fn argon2_encoding(password: Seq<u8>, salt: Seq<u8>) -> Result<
    Seq<char>,
    Seq<char>,
>;

/// What `argon2::verify_encoded` finds of an encoded hash and a password: whether
/// the password is the hashed one, or the text of the library's failure.
pub uninterp spec fn argon2_verification(hash: Seq<char>, password: Seq<u8>) -> Result<
    bool,
    Seq<char>,
>;

/// Draws a salt: `rand::random` for an array of [`SALT_LENGTH`] bytes, from the
/// thread's generator. Nothing is claimed of the bytes but their number. The
/// call does not return where the system gives the generator no seed.
#[verifier::external_body]
fn fresh_salt() -> (salt: Vec<u8>)
    ensures
        salt@.len() == SALT_LENGTH,
{
    rand::random::<[u8; 32]>().to_vec()
}

/// Hashes a password with a salt: `argon2::hash_encoded` under
/// `argon2::Config::default()`, a failure given as its text.
///
/// The outcome depends on the password and the salt alone and goes by the name
/// [`argon2_encoding`]. Before it hashes, the library checks the configuration
/// and the two lengths; under the default configuration it refuses only a salt
/// of less than 8 bytes and a salt or password of more than `u32::MAX` bytes.
#[verifier::external_body]
fn hash_encoded(password: &[u8], salt: &[u8]) -> (r: Result<String, String>)
    ensures
        result_view(r) == argon2_encoding(password@, salt@),
        8 <= salt@.len() <= u32::MAX && password@.len() <= u32::MAX ==> r is Ok,
{
    match argon2::hash_encoded(password, salt, &argon2::Config::default()) {
        Ok(hash) => Ok(hash),
        Err(e) => Err(e.to_string()),
    }
}

/// Checks a password against an encoded hash: `argon2::verify_encoded`, a
/// failure given as its text.
///
/// The outcome depends on the hash and the password alone and goes by the name
/// [`argon2_verification`]. The library hashes the password anew at the cost
/// that the encoded hash names.
#[verifier::external_body]
fn verify_password(hash: &str, password: &[u8]) -> (r: Result<bool, String>)
    ensures
        result_view(r) == argon2_verification(hash@, password@),
{
    match argon2::verify_encoded(hash, password) {
        Ok(matches) => Ok(matches),
        Err(e) => Err(e.to_string()),
    }
}

/// The stored form of a password hashed with a given salt, or the failure that
/// is reported where the hashing library refuses.
pub open spec fn hashed(password: Seq<u8>, salt: Seq<u8>) -> Result<Seq<char>, ErrorView> {
    match argon2_encoding(password, salt) {
        Ok(hash) => Ok(hash),
        Err(refusal) => Err(ErrorView::ArgonLibraryError(refusal)),
    }
}

/// What is decided of a login once the password was checked: nothing stands
/// against it where the password is the hashed one; a password that is not, and
/// a failure of the hashing library, are each reported as what they are.
pub open spec fn verdict(verified: Result<bool, Seq<char>>) -> Result<(), ErrorView> {
    match verified {
        Ok(true) => Ok(()),
        Ok(false) => Err(ErrorView::WrongPassword),
        Err(failure) => Err(ErrorView::ArgonLibraryError(failure)),
    }
}

/// Hashes `password` with `salt` into the form in which it is stored.
///
/// Succeeds at least where the salt has 8 bytes or more and neither the salt nor
/// the password has more than `u32::MAX` bytes.
pub fn hash_password_with_salt(password: &[u8], salt: &[u8]) -> (r: Result<String, Error>)
    ensures
        result_view(r) == hashed(password@, salt@),
        8 <= salt@.len() <= u32::MAX && password@.len() <= u32::MAX ==> r is Ok,
{
    match hash_encoded(password, salt) {
        Ok(hash) => Ok(hash),
        Err(refusal) => Err(Error::ArgonLibraryError(refusal)),
    }
}

/// Hashes `password` with a salt of [`SALT_LENGTH`] bytes drawn for this call.
///
/// Succeeds at least where the password has no more than `u32::MAX` bytes.
pub fn hash_password(password: &[u8]) -> (r: Result<String, Error>)
    ensures
        exists|salt: Seq<u8>|
            salt.len() == SALT_LENGTH && result_view(r) == #[trigger] hashed(password@, salt),
        password@.len() <= u32::MAX ==> r is Ok,
{
    let salt = fresh_salt();
    hash_password_with_salt(password, salt.as_slice())
}

/// Decides a login from the outcome of the password check.
pub fn password_verdict(verified: Result<bool, String>) -> (r: Result<(), Error>)
    ensures
        result_view(r) == verdict(result_view(verified)),
{
    match verified {
        Ok(true) => Ok(()),
        Ok(false) => Err(Error::WrongPassword),
        Err(failure) => Err(Error::ArgonLibraryError(failure)),
    }
}

/// Checks `password` against the stored `hash` and decides the login.
pub fn check_password(hash: &str, password: &[u8]) -> (r: Result<(), Error>)
    ensures
        result_view(r) == verdict(argon2_verification(hash@, password@)),
{
    password_verdict(verify_password(hash, password))
}

} // verus!
