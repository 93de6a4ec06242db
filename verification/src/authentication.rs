//! Registration and login, as far as they are decided without the account store.
//!
//! The store is asked by the caller. Registration prepares what is handed to the
//! store and answers what the store said; login starts from what the store
//! found.

use crate::handle_errors::{Error, ErrorView};
use crate::password::{
    argon2_verification,
    check_password,
    hash_password,
    hashed,
    verdict,
    SALT_LENGTH,
};
use crate::token::{claims_at, issue_token, token_at, CLOCK_END, TOKEN_LIFETIME};
use crate::types::account::{Account, AccountView};
use crate::views::result_view;
use vstd::prelude::*;
use vstd::utf8::encode_utf8;

verus! {

/// What the service is given once, when it starts, and only reads afterwards.
#[derive(Clone)]
pub struct AuthConfig {
    /// The key with which tokens are signed.
    pub secret: Vec<u8>,
}

/// What registration hands to the store where the salt is `salt`: the account
/// with the hash of its password in the password's place, or the failure of the
/// hashing.
pub open spec fn registration(account: AccountView, salt: Seq<u8>) -> Result<
    AccountView,
    ErrorView,
> {
    match hashed(encode_utf8(account.password), salt) {
        Ok(hash) => Ok(AccountView { id: account.id, email: account.email, password: hash }),
        Err(error) => Err(error),
    }
}

/// What is answered to a registration once the store was asked to add the
/// account: a confirmation, or the store's failure as it is.
pub open spec fn registration_answer<T>(added: Result<T, Error>) -> Result<Seq<char>, ErrorView> {
    match added {
        Ok(_) => Ok("Account added"@),
        Err(error) => Err(error@),
    }
}

/// Whom a login is for, where the store found `fetched` and the user typed
/// `password`: the stored account where the password is the hashed one, else the
/// failure: the store's as it is, a wrong password, or a failure of the hashing
/// library.
pub open spec fn authentication(
    fetched: Result<AccountView, ErrorView>,
    password: Seq<char>,
) -> Result<AccountView, ErrorView> {
    match fetched {
        Ok(account) => match verdict(argon2_verification(account.password, encode_utf8(password))) {
            Ok(()) => Ok(account),
            Err(error) => Err(error),
        },
        Err(error) => Err(error),
    }
}

/// Prepares an account for the store: the password that the user typed is
/// replaced by its hash under a salt drawn for this call; identifier and e-mail
/// address stay.
///
/// Succeeds at least where the password has no more than `u32::MAX` bytes.
pub fn register(account: Account) -> (r: Result<Account, Error>)
    ensures
        exists|salt: Seq<u8>|
            salt.len() == SALT_LENGTH && result_view(r) == #[trigger] registration(
                account@,
                salt,
            ),
        encode_utf8(account.password@).len() <= u32::MAX ==> r is Ok,
{
    let hashing = hash_password(account.password.as_str().as_bytes());
    let ghost bytes = encode_utf8(account.password@);
    let ghost salt = choose|salt: Seq<u8>|
        salt.len() == SALT_LENGTH && result_view(hashing) == #[trigger] hashed(
            bytes,
            salt,
        );
    let r = match hashing {
        Ok(hashed_password) => Ok(
            Account { id: account.id, email: account.email, password: hashed_password },
        ),
        Err(error) => Err(error),
    };
    assert(result_view(r) == registration(account@, salt));
    r
}

/// Answers a registration once the store was asked to add the account.
pub fn confirm_registration<T>(added: Result<T, Error>) -> (r: Result<String, Error>)
    ensures
        result_view(r) == registration_answer(added),
        added matches Err(error) ==> r == Err::<String, Error>(error),
{
    match added {
        Ok(_) => Ok("Account added".to_string()),
        Err(error) => Err(error),
    }
}

/// Decides whom a login is for, from what the store found under the e-mail
/// address of the attempt and the password that the attempt holds.
pub fn authenticate(fetched: Result<Account, Error>, attempt: &Account) -> (r: Result<Account, Error>)
    ensures
        result_view(r) == authentication(result_view(fetched), attempt.password@),
        fetched matches Err(error) ==> r == Err::<Account, Error>(error),
        r matches Ok(account) ==> fetched == Ok::<Account, Error>(account),
{
    match fetched {
        Ok(account) => {
            match check_password(account.password.as_str(), attempt.password.as_str().as_bytes()) {
                Ok(()) => Ok(account),
                Err(error) => Err(error),
            }
        },
        Err(error) => Err(error),
    }
}

/// Logs a user in: decides whom the login is for and issues that account a
/// token, signed with the configured secret, that holds from the present instant.
///
/// A failure is reported as [`authenticate`] decides it.
///
/// An account that the store found has its identifier.
pub fn login(fetched: Result<Account, Error>, attempt: Account, config: &AuthConfig) -> (r: Result<
    String,
    Error,
>)
    requires
        fetched matches Ok(account) ==> account.id is Some,
    ensures
        match authentication(result_view(fetched), attempt.password@) {
            Ok(account) => r matches Ok(token) && exists|now: i64|
                0 <= now < CLOCK_END && token@ == #[trigger] token_at(
                    account.id->0,
                    now as int,
                    config.secret@,
                ),
            Err(error) => r matches Err(e) && e@ == error,
        },
        fetched matches Err(error) ==> r == Err::<String, Error>(error),
{
    match authenticate(fetched, &attempt) {
        Ok(account) => {
            let account_id = account.id.expect("id not found");
            let token = issue_token(&account_id, config.secret.as_slice());
            proof {
                let now = choose|now: i64|
                    {
                        &&& 0 <= now < CLOCK_END
                        &&& token@ == #[trigger] token_at(account_id@, now as int, config.secret@)
                        &&& now + TOKEN_LIFETIME <= usize::MAX ==> {
                            let claims = claims_at(account_id@, now as int);
                            claims.nbf == now && claims.exp == now + TOKEN_LIFETIME
                        }
                    };
                assert(token@ == token_at(account@.id->0, now as int, config.secret@));
            }
            Ok(token)
        },
        Err(error) => Err(error),
    }
}

} // verus!
