//! Accounts: an e-mail address, a password, and the identifier that the store assigns.

use crate::views::option_view;
use vstd::prelude::*;

verus! {

/// Identifier that the account store assigns to an account when it creates it.
#[derive(Debug, Clone, PartialEq, Eq, Hash, Structural)]
pub struct AccountId(pub i32);

impl View for AccountId {
    type V = int;

    open spec fn view(&self) -> int {
        self.0 as int
    }
}

/// An account as a request carries it or as the store keeps it.
///
/// In a request the password is the one that the user typed. In the store it is
/// the encoded hash of that password, and `id` is present.
#[derive(Debug, Clone)]
pub struct Account {
    pub id: Option<AccountId>,
    pub email: String,
    pub password: String,
}

/// An [`Account`] as a mathematical value.
pub struct AccountView {
    pub id: Option<int>,
    pub email: Seq<char>,
    pub password: Seq<char>,
}

impl View for Account {
    type V = AccountView;

    open spec fn view(&self) -> AccountView {
        AccountView {
            id: option_view(self.id),
            email: self.email@,
            password: self.password@,
        }
    }
}

/// What a user gives to open an account.
#[derive(Debug, Clone)]
pub struct NewAccount {
    pub email: String,
    pub password: String,
}

/// A [`NewAccount`] as a mathematical value.
pub struct NewAccountView {
    pub email: Seq<char>,
    pub password: Seq<char>,
}

impl View for NewAccount {
    type V = NewAccountView;

    open spec fn view(&self) -> NewAccountView {
        NewAccountView { email: self.email@, password: self.password@ }
    }
}

} // verus!
