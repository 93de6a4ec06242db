//! What a token says of its bearer.

use vstd::prelude::*;

verus! {

/// The payload of a token: whose it is, and the span of time in which it holds,
/// both ends in seconds since the epoch.
#[derive(Debug)]
pub struct Claims {
    pub account_id: String,
    pub exp: usize,
    pub nbf: usize,
}

/// [`Claims`] as a mathematical value.
pub struct ClaimsView {
    pub account_id: Seq<char>,
    pub exp: nat,
    pub nbf: nat,
}

impl View for Claims {
    type V = ClaimsView;

    open spec fn view(&self) -> ClaimsView {
        ClaimsView { account_id: self.account_id@, exp: self.exp as nat, nbf: self.nbf as nat }
    }
}

} // verus!
