use vstd::prelude::*;
use crate::traits::token::TokenContainerTrait;

verus! {

/// A request that is nothing but an encoded claim.
pub struct TokenHolderViewModel {
    token: String,
}

impl TokenHolderViewModel {
    /// The request that carries the token `tkn`.
    pub fn new(tkn: &str) -> (r: Self)
        ensures
            r.token_text() == tkn@,
    {
        TokenHolderViewModel { token: tkn.to_owned() }
    }
}

impl TokenContainerTrait for TokenHolderViewModel {
    closed spec fn token_text(&self) -> Seq<char> {
        self.token@
    }

    fn get_token(&self) -> (r: &str) {
        self.token.as_str()
    }
}

} // verus!
