use vstd::prelude::*;

verus! {

/// A request that carries an encoded claim.
pub trait TokenContainerTrait {
    /// The text of the token that the request carries.
    spec fn token_text(&self) -> Seq<char>;

    /// The token that the request carries.
    fn get_token(&self) -> (r: &str)
        ensures
            r@ == self.token_text(),
    ;
}

} // verus!
