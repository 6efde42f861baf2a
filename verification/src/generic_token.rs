use vstd::prelude::*;
use crate::traits::token::TokenContainerTrait;

verus! {

/// A request together with the encoded claim that authorises it.
pub struct GenericTokenViewModel<T> {
    token: String,
    model: T,
}

impl<T> GenericTokenViewModel<T> {
    /// The request, as a value.
    pub closed spec fn model_value(&self) -> T {
        self.model
    }

    /// The request `model` under the token `token`.
    pub fn new(token: &str, model: T) -> (r: Self)
        ensures
            r.token_text() == token@,
            r.model_value() == model,
    {
        GenericTokenViewModel { token: token.to_owned(), model }
    }

    /// The request.
    pub fn get_model(&self) -> (r: &T)
        ensures
            *r == self.model_value(),
    {
        &self.model
    }
}

impl<T> TokenContainerTrait for GenericTokenViewModel<T> {
    closed spec fn token_text(&self) -> Seq<char> {
        self.token@
    }

    fn get_token(&self) -> (r: &str) {
        self.token.as_str()
    }
}

} // verus!
