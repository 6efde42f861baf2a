use vstd::prelude::*;

verus! {

/// The name of the header that carries the caller's token.
pub const HEADER_API_KEY: &'static str = "X-API-Key";

/// The token that a caller sent in the header.
pub struct ApiKey(pub String);

impl ApiKey {
    /// The token.
    pub fn get_key(&self) -> (r: &str)
        ensures
            r@ == self.0@,
    {
        self.0.as_str()
    }
}

} // verus!
