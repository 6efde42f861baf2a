use vstd::prelude::*;

verus! {

/// What is sent to ask for a recovery token: the id of the user who forgot
/// the password.
pub struct UserIdViewModel {
    id: String,
}

impl UserIdViewModel {
    /// The id of the user, as a value.
    pub closed spec fn id_text(&self) -> Seq<char> {
        self.id@
    }

    /// A request of these values.
    pub fn new(id: &str) -> (r: Self)
        ensures
            r.id_text() == id@,
    {
        Self { id: id.to_owned() }
    }

    /// The id of the user.
    pub fn get_id(&self) -> (r: &str)
        ensures
            r@ == self.id_text(),
    {
        self.id.as_str()
    }
}

} // verus!
