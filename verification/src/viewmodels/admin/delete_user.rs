use vstd::prelude::*;

verus! {

/// What the administrator sends to delete a user: the user's id.
pub struct DeleteUserViewModel {
    user_id: String,
}

impl DeleteUserViewModel {
    /// The id of the user to delete, as a value.
    pub closed spec fn user_id_text(&self) -> Seq<char> {
        self.user_id@
    }

    /// A request of these values.
    pub fn new(user_id: &str) -> (r: Self)
        ensures
            r.user_id_text() == user_id@,
    {
        Self { user_id: user_id.to_owned() }
    }

    /// The id of the user to delete.
    pub fn get_user_id(&self) -> (r: &str)
        ensures
            r@ == self.user_id_text(),
    {
        self.user_id.as_str()
    }
}

} // verus!
