use vstd::prelude::*;

verus! {

/// What a user sends to delete the own account: the password, and whether
/// the deletion is confirmed.
pub struct DeleteUserViewModel {
    password: String,
    delete_confirmed: bool,
}

impl DeleteUserViewModel {
    /// The password, as a value.
    pub closed spec fn password_text(&self) -> Seq<char> {
        self.password@
    }

    /// Whether the deletion is confirmed, as a value.
    pub closed spec fn delete_confirmed_flag(&self) -> bool {
        self.delete_confirmed
    }

    /// A request of these values.
    pub fn new(password: &str, delete_confirmed: bool) -> (r: Self)
        ensures
            r.password_text() == password@,
            r.delete_confirmed_flag() == delete_confirmed,
    {
        Self { password: password.to_owned(), delete_confirmed }
    }

    /// The password.
    pub fn get_password(&self) -> (r: &str)
        ensures
            r@ == self.password_text(),
    {
        self.password.as_str()
    }

    /// Whether the deletion is confirmed.
    pub fn is_delete_confirmed(&self) -> (r: bool)
        ensures
            r == self.delete_confirmed_flag(),
    {
        self.delete_confirmed
    }
}

} // verus!
