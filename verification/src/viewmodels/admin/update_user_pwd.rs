use vstd::prelude::*;

verus! {

/// What the administrator sends to give a user a new password: the user's
/// id, and the password twice.
pub struct AdminChangePasswordUserViewModel {
    id_user: String,
    password: String,
    confirm_password: String,
}

impl AdminChangePasswordUserViewModel {
    /// The id of the user, as a value.
    pub closed spec fn id_user_text(&self) -> Seq<char> {
        self.id_user@
    }

    /// The new password, as a value.
    pub closed spec fn password_text(&self) -> Seq<char> {
        self.password@
    }

    /// The new password as typed a second time, as a value.
    pub closed spec fn confirm_password_text(&self) -> Seq<char> {
        self.confirm_password@
    }

    /// A request of these values.
    pub fn new(id_user: &str, password: &str, confirm_password: &str) -> (r: Self)
        ensures
            r.id_user_text() == id_user@,
            r.password_text() == password@,
            r.confirm_password_text() == confirm_password@,
    {
        Self { id_user: id_user.to_owned(), password: password.to_owned(), confirm_password: confirm_password.to_owned() }
    }

    /// The id of the user.
    pub fn get_id_user(&self) -> (r: &str)
        ensures
            r@ == self.id_user_text(),
    {
        self.id_user.as_str()
    }

    /// The new password.
    pub fn get_password(&self) -> (r: &str)
        ensures
            r@ == self.password_text(),
    {
        self.password.as_str()
    }

    /// The new password as typed a second time.
    pub fn get_confirm_password(&self) -> (r: &str)
        ensures
            r@ == self.confirm_password_text(),
    {
        self.confirm_password.as_str()
    }
}

} // verus!
