use vstd::prelude::*;

verus! {

/// What a user sends to change the password: the new password twice.
pub struct ChangePasswordViewModel {
    password: String,
    confirm_password: String,
}

impl ChangePasswordViewModel {
    /// The new password, as a value.
    pub closed spec fn password_text(&self) -> Seq<char> {
        self.password@
    }

    /// The new password as typed a second time, as a value.
    pub closed spec fn confirm_password_text(&self) -> Seq<char> {
        self.confirm_password@
    }

    /// A request of these values.
    pub fn new(password: &str, confirm_password: &str) -> (r: Self)
        ensures
            r.password_text() == password@,
            r.confirm_password_text() == confirm_password@,
    {
        Self { password: password.to_owned(), confirm_password: confirm_password.to_owned() }
    }

    /// The new password.
    pub fn get_password(&self) -> (r: &str)
        ensures
            r@ == self.password_text(),
    {
        self.password.as_str()
    }

    /// The new password as typed a second time.
    pub fn get_confirm_password(&self) -> (r: &str)
        ensures
            r@ == self.confirm_password_text(),
    {
        self.confirm_password.as_str()
    }
}

} // verus!
