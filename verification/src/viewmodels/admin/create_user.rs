use vstd::prelude::*;

verus! {

/// What the administrator sends to create a user: the user's address, and
/// the password twice.
pub struct AdminCreateUserViewModel {
    email_user: String,
    password: String,
    confirm_password: String,
}

impl AdminCreateUserViewModel {
    /// The address of the user to create, as a value.
    pub closed spec fn email_user_text(&self) -> Seq<char> {
        self.email_user@
    }

    /// The password, as a value.
    pub closed spec fn password_text(&self) -> Seq<char> {
        self.password@
    }

    /// The password as typed a second time, as a value.
    pub closed spec fn confirm_password_text(&self) -> Seq<char> {
        self.confirm_password@
    }

    /// A request of these values.
    pub fn new(email_user: &str, password: &str, confirm_password: &str) -> (r: Self)
        ensures
            r.email_user_text() == email_user@,
            r.password_text() == password@,
            r.confirm_password_text() == confirm_password@,
    {
        Self { email_user: email_user.to_owned(), password: password.to_owned(), confirm_password: confirm_password.to_owned() }
    }

    /// The address of the user to create.
    pub fn get_email(&self) -> (r: &str)
        ensures
            r@ == self.email_user_text(),
    {
        self.email_user.as_str()
    }

    /// The password.
    pub fn get_password(&self) -> (r: &str)
        ensures
            r@ == self.password_text(),
    {
        self.password.as_str()
    }

    /// The password as typed a second time.
    pub fn get_confirmed_password(&self) -> (r: &str)
        ensures
            r@ == self.confirm_password_text(),
    {
        self.confirm_password.as_str()
    }
}

} // verus!
