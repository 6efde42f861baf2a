use vstd::prelude::*;

verus! {

/// What a user sends to log in: address and password.
pub struct LoginViewModel {
    email: String,
    password: String,
}

impl LoginViewModel {
    /// The address, as a value.
    pub closed spec fn email_text(&self) -> Seq<char> {
        self.email@
    }

    /// The password, as a value.
    pub closed spec fn password_text(&self) -> Seq<char> {
        self.password@
    }

    /// A request of these values.
    pub fn new(email: &str, password: &str) -> (r: Self)
        ensures
            r.email_text() == email@,
            r.password_text() == password@,
    {
        Self { email: email.to_owned(), password: password.to_owned() }
    }

    /// The address.
    pub fn get_email(&self) -> (r: &str)
        ensures
            r@ == self.email_text(),
    {
        self.email.as_str()
    }

    /// The password.
    pub fn get_password(&self) -> (r: &str)
        ensures
            r@ == self.password_text(),
    {
        self.password.as_str()
    }
}

} // verus!
