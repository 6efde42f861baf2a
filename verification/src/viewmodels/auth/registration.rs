use vstd::prelude::*;

verus! {

/// What a visitor sends to register: the address, and the password twice.
pub struct RegistrationViewModel {
    email: String,
    password: String,
    confirm_password: String,
}

impl RegistrationViewModel {
    /// The address, as a value.
    pub closed spec fn email_text(&self) -> Seq<char> {
        self.email@
    }

    /// The password, as a value.
    pub closed spec fn password_text(&self) -> Seq<char> {
        self.password@
    }

    /// The password as typed a second time, as a value.
    pub closed spec fn confirm_password_text(&self) -> Seq<char> {
        self.confirm_password@
    }

    /// A request of these values.
    pub fn new(email: &str, password: &str, confirm_password: &str) -> (r: Self)
        ensures
            r.email_text() == email@,
            r.password_text() == password@,
            r.confirm_password_text() == confirm_password@,
    {
        Self { email: email.to_owned(), password: password.to_owned(), confirm_password: confirm_password.to_owned() }
    }

    /// The address.
    pub fn get_email(&self) -> (r: &str)
        ensures
            r@ == self.email_text(),
    {
        self.email.as_str()
    }

    /// The password.
    pub fn get_password(&self) -> (r: &str)
        ensures
            r@ == self.password_text(),
    {
        self.password.as_str()
    }

    /// The password as typed a second time.
    pub fn get_confirmed_password(&self) -> (r: &str)
        ensures
            r@ == self.confirm_password_text(),
    {
        self.confirm_password.as_str()
    }
}

} // verus!
