use vstd::prelude::*;

verus! {

/// What a user sends who forgot the password: the recovery token, and the
/// new password twice.
pub struct ChangeForgottenPassword {
    token_forgotten_pwd: String,
    password: String,
    confirm_password: String,
}

impl ChangeForgottenPassword {
    /// The recovery token, as a value.
    pub closed spec fn token_forgotten_pwd_text(&self) -> Seq<char> {
        self.token_forgotten_pwd@
    }

    /// The new password, as a value.
    pub closed spec fn password_text(&self) -> Seq<char> {
        self.password@
    }

    /// The new password as typed a second time, as a value.
    pub closed spec fn confirm_password_text(&self) -> Seq<char> {
        self.confirm_password@
    }

    /// A request of these values.
    pub fn new(token_forgotten_pwd: &str, password: &str, confirm_password: &str) -> (r: Self)
        ensures
            r.token_forgotten_pwd_text() == token_forgotten_pwd@,
            r.password_text() == password@,
            r.confirm_password_text() == confirm_password@,
    {
        Self { token_forgotten_pwd: token_forgotten_pwd.to_owned(), password: password.to_owned(), confirm_password: confirm_password.to_owned() }
    }

    /// The recovery token.
    pub fn get_token_forgotten_pwd(&self) -> (r: &str)
        ensures
            r@ == self.token_forgotten_pwd_text(),
    {
        self.token_forgotten_pwd.as_str()
    }

    /// The new password.
    pub fn get_password(&self) -> (r: &str)
        ensures
            r@ == self.password_text(),
    {
        self.password.as_str()
    }

    /// The new password as typed a second time.
    pub fn get_confirm_password(&self) -> (r: &str)
        ensures
            r@ == self.confirm_password_text(),
    {
        self.confirm_password.as_str()
    }
}

} // verus!
