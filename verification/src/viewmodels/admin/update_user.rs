use vstd::prelude::*;
use crate::util::option_text;

verus! {

/// What the administrator sends to change a user: the user's id, and
/// optionally a new address and a new display name.
pub struct AdminUpdateUserViewModel {
    user_id: String,
    pub new_email: Option<String>,
    pub new_user_name: Option<String>,
}

impl AdminUpdateUserViewModel {
    /// The id of the user to change, as a value.
    pub closed spec fn user_id_text(&self) -> Seq<char> {
        self.user_id@
    }

    /// The new address, if one is asked for, as a value.
    pub closed spec fn new_email_text(&self) -> Option<Seq<char>> {
        option_text(self.new_email)
    }

    /// The new display name, if one is asked for, as a value.
    pub closed spec fn new_user_name_text(&self) -> Option<Seq<char>> {
        option_text(self.new_user_name)
    }

    /// A request of these values.
    pub fn new(user_id: &str, new_email: Option<String>, new_user_name: Option<String>) -> (r: Self)
        ensures
            r.user_id_text() == user_id@,
            r.new_email_text() == option_text(new_email),
            r.new_user_name_text() == option_text(new_user_name),
    {
        Self { user_id: user_id.to_owned(), new_email, new_user_name }
    }

    /// The id of the user to change.
    pub fn get_user_id(&self) -> (r: &str)
        ensures
            r@ == self.user_id_text(),
    {
        self.user_id.as_str()
    }

    /// The new address, if one is asked for.
    pub fn get_new_email(&self) -> (r: Option<&str>)
        ensures
            match r {
                Some(s) => self.new_email_text() == Some(s@),
                None => self.new_email_text() is None,
            },
    {
        match &self.new_email {
            Some(s) => Some(s.as_str()),
            None => None,
        }
    }

    /// The new display name, if one is asked for.
    pub fn get_new_user_name(&self) -> (r: Option<&str>)
        ensures
            match r {
                Some(s) => self.new_user_name_text() == Some(s@),
                None => self.new_user_name_text() is None,
            },
    {
        match &self.new_user_name {
            Some(s) => Some(s.as_str()),
            None => None,
        }
    }
}

} // verus!
