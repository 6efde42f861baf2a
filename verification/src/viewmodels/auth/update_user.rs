use vstd::prelude::*;
use crate::util::option_text;

verus! {

/// What a user sends to change the own record: optionally a new address and
/// a new display name.
pub struct UpdateUserViewModel {
    pub new_email: Option<String>,
    pub new_user_name: Option<String>,
}

impl UpdateUserViewModel {
    /// The new address, if one is asked for, as a value.
    pub closed spec fn new_email_text(&self) -> Option<Seq<char>> {
        option_text(self.new_email)
    }

    /// The new display name, if one is asked for, as a value.
    pub closed spec fn new_user_name_text(&self) -> Option<Seq<char>> {
        option_text(self.new_user_name)
    }

    /// A request of these values.
    pub fn new(new_email: Option<String>, new_user_name: Option<String>) -> (r: Self)
        ensures
            r.new_email_text() == option_text(new_email),
            r.new_user_name_text() == option_text(new_user_name),
    {
        Self { new_email, new_user_name }
    }

    /// The new address, if one is asked for.
    pub fn get_new_email(&self) -> (r: Option<&str>)
        ensures
            match r {
                Some(s) => self.new_email_text() == Some(s@),
                None => self.new_email_text() is None,
            },
    {
        match &self.new_email {
            Some(s) => Some(s.as_str()),
            None => None,
        }
    }

    /// The new display name, if one is asked for.
    pub fn get_new_user_name(&self) -> (r: Option<&str>)
        ensures
            match r {
                Some(s) => self.new_user_name_text() == Some(s@),
                None => self.new_user_name_text() is None,
            },
    {
        match &self.new_user_name {
            Some(s) => Some(s.as_str()),
            None => None,
        }
    }
}

} // verus!
