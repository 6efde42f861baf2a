use vstd::prelude::*;
use crate::flag_set::texts;
use crate::text_order::ascending;
use crate::traits::t_user::UserTrait;
use crate::user::identity_user::IdentityUser;
use crate::user::identity_user::UserRecord;
use crate::user::identity_user::RESERVED_ID;
use crate::util::same_text;

verus! {

/// What is shown of a user: id, address, display name, whether it is the
/// administrator, and the flags. The credential is left out.
pub struct PersonInfoViewModel {
    id: String,
    email: String,
    user_name: String,
    is_admin: bool,
    flags: Vec<String>,
}

/// What is shown of a user, as a value.
pub struct PersonInfo {
    pub id: Seq<char>,
    pub email: Seq<char>,
    pub user_name: Seq<char>,
    pub is_admin: bool,
    pub flags: Seq<Seq<char>>,
}

/// What is shown of the record `u` has its id, address and display name,
/// says whether the id is the reserved one, and lists each flag once, in the
/// order of the dictionary.
pub open spec fn shows(info: PersonInfo, u: UserRecord) -> bool {
    &&& info.id == u.id
    &&& info.email == u.email
    &&& info.user_name == u.user_name
    &&& info.is_admin == (u.id == RESERVED_ID@)
    &&& ascending(info.flags)
    &&& info.flags.no_duplicates()
    &&& info.flags.to_set() == u.flags
}

impl View for PersonInfoViewModel {
    type V = PersonInfo;

    closed spec fn view(&self) -> PersonInfo {
        PersonInfo {
            id: self.id@,
            email: self.email@,
            user_name: self.user_name@,
            is_admin: self.is_admin,
            flags: texts(self.flags@),
        }
    }
}

impl PersonInfoViewModel {
    /// What is shown of `user`.
    pub fn from_identity_user(user: &IdentityUser) -> (r: Self)
        ensures
            shows(r@, user@),
    {
        PersonInfoViewModel {
            id: user.get_id().to_owned(),
            email: user.get_email().to_owned(),
            user_name: user.get_user_name().to_owned(),
            is_admin: same_text(user.get_id(), RESERVED_ID),
            flags: user.get_flag_list(),
        }
    }

    /// The id.
    pub fn get_id(&self) -> (r: &str)
        ensures
            r@ == self@.id,
    {
        self.id.as_str()
    }

    /// The address.
    pub fn get_email(&self) -> (r: &str)
        ensures
            r@ == self@.email,
    {
        self.email.as_str()
    }

    /// The display name.
    pub fn get_user_name(&self) -> (r: &str)
        ensures
            r@ == self@.user_name,
    {
        self.user_name.as_str()
    }

    /// Whether the user is the administrator.
    pub fn is_admin(&self) -> (r: bool)
        ensures
            r == self@.is_admin,
    {
        self.is_admin
    }

    /// The flags.
    pub fn get_flags(&self) -> (r: &Vec<String>)
        ensures
            texts(r@) == self@.flags,
    {
        &self.flags
    }
}

} // verus!
