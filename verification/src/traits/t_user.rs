use vstd::prelude::*;
use crate::err::IdentityError;
use crate::flag_set::FlagSet;
use crate::user::identity_user::IdentityUser;

verus! {

/// What a user record offers: its constructors, its fields, and the
/// operations on its credential and its flags.
pub trait UserTrait {
    /// The administrator's record.
    fn admin() -> Result<IdentityUser, IdentityError>;

    /// A new user under a fresh random id.
    fn new_user(email: &str, user_name: &str, pwd: &str) -> Result<IdentityUser, IdentityError>;

    /// A new user under the id `id`.
    fn new_user_with_personal_id(id: &str, email: &str, user_name: &str, pwd: &str) -> Result<
        IdentityUser,
        IdentityError,
    >;

    /// Gives the user a new password under a fresh salt.
    fn set_password(&mut self, new_pwd: &str) -> Result<(), IdentityError>;

    /// Tells whether `pwd` is the user's password.
    fn check_pwd(&self, pwd: &str) -> bool;

    /// Replaces the display name.
    fn set_user_name(&mut self, new_user_name: &str);

    /// The id.
    fn get_id(&self) -> &str;

    /// The email address.
    fn get_email(&self) -> &str;

    /// The hash of the password.
    fn get_hashed_password(&self) -> &str;

    /// The salt under which the password was hashed.
    fn get_security_stamp(&self) -> &str;

    /// Gives the user another address and tells whether that changed anything.
    fn set_email(&mut self, new_email: &str) -> Result<bool, IdentityError>;

    /// The display name.
    fn get_user_name(&self) -> &str;

    /// Replaces the hash of the password.
    fn set_hashed_password(&mut self, hashed_password: &str);

    /// Replaces the salt.
    fn set_security_stamp(&mut self, security_stamp: &str);

    /// A copy of the user's flags.
    fn get_flags(&self) -> FlagSet;

    /// The user's flags as a list.
    fn get_flag_list(&self) -> Vec<String>;

    /// Replaces the flags.
    fn set_flags(&mut self, flags: FlagSet);

    /// Gives the user a flag and tells whether it was new.
    fn add_flag(&mut self, flag: &str) -> bool;

    /// Takes a flag from the user and tells whether the user had it.
    fn remove_flag(&mut self, flag: &str) -> bool;
}

} // verus!
