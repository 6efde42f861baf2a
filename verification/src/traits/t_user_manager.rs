use vstd::prelude::*;
use crate::err::IdentityError;
use crate::traits::t_user::UserTrait;

verus! {

/// What a store of user records offers to those who register, look up, change
/// and delete users.
pub trait UserStoreTrait<T: UserTrait> {
    /// Sees to it that the administrator's record is there.
    fn setup(&mut self) -> Result<(), IdentityError>;

    /// Registers a user under the id `id`.
    fn create_user_with_personal_id(&mut self, id: &str, email: &str, pwd: &str) -> Result<
        T,
        IdentityError,
    >;

    /// Registers a user under a fresh random id.
    fn create_user(&mut self, email: &str, pwd: &str) -> Result<T, IdentityError>;

    /// Adds a ready-made record.
    fn add_user(&mut self, t: T) -> Result<T, IdentityError>;

    /// Tells whether a record has the address `email`.
    fn is_email_taken(&self, email: &str) -> bool;

    /// Tells whether a record has the id `id`.
    fn is_id_taken(&self, id: &str) -> bool;

    /// The first record with the address `email`.
    fn get_user_by_email(&self, email: &str) -> Option<T>;

    /// The record with the id `uuid`.
    fn get_user_by_uuid(&self, uuid: &str) -> Option<T>;

    /// Replaces what is stored under `id` by the values of `user`.
    fn update_user(&mut self, id: &str, user: &T) -> Result<bool, IdentityError>;

    /// Deletes the record under `id` and tells whether there was one.
    fn delete_user(&mut self, id: &str) -> Result<bool, IdentityError>;

    /// Checks `pwd` against the credential of the user with the address `email`.
    fn check_user_password(&self, email: &str, pwd: &str) -> Result<bool, IdentityError>;
}

} // verus!
