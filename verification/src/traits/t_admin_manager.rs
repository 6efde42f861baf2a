use vstd::prelude::*;
use crate::err::IdentityError;
use crate::traits::t_user::UserTrait;

verus! {

/// What a store of user records offers to the administrator.
pub trait AdminStoreTrait<T: UserTrait> {
    /// The number of records that are not the administrator's.
    fn get_amount_of_non_admin_users(&self) -> usize;

    /// Tells whether `id` is the reserved id.
    fn is_id_admin(&self, id: &str) -> bool;

    /// The administrator's record.
    fn get_admin(&self) -> Result<T, IdentityError>;

    /// The records that are not the administrator's.
    fn get_non_admin_users(&self) -> Vec<T>;
}

} // verus!
