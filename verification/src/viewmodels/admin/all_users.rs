use vstd::prelude::*;
use crate::repo::user_repo::records_of;
use crate::user::identity_user::IdentityUser;
use crate::user::identity_user::UserRecord;
use crate::viewmodels::auth::person_info::shows;
use crate::viewmodels::auth::person_info::PersonInfoViewModel;

verus! {

/// What is shown of a list of users.
pub struct AllNonAdminUsersViewModel {
    pub users: Vec<PersonInfoViewModel>,
}

/// `shown` shows the records `users`, one for one and in their order.
pub open spec fn shows_all(shown: Seq<PersonInfoViewModel>, users: Seq<UserRecord>) -> bool {
    shown.len() == users.len() && forall|i: int|
        0 <= i < users.len() ==> shows(#[trigger] shown[i]@, users[i])
}

impl AllNonAdminUsersViewModel {
    /// What is shown of `users`.
    pub fn from_users_vector(users: Vec<IdentityUser>) -> (r: Self)
        ensures
            shows_all(r.users@, records_of(users@)),
    {
        let n = users.len();
        let mut shown: Vec<PersonInfoViewModel> = Vec::new();
        let mut i: usize = 0;
        while i < n
            invariant
                n == users@.len(),
                i <= n,
                shown@.len() == i,
                forall|j: int| 0 <= j < i ==> shows(#[trigger] shown@[j]@, users@[j]@),
            decreases n - i,
        {
            shown.push(PersonInfoViewModel::from_identity_user(&users[i]));
            i += 1;
        }
        AllNonAdminUsersViewModel { users: shown }
    }
}

} // verus!
