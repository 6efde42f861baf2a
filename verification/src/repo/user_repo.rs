use vstd::prelude::*;
use crate::credential::hashed_from;
use crate::credential::password_matches;
use crate::err::IdentityError;
use crate::repo::user_config::UserConfig;
use crate::traits::t_admin_manager::AdminStoreTrait;
use crate::traits::t_user::UserTrait;
use crate::traits::t_user_manager::UserStoreTrait;
use crate::user::identity_user::built;
use crate::user::identity_user::email_change;
use crate::user::identity_user::is_generated_id;
use crate::user::identity_user::is_salt;
use crate::user::identity_user::password_fits;
use crate::user::identity_user::user_result;
use crate::user::identity_user::IdentityUser;
use crate::user::identity_user::UserRecord;
use crate::user::identity_user::ADMIN_EMAIL;
use crate::user::identity_user::RESERVED_ID;
use crate::text_order::ascending;
use crate::text_order::compare_text;
use crate::text_order::is_place;
use crate::text_order::lemma_ascending_distinct;
use crate::text_order::lemma_insert_ascending;
use crate::text_order::lemma_place;
use crate::text_order::lemma_place_absent;
use crate::text_order::lemma_place_new;
use crate::text_order::lemma_remove_ascending;
use crate::text_order::place_of;
use crate::text_order::text_lt;
use crate::text_order::Order;
use crate::util::control_email;
use crate::util::email_format_ok;
use crate::util::same_text;

verus! {

/// The ids of the records, in the records' order.
pub open spec fn ids(s: Seq<UserRecord>) -> Seq<Seq<char>> {
    Seq::new(s.len(), |i: int| s[i].id)
}

/// The email addresses of the records, in the records' order.
pub open spec fn emails(s: Seq<UserRecord>) -> Seq<Seq<char>> {
    Seq::new(s.len(), |i: int| s[i].email)
}

/// Some record has the id `id`.
pub open spec fn has_id(s: Seq<UserRecord>, id: Seq<char>) -> bool {
    ids(s).contains(id)
}

/// Some record has the address `email`.
pub open spec fn has_email(s: Seq<UserRecord>, email: Seq<char>) -> bool {
    emails(s).contains(email)
}

/// No two records share an id.
pub open spec fn ids_distinct(s: Seq<UserRecord>) -> bool {
    ids(s).no_duplicates()
}

/// No two records share an email address.
pub open spec fn emails_distinct(s: Seq<UserRecord>) -> bool {
    emails(s).no_duplicates()
}

/// Every record's email address has the format of one.
pub open spec fn emails_valid(s: Seq<UserRecord>) -> bool {
    forall|i: int| 0 <= i < s.len() ==> email_format_ok(#[trigger] s[i].email)
}

/// What holds of the records of every store: they stand in the order of
/// their ids, so that no two share an id, and every address has the format.
pub open spec fn well_formed(s: Seq<UserRecord>) -> bool {
    ascending(ids(s)) && emails_valid(s)
}

/// The records with `u` among them, at the place of its id in the order.
pub open spec fn placed(s: Seq<UserRecord>, u: UserRecord) -> Seq<UserRecord> {
    s.insert(place_of(ids(s), u.id), u)
}

/// The first record with the id `id`.
pub open spec fn found_by_id(s: Seq<UserRecord>, id: Seq<char>) -> Option<UserRecord> {
    match ids(s).index_of_first(id) {
        Some(i) => Some(s[i]),
        None => None,
    }
}

/// The first record with the address `email`.
pub open spec fn found_by_email(s: Seq<UserRecord>, email: Seq<char>) -> Option<UserRecord> {
    match emails(s).index_of_first(email) {
        Some(i) => Some(s[i]),
        None => None,
    }
}

/// The record is not the administrator's.
pub open spec fn is_ordinary(u: UserRecord) -> bool {
    u.id != RESERVED_ID@
}

/// The records but the administrator's, in their order.
pub open spec fn non_admin(s: Seq<UserRecord>) -> Seq<UserRecord> {
    s.filter(|u: UserRecord| is_ordinary(u))
}

/// How many records have the reserved id.
pub open spec fn admin_count(s: Seq<UserRecord>) -> nat {
    ids(s).to_multiset().count(RESERVED_ID@)
}

/// Why a ready-made record cannot be added, if it cannot. The id is looked
/// up before the address is.
pub open spec fn add_refusal(s: Seq<UserRecord>, u: UserRecord) -> Option<IdentityError> {
    if u.email.len() == 0 && u.hashed_password.len() == 0 && u.security_stamp.len() == 0 {
        Some(IdentityError::EmailAndPasswordIsEmpty)
    } else if has_id(s, u.id) {
        Some(IdentityError::IdIsAlreadyTaken)
    } else if !email_format_ok(u.email) {
        Some(IdentityError::EmailNotCorrectFormat)
    } else if has_email(s, u.email) {
        Some(IdentityError::EmailIsAlreadyTaken)
    } else {
        None
    }
}

/// Why no user can be registered with this address and password, whatever
/// the id, if none can.
pub open spec fn registration_refusal(s: Seq<UserRecord>, email: Seq<char>, pwd: Seq<char>) -> Option<
    IdentityError,
> {
    if email.len() == 0 && pwd.len() == 0 {
        Some(IdentityError::EmailAndPasswordIsEmpty)
    } else if !email_format_ok(email) {
        Some(IdentityError::EmailNotCorrectFormat)
    } else if has_email(s, email) {
        Some(IdentityError::EmailIsAlreadyTaken)
    } else if pwd.len() == 0 {
        Some(IdentityError::PasswordIsEmpty)
    } else if !password_fits(pwd) {
        Some(IdentityError::PasswordCannotBeMade)
    } else {
        None
    }
}

/// Why no user can be registered under the id `id` with this address and
/// password, if none can. The id is looked up last.
pub open spec fn create_refusal(
    s: Seq<UserRecord>,
    id: Seq<char>,
    email: Seq<char>,
    pwd: Seq<char>,
) -> Option<IdentityError> {
    match registration_refusal(s, email, pwd) {
        Some(e) => Some(e),
        None => if has_id(s, id) {
            Some(IdentityError::IdIsAlreadyTaken)
        } else {
            None
        },
    }
}

/// `u` is a record that registration makes for this id, address and
/// password: no display name, no flags, and the password hashed under the
/// record's own salt.
pub open spec fn registered(u: UserRecord, id: Seq<char>, email: Seq<char>, pwd: Seq<char>) -> bool {
    is_salt(u.security_stamp) && Ok::<UserRecord, IdentityError>(u) == built(
        id,
        email,
        Seq::<char>::empty(),
        pwd,
        u.security_stamp,
    )
}

/// `u` is an administrator's record as bootstrap makes it.
pub open spec fn is_admin_record(u: UserRecord) -> bool {
    registered(u, RESERVED_ID@, ADMIN_EMAIL@, RESERVED_ID@)
}

/// What bootstrap makes of the records `before`, where it succeeds: nothing
/// new where an administrator is there, else the same records and a fresh
/// administrator's record among them.
pub open spec fn after_setup(before: Seq<UserRecord>, after: Seq<UserRecord>) -> bool {
    if has_id(before, RESERVED_ID@) {
        after == before
    } else {
        !has_email(before, ADMIN_EMAIL@) && exists|admin: UserRecord|
            is_admin_record(admin) && after == #[trigger] placed(before, admin)
    }
}

/// What an update of the record `cur` with the values of `patch` stores:
/// the values of `patch` under the id of `cur`.
pub open spec fn patched(cur: UserRecord, patch: UserRecord) -> UserRecord {
    UserRecord { id: cur.id, ..patch }
}

/// What the update of the record under `id` answers.
pub open spec fn update_answer(s: Seq<UserRecord>, id: Seq<char>, patch: UserRecord) -> Result<
    bool,
    IdentityError,
> {
    match found_by_id(s, id) {
        None => Err(IdentityError::UserIsNotPresent),
        Some(cur) => match email_change(cur.email, patch.email) {
            Err(e) => Err(e),
            Ok(_) => Ok(true),
        },
    }
}

/// The records after the update of the record under `id`.
pub open spec fn updated(s: Seq<UserRecord>, id: Seq<char>, patch: UserRecord) -> Seq<UserRecord> {
    match ids(s).index_of_first(id) {
        Some(i) => if update_answer(s, id, patch) is Ok {
            s.update(i, patched(s[i], patch))
        } else {
            s
        },
        None => s,
    }
}

/// What the deletion of the record under `id` answers.
pub open spec fn delete_answer(s: Seq<UserRecord>, id: Seq<char>) -> Result<bool, IdentityError> {
    if id.len() == 0 {
        Err(IdentityError::IdIsAlreadyTaken)
    } else if id == RESERVED_ID@ {
        Err(IdentityError::IdEqualsAdmin)
    } else {
        Ok(has_id(s, id))
    }
}

/// The records after the deletion of the record under `id`.
pub open spec fn deleted(s: Seq<UserRecord>, id: Seq<char>) -> Seq<UserRecord> {
    match ids(s).index_of_first(id) {
        Some(i) => if delete_answer(s, id) is Ok {
            s.remove(i)
        } else {
            s
        },
        None => s,
    }
}

/// What a check of `pwd` against the user with the address `email` answers.
pub open spec fn password_check(s: Seq<UserRecord>, email: Seq<char>, pwd: Seq<char>) -> Result<
    bool,
    IdentityError,
> {
    if pwd.len() == 0 {
        Err(IdentityError::PasswordIsEmpty)
    } else if !email_format_ok(email) {
        Err(IdentityError::EmailNotCorrectFormat)
    } else {
        match found_by_email(s, email) {
            None => Err(IdentityError::UserIsNotPresent),
            Some(u) => Ok(password_matches(u.hashed_password, pwd)),
        }
    }
}

/// The user with the address `email` has a credential that was made of the
/// password `pwd`.
pub open spec fn holds_password(s: Seq<UserRecord>, email: Seq<char>, pwd: Seq<char>) -> bool {
    match found_by_email(s, email) {
        Some(u) => hashed_from(u.hashed_password, pwd),
        None => false,
    }
}

/// An optional user seen as a value.
pub open spec fn user_option(r: Option<IdentityUser>) -> Option<UserRecord> {
    match r {
        Some(u) => Some(u@),
        None => None,
    }
}

/// The users of a list seen as values.
pub open spec fn records_of(v: Seq<IdentityUser>) -> Seq<UserRecord> {
    Seq::new(v.len(), |i: int| v[i]@)
}

/// The store of user records: the records in the order of their ids, no two
/// of them under one id, each with an address that has the format. Whether
/// an address is taken is found out by looking through the records one by
/// one.
pub struct UserStore {
    users: Vec<IdentityUser>,
}

impl View for UserStore {
    type V = Seq<UserRecord>;

    closed spec fn view(&self) -> Seq<UserRecord> {
        records_of(self.users@)
    }
}

impl UserStore {
    #[verifier::type_invariant]
    closed spec fn records_well_formed(&self) -> bool {
        well_formed(records_of(self.users@))
    }

    /// A store without records.
    pub fn new() -> (r: UserStore)
        ensures
            r@ == Seq::<UserRecord>::empty(),
    {
        UserStore { users: Vec::new() }
    }

    /// Does nothing; it is there for what it states: the records of a store
    /// stand in the order of their ids, and every address has the format.
    pub fn holds_well_formed(&self)
        ensures
            well_formed(self@),
    {
        proof {
            use_type_invariant(self);
        }
    }

    /// The store for the configuration `config`, without records yet. What
    /// a database under the configured path holds is for the caller to read
    /// and to add.
    pub fn new_db(config: UserConfig) -> (r: UserStore)
        ensures
            r@ == Seq::<UserRecord>::empty(),
    {
        UserStore::new()
    }

    /// The number of records.
    pub fn len(&self) -> (r: usize)
        ensures
            r == self@.len(),
    {
        self.users.len()
    }

    /// Copies of all records, in the store's order.
    pub fn records(&self) -> (r: Vec<IdentityUser>)
        ensures
            records_of(r@) == self@,
    {
        let n = self.users.len();
        let mut out: Vec<IdentityUser> = Vec::new();
        let mut i: usize = 0;
        while i < n
            invariant
                n == self.users@.len(),
                i <= n,
                out@.len() == i,
                forall|j: int| 0 <= j < i ==> out@[j]@ == self.users@[j]@,
            decreases n - i,
        {
            out.push(self.users[i].clone());
            i += 1;
        }
        out
    }

    /// Where the first record with the id `id` stands.
    fn position_by_id(&self, id: &str) -> (r: Option<usize>)
        ensures
            match r {
                Some(i) => ids(self@).index_of_first(id@) == Some(i as int) && i < self@.len(),
                None => ids(self@).index_of_first(id@) is None,
            },
            r is Some == has_id(self@, id@),
    {
        let n = self.users.len();
        let mut i: usize = 0;
        while i < n
            invariant
                n == self.users@.len(),
                i <= n,
                forall|j: int| 0 <= j < i ==> ids(self@)[j] != id@,
            decreases n - i,
        {
            if same_text(self.users[i].get_id(), id) {
                proof {
                    assert(ids(self@)[i as int] == id@);
                    ids(self@).index_of_first_ensures(id@);
                }
                return Some(i);
            }
            i += 1;
        }
        proof {
            ids(self@).index_of_first_ensures(id@);
        }
        None
    }

    /// Where the first record with the address `email` stands.
    fn position_by_email(&self, email: &str) -> (r: Option<usize>)
        ensures
            match r {
                Some(i) => emails(self@).index_of_first(email@) == Some(i as int) && i < self@.len(),
                None => emails(self@).index_of_first(email@) is None,
            },
            r is Some == has_email(self@, email@),
    {
        let n = self.users.len();
        let mut i: usize = 0;
        while i < n
            invariant
                n == self.users@.len(),
                i <= n,
                forall|j: int| 0 <= j < i ==> emails(self@)[j] != email@,
            decreases n - i,
        {
            if same_text(self.users[i].get_email(), email) {
                proof {
                    assert(emails(self@)[i as int] == email@);
                    emails(self@).index_of_first_ensures(email@);
                }
                return Some(i);
            }
            i += 1;
        }
        proof {
            emails(self@).index_of_first_ensures(email@);
        }
        None
    }

    /// The place among the records of an id that no record has.
    fn place_for(&self, id: &str) -> (r: usize)
        requires
            !has_id(self@, id@),
        ensures
            r == place_of(ids(self@), id@),
            is_place(ids(self@), id@, r as int),
            r < self@.len() ==> text_lt(id@, ids(self@)[r as int]),
    {
        proof {
            use_type_invariant(self);
        }
        let ghost keys = ids(self@);
        let n = self.users.len();
        let mut i: usize = 0;
        while i < n
            invariant
                n == self.users@.len(),
                keys == ids(self@),
                ascending(keys),
                !keys.contains(id@),
                i <= n,
                forall|j: int| 0 <= j < i ==> text_lt(#[trigger] keys[j], id@),
            decreases n - i,
        {
            match compare_text(self.users[i].get_id(), id) {
                Order::After => {
                    proof {
                        lemma_place_absent(keys, id@, i as int);
                        lemma_place(keys, id@, i as int);
                    }
                    return i;
                },
                _ => {
                    i += 1;
                },
            }
        }
        proof {
            lemma_place_absent(keys, id@, i as int);
            lemma_place(keys, id@, i as int);
        }
        i
    }

    /// Puts a record whose id no record has at its place among the others.
    fn put(&mut self, user: IdentityUser)
        requires
            !has_id(old(self)@, user@.id),
            email_format_ok(user@.email),
        ensures
            final(self)@ == placed(old(self)@, user@),
    {
        proof {
            use_type_invariant(&*self);
        }
        let ghost before = self@;
        let i = self.place_for(user.get_id());
        proof {
            lemma_insert_ascending(ids(before), user@.id, i as int);
        }
        let mut users: Vec<IdentityUser> = Vec::new();
        core::mem::swap(&mut users, &mut self.users);
        users.insert(i, user);
        proof {
            assert(records_of(users@) =~= before.insert(i as int, user@));
            assert(ids(before.insert(i as int, user@)) =~= ids(before).insert(i as int, user@.id));
        }
        self.users = users;
    }
}

/// Records that stand in the order of their ids have distinct ids.
pub proof fn lemma_well_formed_distinct(s: Seq<UserRecord>)
    requires
        well_formed(s),
    ensures
        ids_distinct(s),
{
    lemma_ascending_distinct(ids(s));
}

/// A record whose id and address are new, put at its place, leaves the
/// records in order, and the addresses distinct where they were.
pub proof fn lemma_placed(s: Seq<UserRecord>, u: UserRecord)
    requires
        well_formed(s),
        !has_id(s, u.id),
        email_format_ok(u.email),
    ensures
        well_formed(placed(s, u)),
        ids(placed(s, u)) == ids(s).insert(place_of(ids(s), u.id), u.id),
        emails(placed(s, u)) == emails(s).insert(place_of(ids(s), u.id), u.email),
        0 <= place_of(ids(s), u.id) <= s.len(),
        emails_distinct(s) && !has_email(s, u.email) ==> emails_distinct(placed(s, u)),
{
    lemma_place_new(ids(s), u.id);
    let p = place_of(ids(s), u.id);
    let t = placed(s, u);
    assert(ids(t) =~= ids(s).insert(p, u.id));
    assert(emails(t) =~= emails(s).insert(p, u.email));
    assert forall|i: int| 0 <= i < t.len() implies email_format_ok(#[trigger] t[i].email) by {
        if i < p {
            assert(t[i] == s[i]);
        } else if i > p {
            assert(t[i] == s[i - 1]);
        }
    }
    if emails_distinct(s) && !has_email(s, u.email) {
        let e = emails(s);
        let f = e.insert(p, u.email);
        assert forall|i: int, j: int| 0 <= i < f.len() && 0 <= j < f.len() && i != j implies f[i]
            != f[j] by {
            let si = if i < p {
                i
            } else {
                i - 1
            };
            let sj = if j < p {
                j
            } else {
                j - 1
            };
            if i == p {
                assert(f[j] == e[sj]);
            } else if j == p {
                assert(f[i] == e[si]);
            } else {
                assert(f[i] == e[si] && f[j] == e[sj]);
            }
        }
    }
}

/// Among records with distinct ids, the reserved id is the id of one record
/// or of none.
pub proof fn lemma_admin_count(s: Seq<UserRecord>)
    requires
        ids_distinct(s),
    ensures
        admin_count(s) == if has_id(s, RESERVED_ID@) {
            1nat
        } else {
            0nat
        },
{
    ids(s).lemma_multiset_has_no_duplicates();
    vstd::seq_lib::to_multiset_contains(ids(s), RESERVED_ID@);
}

impl UserStoreTrait<IdentityUser> for UserStore {
    /// Tells whether a record has the id `id`.
    fn is_id_taken(&self, id: &str) -> (r: bool)
        ensures
            r == has_id(self@, id@),
    {
        self.position_by_id(id).is_some()
    }

    /// Tells whether a record has the address `email`. The records are looked
    /// through one by one.
    fn is_email_taken(&self, email: &str) -> (r: bool)
        ensures
            r == has_email(self@, email@),
    {
        self.position_by_email(email).is_some()
    }

    /// The record with the id `uuid`, if there is one.
    fn get_user_by_uuid(&self, uuid: &str) -> (r: Option<IdentityUser>)
        ensures
            user_option(r) == found_by_id(self@, uuid@),
    {
        match self.position_by_id(uuid) {
            Some(i) => Some(self.users[i].clone()),
            None => None,
        }
    }

    /// The first record with the address `email`, if there is one.
    fn get_user_by_email(&self, email: &str) -> (r: Option<IdentityUser>)
        ensures
            user_option(r) == found_by_email(self@, email@),
    {
        match self.position_by_email(email) {
            Some(i) => Some(self.users[i].clone()),
            None => None,
        }
    }

    /// Adds a ready-made record and hands it back. A record without address
    /// and credential, one whose id or address is taken, and one whose
    /// address has not the format are refused, and the store stays as it is.
    fn add_user(&mut self, user: IdentityUser) -> (r: Result<IdentityUser, IdentityError>)
        ensures
            match add_refusal(old(self)@, user@) {
                Some(e) => user_result(r) == Err::<UserRecord, IdentityError>(e) && final(self)@
                    == old(self)@,
                None => user_result(r) == Ok::<UserRecord, IdentityError>(user@) && final(self)@
                    == placed(old(self)@, user@),
            },
            emails_distinct(old(self)@) ==> emails_distinct(final(self)@),
    {
        if user.get_email().is_empty() && user.is_pwd_empty() {
            return Err(IdentityError::EmailAndPasswordIsEmpty);
        }
        if self.is_id_taken(user.get_id()) {
            return Err(IdentityError::IdIsAlreadyTaken);
        }
        if !control_email(user.get_email()) {
            return Err(IdentityError::EmailNotCorrectFormat);
        }
        if self.is_email_taken(user.get_email()) {
            return Err(IdentityError::EmailIsAlreadyTaken);
        }
        let stored = user.clone();
        proof {
            use_type_invariant(&*self);
            lemma_placed(self@, user@);
        }
        self.put(stored);
        Ok(user)
    }

    /// Registers a user under the id `id` and hands the new record back.
    /// Where registration is refused the store stays as it is.
    fn create_user_with_personal_id(&mut self, id: &str, email: &str, pwd: &str) -> (r: Result<
        IdentityUser,
        IdentityError,
    >)
        ensures
            match create_refusal(old(self)@, id@, email@, pwd@) {
                Some(e) => user_result(r) == Err::<UserRecord, IdentityError>(e) && final(self)@
                    == old(self)@,
                None => r matches Ok(u) && registered(u@, id@, email@, pwd@) && final(self)@
                    == placed(old(self)@, u@),
            },
            emails_distinct(old(self)@) ==> emails_distinct(final(self)@),
    {
        if email.is_empty() && pwd.is_empty() {
            return Err(IdentityError::EmailAndPasswordIsEmpty);
        }
        if !control_email(email) {
            return Err(IdentityError::EmailNotCorrectFormat);
        }
        if self.is_email_taken(email) {
            return Err(IdentityError::EmailIsAlreadyTaken);
        }
        proof {
            reveal_strlit("");
            assert(""@ =~= Seq::<char>::empty());
        }
        let user = match IdentityUser::new_user_with_personal_id(id, email, "", pwd) {
            Ok(user) => user,
            Err(e) => {
                return Err(e);
            },
        };
        if self.is_id_taken(user.get_id()) {
            return Err(IdentityError::IdIsAlreadyTaken);
        }
        let stored = user.clone();
        proof {
            use_type_invariant(&*self);
            lemma_placed(self@, user@);
        }
        self.put(stored);
        Ok(user)
    }

    /// Registers a user under a fresh random id and hands the new record
    /// back. Where registration is refused the store stays as it is. The id
    /// is drawn before it is looked up, so registration can fail on an id
    /// that is taken; it cannot where no record has an id of the drawn kind.
    fn create_user(&mut self, email: &str, pwd: &str) -> (r: Result<IdentityUser, IdentityError>)
        ensures
            match registration_refusal(old(self)@, email@, pwd@) {
                Some(e) => user_result(r) == Err::<UserRecord, IdentityError>(e) && final(self)@
                    == old(self)@,
                None => match r {
                    Ok(u) => is_generated_id(u@.id) && !has_id(old(self)@, u@.id) && registered(
                        u@,
                        u@.id,
                        email@,
                        pwd@,
                    ) && final(self)@ == placed(old(self)@, u@),
                    Err(e) => e == IdentityError::IdIsAlreadyTaken && final(self)@ == old(self)@
                        && exists|id: Seq<char>| is_generated_id(id) && #[trigger] has_id(
                        old(self)@,
                        id,
                    ),
                },
            },
            emails_distinct(old(self)@) ==> emails_distinct(final(self)@),
    {
        if email.is_empty() && pwd.is_empty() {
            return Err(IdentityError::EmailAndPasswordIsEmpty);
        }
        if !control_email(email) {
            return Err(IdentityError::EmailNotCorrectFormat);
        }
        if self.is_email_taken(email) {
            return Err(IdentityError::EmailIsAlreadyTaken);
        }
        proof {
            reveal_strlit("");
            assert(""@ =~= Seq::<char>::empty());
        }
        let user = match IdentityUser::new_user(email, "", pwd) {
            Ok(user) => user,
            Err(e) => {
                return Err(e);
            },
        };
        if self.is_id_taken(user.get_id()) {
            return Err(IdentityError::IdIsAlreadyTaken);
        }
        let stored = user.clone();
        proof {
            use_type_invariant(&*self);
            lemma_placed(self@, user@);
        }
        self.put(stored);
        Ok(user)
    }

    /// Replaces what is stored under `id` by the values of `user`: address,
    /// display name, credential and flags; the id stays. An address that is
    /// empty, or that is new to the record and has not the format, is
    /// refused. Whether another record has the address is not looked up.
    fn update_user(&mut self, id: &str, user: &IdentityUser) -> (r: Result<bool, IdentityError>)
        ensures
            r == update_answer(old(self)@, id@, user@),
            final(self)@ == updated(old(self)@, id@, user@),
    {
        proof {
            use_type_invariant(&*self);
        }
        let i = match self.position_by_id(id) {
            Some(i) => i,
            None => {
                return Err(IdentityError::UserIsNotPresent);
            },
        };
        let mut record = self.users[i].clone();
        match record.set_email(user.get_email()) {
            Ok(_) => {},
            Err(e) => {
                return Err(e);
            },
        }
        record.set_user_name(user.get_user_name());
        record.set_hashed_password(user.get_hashed_password());
        record.set_security_stamp(user.get_security_stamp());
        record.set_flags(user.get_flags());
        let ghost before = self@;
        let mut users: Vec<IdentityUser> = Vec::new();
        core::mem::swap(&mut users, &mut self.users);
        users.set(i, record);
        proof {
            assert(records_of(users@) =~= before.update(i as int, record@));
            assert(ids(before.update(i as int, record@)) =~= ids(before));
        }
        self.users = users;
        Ok(true)
    }

    /// Deletes the record under `id` and tells whether there was one. The
    /// empty id and the reserved id are refused.
    fn delete_user(&mut self, id: &str) -> (r: Result<bool, IdentityError>)
        ensures
            r == delete_answer(old(self)@, id@),
            final(self)@ == deleted(old(self)@, id@),
            r is Ok ==> !has_id(final(self)@, id@),
            emails_distinct(old(self)@) ==> emails_distinct(final(self)@),
    {
        proof {
            use_type_invariant(&*self);
        }
        if id.is_empty() {
            return Err(IdentityError::IdIsAlreadyTaken);
        }
        if same_text(id, RESERVED_ID) {
            return Err(IdentityError::IdEqualsAdmin);
        }
        let i = match self.position_by_id(id) {
            Some(i) => i,
            None => {
                return Ok(false);
            },
        };
        let ghost before = self@;
        let mut users: Vec<IdentityUser> = Vec::new();
        core::mem::swap(&mut users, &mut self.users);
        users.remove(i);
        proof {
            assert(records_of(users@) =~= before.remove(i as int));
            assert(ids(before.remove(i as int)) =~= ids(before).remove(i as int));
            assert(emails(before.remove(i as int)) =~= emails(before).remove(i as int));
            lemma_ascending_distinct(ids(before));
            lemma_remove_ascending(ids(before), i as int);
            crate::util::lemma_remove_from_distinct(ids(before), i as int);
            if emails_distinct(before) {
                crate::util::lemma_remove_from_distinct(emails(before), i as int);
            }
            ids(before).index_of_first_ensures(id@);
        }
        self.users = users;
        Ok(true)
    }

    /// Checks `pwd` against the credential of the user with the address
    /// `email`. An empty password, an address without the format, and an
    /// address that no user has are errors. The password that the user's
    /// credential was made of is confirmed.
    fn check_user_password(&self, email: &str, pwd: &str) -> (r: Result<bool, IdentityError>)
        ensures
            r == password_check(self@, email@, pwd@),
            pwd@.len() > 0 && email_format_ok(email@) && holds_password(self@, email@, pwd@) ==> r
                == Ok::<bool, IdentityError>(true),
    {
        if pwd.is_empty() {
            return Err(IdentityError::PasswordIsEmpty);
        }
        if !control_email(email) {
            return Err(IdentityError::EmailNotCorrectFormat);
        }
        match self.position_by_email(email) {
            Some(i) => Ok(self.users[i].check_pwd(pwd)),
            None => Err(IdentityError::UserIsNotPresent),
        }
    }

    /// Bootstrap: sees to it that the administrator's record is there. Where
    /// it is, nothing changes. Where it is not, a fresh one is added, unless
    /// another record has the administrator's address: then bootstrap fails
    /// and nothing changes. After a success exactly one record has the
    /// reserved id.
    fn setup(&mut self) -> (r: Result<(), IdentityError>)
        ensures
            r is Ok <==> has_id(old(self)@, RESERVED_ID@) || !has_email(old(self)@, ADMIN_EMAIL@),
            r is Ok ==> after_setup(old(self)@, final(self)@) && admin_count(final(self)@) == 1,
            r is Err ==> r == Err::<(), IdentityError>(IdentityError::UserCannotBeAdded)
                && final(self)@ == old(self)@,
    {
        proof {
            use_type_invariant(&*self);
            lemma_well_formed_distinct(self@);
            lemma_admin_count(self@);
        }
        if self.is_id_taken(RESERVED_ID) {
            return Ok(());
        }
        let admin = match IdentityUser::admin() {
            Ok(admin) => admin,
            Err(_) => {
                return Err(IdentityError::UserCannotBeAdded);
            },
        };
        proof {
            reveal_strlit("ADMIN");
            reveal_strlit("email.admin@server.com");
        }
        let ghost before = self@;
        match self.add_user(admin) {
            Ok(added) => {
                proof {
                    lemma_placed(before, added@);
                    assert(ids(self@)[place_of(ids(before), added@.id)] == RESERVED_ID@);
                    lemma_well_formed_distinct(self@);
                    lemma_admin_count(self@);
                }
                Ok(())
            },
            Err(_) => Err(IdentityError::UserCannotBeAdded),
        }
    }
}

impl AdminStoreTrait<IdentityUser> for UserStore {
    /// The number of records that are not the administrator's.
    fn get_amount_of_non_admin_users(&self) -> (r: usize)
        ensures
            r == non_admin(self@).len(),
    {
        let n = self.users.len();
        let mut count: usize = 0;
        let mut i: usize = 0;
        proof {
            reveal(Seq::filter);
        }
        while i < n
            invariant
                n == self.users@.len(),
                i <= n,
                count <= i,
                count == non_admin(self@.take(i as int)).len(),
            decreases n - i,
        {
            proof {
                assert(self@.take(i + 1) =~= self@.take(i as int).push(self@[i as int]));
                self@.take(i as int).lemma_filter_push(
                    self@[i as int],
                    |u: UserRecord| is_ordinary(u),
                );
            }
            if !same_text(self.users[i].get_id(), RESERVED_ID) {
                count += 1;
            }
            i += 1;
        }
        assert(self@.take(n as int) =~= self@);
        count
    }

    /// Tells whether `id` is the reserved id.
    fn is_id_admin(&self, id: &str) -> (r: bool)
        ensures
            r == (id@ == RESERVED_ID@),
    {
        same_text(id, RESERVED_ID)
    }

    /// The administrator's record; an error where bootstrap never ran.
    fn get_admin(&self) -> (r: Result<IdentityUser, IdentityError>)
        ensures
            user_result(r) == match found_by_id(self@, RESERVED_ID@) {
                Some(u) => Ok::<UserRecord, IdentityError>(u),
                None => Err::<UserRecord, IdentityError>(IdentityError::AdminNotPresent),
            },
    {
        match self.get_user_by_uuid(RESERVED_ID) {
            Some(u) => Ok(u),
            None => Err(IdentityError::AdminNotPresent),
        }
    }

    /// Copies of the records that are not the administrator's, in the
    /// store's order.
    fn get_non_admin_users(&self) -> (r: Vec<IdentityUser>)
        ensures
            records_of(r@) == non_admin(self@),
    {
        let n = self.users.len();
        let mut out: Vec<IdentityUser> = Vec::new();
        let mut i: usize = 0;
        proof {
            reveal(Seq::filter);
        }
        while i < n
            invariant
                n == self.users@.len(),
                i <= n,
                records_of(out@) == non_admin(self@.take(i as int)),
            decreases n - i,
        {
            proof {
                assert(self@.take(i + 1) =~= self@.take(i as int).push(self@[i as int]));
                self@.take(i as int).lemma_filter_push(
                    self@[i as int],
                    |u: UserRecord| is_ordinary(u),
                );
            }
            if !same_text(self.users[i].get_id(), RESERVED_ID) {
                let copy = self.users[i].clone();
                out.push(copy);
            }
            i += 1;
        }
        assert(self@.take(n as int) =~= self@);
        out
    }
}

/// A record that is found under its id can be updated with any record of
/// the same id whose address is the old one or one that the old one may
/// change to.
pub proof fn lemma_update_of_found(s: Seq<UserRecord>, u: UserRecord, patch: UserRecord)
    requires
        well_formed(s),
        has_id(s, u.id),
        found_by_id(s, u.id) == Some(u),
        patch.id == u.id,
        patch.email == u.email || email_change(u.email, patch.email) is Ok,
    ensures
        update_answer(s, u.id, patch) == Ok::<bool, IdentityError>(true),
        patched(u, patch) == patch,
{
    ids(s).index_of_first_ensures(u.id);
    let i = ids(s).index_of_first(u.id)->0;
}

/// A record that is found under an id has that id.
pub proof fn lemma_found_has_id(s: Seq<UserRecord>, id: Seq<char>)
    ensures
        found_by_id(s, id) matches Some(u) ==> u.id == id && has_id(s, id),
        found_by_id(s, id) is None ==> !has_id(s, id),
{
    ids(s).index_of_first_ensures(id);
}

/// A user who was registered is found by the address: where registration
/// under `id` with `email` and `pwd` is not refused, the record `u` that it
/// makes and puts among the others is the one that a search for `email`
/// finds, and it has that id and that address.
pub proof fn lemma_registered_user_is_found(
    before: Seq<UserRecord>,
    id: Seq<char>,
    email: Seq<char>,
    pwd: Seq<char>,
    u: UserRecord,
)
    requires
        well_formed(before),
        create_refusal(before, id, email, pwd) is None,
        registered(u, id, email, pwd),
    ensures
        u.id == id,
        u.email == email,
        well_formed(placed(before, u)),
        found_by_email(placed(before, u), email) == Some(u),
        found_by_id(placed(before, u), id) == Some(u),
{
    lemma_placed(before, u);
    let after = placed(before, u);
    let p = place_of(ids(before), id);
    emails(after).index_of_first_ensures(email);
    ids(after).index_of_first_ensures(id);
    assert(emails(after)[p] == email);
    assert(ids(after)[p] == id);
    let i = emails(after).index_of_first(email)->0;
    if i < p {
        assert(emails(before)[i] == email);
    } else if i > p {
        assert(emails(before)[i - 1] == email);
    }
    let j = ids(after).index_of_first(id)->0;
    if j < p {
        assert(ids(before)[j] == id);
    } else if j > p {
        assert(ids(before)[j - 1] == id);
    }
}

/// A user who was registered holds the password: the record that
/// registration with `email` and `pwd` makes is the one found under `email`,
/// and its credential was made of `pwd`.
pub proof fn lemma_registered_user_holds_password(
    before: Seq<UserRecord>,
    id: Seq<char>,
    email: Seq<char>,
    pwd: Seq<char>,
    u: UserRecord,
)
    requires
        well_formed(before),
        create_refusal(before, id, email, pwd) is None,
        registered(u, id, email, pwd),
    ensures
        pwd.len() > 0,
        email_format_ok(email),
        holds_password(placed(before, u), email, pwd),
{
    lemma_registered_user_is_found(before, id, email, pwd, u);
}

/// Bootstrap is idempotent: a second bootstrap changes nothing, and after it
/// exactly one record has the reserved id.
pub proof fn lemma_setup_twice(a: Seq<UserRecord>, b: Seq<UserRecord>, c: Seq<UserRecord>)
    requires
        well_formed(a),
        after_setup(a, b),
        after_setup(b, c),
    ensures
        c == b,
        well_formed(c),
        admin_count(c) == 1,
{
    if !has_id(a, RESERVED_ID@) {
        let u = choose|u: UserRecord| is_admin_record(u) && b == placed(a, u);
        reveal_strlit("email.admin@server.com");
        lemma_placed(a, u);
        assert(ids(b)[place_of(ids(a), u.id)] == RESERVED_ID@);
    }
    lemma_well_formed_distinct(b);
    lemma_admin_count(b);
}

/// The administrator's record is never deleted: a deletion under the
/// reserved id is refused whatever the store holds, and changes nothing.
pub proof fn lemma_admin_is_never_deleted(s: Seq<UserRecord>)
    ensures
        delete_answer(s, RESERVED_ID@) == Err::<bool, IdentityError>(IdentityError::IdEqualsAdmin),
        deleted(s, RESERVED_ID@) == s,
{
    reveal_strlit("ADMIN");
}

} // verus!
