use vstd::prelude::*;
use crate::claim::decoded;
use crate::claim::is_clock_time;
use crate::claim::Claim;
use crate::claim::ClaimConfig;
use crate::claim::ClaimSettings;
use crate::err::IdentityError;
use crate::generic_token::GenericTokenViewModel;
use crate::repo::user_repo::delete_answer;
use crate::repo::user_repo::deleted;
use crate::repo::user_repo::found_by_id;
use crate::repo::user_repo::has_email;
use crate::repo::user_repo::has_id;
use crate::repo::user_repo::lemma_found_has_id;
use crate::repo::user_repo::lemma_update_of_found;
use crate::repo::user_repo::non_admin;
use crate::repo::user_repo::placed;
use crate::repo::user_repo::registered;
use crate::repo::user_repo::updated;
use crate::repo::user_repo::UserStore;
use crate::service::person_service::credential_replaced;
use crate::service::person_service::new_profile;
use crate::traits::t_admin_manager::AdminStoreTrait;
use crate::traits::t_user::UserTrait;
use crate::traits::t_user_manager::UserStoreTrait;
use crate::traits::token::TokenContainerTrait;
use crate::user::identity_user::making_refusal;
use crate::user::identity_user::password_fits;
use crate::user::identity_user::recredentialed;
use crate::user::identity_user::user_result;
use crate::user::identity_user::IdentityUser;
use crate::user::identity_user::UserRecord;
use crate::user::identity_user::RESERVED_ID;
use crate::util::now_seconds;
use crate::util::same_text;
use crate::viewmodels::admin::all_users::shows_all;
use crate::viewmodels::admin::all_users::AllNonAdminUsersViewModel;
use crate::viewmodels::admin::create_user::AdminCreateUserViewModel;
use crate::viewmodels::admin::delete_user::DeleteUserViewModel;
use crate::viewmodels::admin::update_user::AdminUpdateUserViewModel;
use crate::viewmodels::admin::update_user_pwd::AdminChangePasswordUserViewModel;
use crate::viewmodels::auth::token::TokenHolderViewModel;

verus! {

/// Why the bearer of `token` may not act as administrator at the time
/// `now`, if not: the token is not good, or its subject is not the
/// administrator, which is answered with `refusal`.
pub open spec fn unauthorised(
    token: Seq<char>,
    settings: ClaimSettings,
    now: int,
    refusal: IdentityError,
) -> Option<IdentityError> {
    match decoded(token, settings, now) {
        Err(e) => Some(e),
        Ok(c) => if c.sub == RESERVED_ID@ {
            None
        } else {
            Some(refusal)
        },
    }
}

/// Checks that the bearer of `token` is the administrator, at the time
/// `now`.
fn authorise(token: &str, config: &ClaimConfig, now: i64, refusal: IdentityError) -> (r: Result<
    (),
    IdentityError,
>)
    ensures
        match unauthorised(token@, config@, now as int, refusal) {
            Some(e) => r == Err::<(), IdentityError>(e),
            None => r is Ok,
        },
{
    match Claim::decode_token_at(token, config, now) {
        Ok(claim) => {
            if same_text(claim.sub.as_str(), RESERVED_ID) {
                Ok(())
            } else {
                Err(refusal)
            }
        },
        Err(e) => Err(e),
    }
}

/// What the creation of a user by the administrator answers and does at the
/// time `now`. The two passwords are compared first, then the address is
/// looked up, then the token is checked, then the record is made, and the
/// id is looked up last. Why no record can be made is told as a custom
/// error with that reason's text.
pub open spec fn user_created(
    r: Result<IdentityUser, IdentityError>,
    before: Seq<UserRecord>,
    after: Seq<UserRecord>,
    token: Seq<char>,
    id: Seq<char>,
    email: Seq<char>,
    pwd: Seq<char>,
    confirm: Seq<char>,
    settings: ClaimSettings,
    now: int,
) -> bool {
    if confirm != pwd {
        user_result(r) == Err::<UserRecord, IdentityError>(
            IdentityError::PasswordAndPasswordConfirmedNotEqual,
        ) && after == before
    } else if has_email(before, email) {
        user_result(r) == Err::<UserRecord, IdentityError>(IdentityError::EmailIsAlreadyTaken)
            && after == before
    } else {
        match unauthorised(token, settings, now, IdentityError::IdEqualsAdmin) {
            Some(e) => user_result(r) == Err::<UserRecord, IdentityError>(e) && after == before,
            None => match making_refusal(email, pwd) {
                Some(e) => r matches Err(c) && c.is_custom(e.message_text()) && after == before,
                None => if has_id(before, id) {
                    user_result(r) == Err::<UserRecord, IdentityError>(
                        IdentityError::UserCannotBeAdded,
                    ) && after == before
                } else {
                    r matches Ok(u) && registered(u@, id, email, pwd) && after == placed(before, u@)
                },
            },
        }
    }
}

/// Creates a user under the id `id` on the administrator's behalf, at the
/// time `now`.
pub fn create_user_at(
    model: GenericTokenViewModel<AdminCreateUserViewModel>,
    id: &str,
    db: &mut UserStore,
    config: &ClaimConfig,
    now: i64,
) -> (r: Result<IdentityUser, IdentityError>)
    ensures
        user_created(
            r,
            old(db)@,
            final(db)@,
            model.token_text(),
            id@,
            model.model_value().email_user_text(),
            model.model_value().password_text(),
            model.model_value().confirm_password_text(),
            config@,
            now as int,
        ),
{
    let request = model.get_model();
    if !same_text(request.get_confirmed_password(), request.get_password()) {
        return Err(IdentityError::PasswordAndPasswordConfirmedNotEqual);
    }
    if db.is_email_taken(request.get_email()) {
        return Err(IdentityError::EmailIsAlreadyTaken);
    }
    match authorise(model.get_token(), config, now, IdentityError::IdEqualsAdmin) {
        Ok(_) => {},
        Err(e) => {
            return Err(e);
        },
    }
    proof {
        reveal_strlit("");
        assert(""@ =~= Seq::<char>::empty());
    }
    let person = match IdentityUser::new_user_with_personal_id(
        id,
        request.get_email(),
        "",
        request.get_password(),
    ) {
        Ok(user) => user,
        Err(e) => {
            return Err(IdentityError::CustomError(e.message()));
        },
    };
    match db.add_user(person) {
        Ok(user) => Ok(user),
        Err(_) => Err(IdentityError::UserCannotBeAdded),
    }
}

/// Creates a user under the id `id` on the administrator's behalf, now.
pub fn create_user(
    model: GenericTokenViewModel<AdminCreateUserViewModel>,
    id: &str,
    db: &mut UserStore,
    config: &ClaimConfig,
) -> (r: Result<IdentityUser, IdentityError>)
    ensures
        exists|now: int|
            is_clock_time(now) && #[trigger] user_created(
                r,
                old(db)@,
                final(db)@,
                model.token_text(),
                id@,
                model.model_value().email_user_text(),
                model.model_value().password_text(),
                model.model_value().confirm_password_text(),
                config@,
                now,
            ),
{
    let now = now_seconds();
    let ghost before = db@;
    let ghost token = model.token_text();
    let ghost request = model.model_value();
    let r = create_user_at(model, id, db, config, now);
    assert(is_clock_time(now as int) && user_created(
        r,
        before,
        db@,
        token,
        id@,
        request.email_user_text(),
        request.password_text(),
        request.confirm_password_text(),
        config@,
        now as int,
    ));
    r
}

/// What the deletion of the user `user_id` by the administrator answers at
/// the time `now`.
pub open spec fn user_deletion(
    token: Seq<char>,
    user_id: Seq<char>,
    users: Seq<UserRecord>,
    settings: ClaimSettings,
    now: int,
) -> Result<bool, IdentityError> {
    match unauthorised(token, settings, now, IdentityError::IdNotEqualToAdmin) {
        Some(e) => Err(e),
        None => delete_answer(users, user_id),
    }
}

/// The users after the deletion of the user `user_id` by the administrator
/// at the time `now`.
pub open spec fn after_user_deletion(
    token: Seq<char>,
    user_id: Seq<char>,
    users: Seq<UserRecord>,
    settings: ClaimSettings,
    now: int,
) -> Seq<UserRecord> {
    match unauthorised(token, settings, now, IdentityError::IdNotEqualToAdmin) {
        Some(e) => users,
        None => deleted(users, user_id),
    }
}

/// Deletes a user on the administrator's behalf, at the time `now`.
pub fn delete_user_at(
    model: GenericTokenViewModel<DeleteUserViewModel>,
    db: &mut UserStore,
    config: &ClaimConfig,
    now: i64,
) -> (r: Result<bool, IdentityError>)
    ensures
        r == user_deletion(
            model.token_text(),
            model.model_value().user_id_text(),
            old(db)@,
            config@,
            now as int,
        ),
        final(db)@ == after_user_deletion(
            model.token_text(),
            model.model_value().user_id_text(),
            old(db)@,
            config@,
            now as int,
        ),
{
    match authorise(model.get_token(), config, now, IdentityError::IdNotEqualToAdmin) {
        Ok(_) => {},
        Err(e) => {
            return Err(e);
        },
    }
    db.delete_user(model.get_model().get_user_id())
}

/// Deletes a user on the administrator's behalf, now.
pub fn delete_user(model: GenericTokenViewModel<DeleteUserViewModel>, db: &mut UserStore, config: &ClaimConfig) -> (r:
    Result<bool, IdentityError>)
    ensures
        exists|now: int|
            is_clock_time(now) && r == #[trigger] user_deletion(
                model.token_text(),
                model.model_value().user_id_text(),
                old(db)@,
                config@,
                now,
            ) && final(db)@ == after_user_deletion(
                model.token_text(),
                model.model_value().user_id_text(),
                old(db)@,
                config@,
                now,
            ),
{
    let now = now_seconds();
    let ghost before = db@;
    let ghost token = model.token_text();
    let ghost user_id = model.model_value().user_id_text();
    let r = delete_user_at(model, db, config, now);
    assert(is_clock_time(now as int) && r == user_deletion(
        token,
        user_id,
        before,
        config@,
        now as int,
    ) && db@ == after_user_deletion(token, user_id, before, config@, now as int));
    r
}

/// What the administrator gets at the time `now` for a change of the
/// address and display name of the user `user_id`: the user's new record,
/// or why the change is refused.
pub open spec fn user_update(
    token: Seq<char>,
    user_id: Seq<char>,
    users: Seq<UserRecord>,
    settings: ClaimSettings,
    new_email: Option<Seq<char>>,
    new_user_name: Option<Seq<char>>,
    now: int,
) -> Result<UserRecord, IdentityError> {
    match unauthorised(token, settings, now, IdentityError::IdNotEqualToAdmin) {
        Some(e) => Err(e),
        None => match found_by_id(users, user_id) {
            None => Err(IdentityError::UserIsNotPresent),
            Some(u) => new_profile(users, u, new_email, new_user_name),
        },
    }
}

/// Changes address and display name of a user on the administrator's
/// behalf, at the time `now`. Where the change is refused the store stays as
/// it is.
pub fn update_user_at(
    model: GenericTokenViewModel<AdminUpdateUserViewModel>,
    db: &mut UserStore,
    config: &ClaimConfig,
    now: i64,
) -> (r: Result<bool, IdentityError>)
    ensures
        match user_update(
            model.token_text(),
            model.model_value().user_id_text(),
            old(db)@,
            config@,
            model.model_value().new_email_text(),
            model.model_value().new_user_name_text(),
            now as int,
        ) {
            Err(e) => r == Err::<bool, IdentityError>(e) && final(db)@ == old(db)@,
            Ok(p) => r == Ok::<bool, IdentityError>(true) && final(db)@ == updated(
                old(db)@,
                p.id,
                p,
            ),
        },
{
    match authorise(model.get_token(), config, now, IdentityError::IdNotEqualToAdmin) {
        Ok(_) => {},
        Err(e) => {
            return Err(e);
        },
    }
    let request = model.get_model();
    let mut user = match db.get_user_by_uuid(request.get_user_id()) {
        Some(user) => user,
        None => {
            return Err(IdentityError::UserIsNotPresent);
        },
    };
    let ghost found = user@;
    proof {
        lemma_found_has_id(db@, request.user_id_text());
    }
    match request.get_new_email() {
        Some(e) => {
            if !db.is_email_taken(e) {
                match user.set_email(e) {
                    Ok(_) => {},
                    Err(err) => {
                        return Err(err);
                    },
                }
            }
        },
        None => {},
    }
    match request.get_new_user_name() {
        Some(n) => {
            user.set_user_name(n);
        },
        None => {},
    }
    db.holds_well_formed();
    proof {
        lemma_update_of_found(db@, found, user@);
    }
    db.update_user(request.get_user_id(), &user)
}

/// Changes address and display name of a user on the administrator's
/// behalf, now.
pub fn update_user(model: GenericTokenViewModel<AdminUpdateUserViewModel>, db: &mut UserStore, config: &ClaimConfig) -> (r:
    Result<bool, IdentityError>)
    ensures
        exists|now: int|
            is_clock_time(now) && match #[trigger] user_update(
                model.token_text(),
                model.model_value().user_id_text(),
                old(db)@,
                config@,
                model.model_value().new_email_text(),
                model.model_value().new_user_name_text(),
                now,
            ) {
                Err(e) => r == Err::<bool, IdentityError>(e) && final(db)@ == old(db)@,
                Ok(p) => r == Ok::<bool, IdentityError>(true) && final(db)@ == updated(
                    old(db)@,
                    p.id,
                    p,
                ),
            },
{
    let now = now_seconds();
    let ghost before = db@;
    let ghost token = model.token_text();
    let ghost request = model.model_value();
    let r = update_user_at(model, db, config, now);
    assert(is_clock_time(now as int) && match user_update(
        token,
        request.user_id_text(),
        before,
        config@,
        request.new_email_text(),
        request.new_user_name_text(),
        now as int,
    ) {
        Err(e) => r == Err::<bool, IdentityError>(e) && db@ == before,
        Ok(p) => r == Ok::<bool, IdentityError>(true) && db@ == updated(before, p.id, p),
    });
    r
}

/// What a change of the password of the user `user_id` by the administrator
/// answers and does at the time `now`. A password too long to hash is told
/// as a custom error with that reason's text.
pub open spec fn password_replaced(
    r: Result<bool, IdentityError>,
    before: Seq<UserRecord>,
    after: Seq<UserRecord>,
    token: Seq<char>,
    user_id: Seq<char>,
    pwd: Seq<char>,
    confirm: Seq<char>,
    settings: ClaimSettings,
    now: int,
) -> bool {
    match unauthorised(token, settings, now, IdentityError::IdNotEqualToAdmin) {
        Some(e) => r == Err::<bool, IdentityError>(e) && after == before,
        None => if pwd.len() == 0 {
            r == Err::<bool, IdentityError>(IdentityError::PasswordIsEmpty) && after == before
        } else if pwd != confirm {
            r == Err::<bool, IdentityError>(IdentityError::PasswordAndPasswordConfirmedNotEqual)
                && after == before
        } else {
            match found_by_id(before, user_id) {
                None => r == Err::<bool, IdentityError>(IdentityError::UserIsNotPresent) && after
                    == before,
                Some(u) => if !password_fits(pwd) {
                    r matches Err(c) && c.is_custom(
                        IdentityError::PasswordCannotBeMade.message_text(),
                    ) && after == before
                } else {
                    r == Ok::<bool, IdentityError>(true) && credential_replaced(
                        before,
                        after,
                        u,
                        pwd,
                    )
                },
            }
        },
    }
}

/// Gives a user a new password on the administrator's behalf, at the time
/// `now`.
pub fn update_user_pwd_at(
    model: GenericTokenViewModel<AdminChangePasswordUserViewModel>,
    db: &mut UserStore,
    config: &ClaimConfig,
    now: i64,
) -> (r: Result<bool, IdentityError>)
    ensures
        password_replaced(
            r,
            old(db)@,
            final(db)@,
            model.token_text(),
            model.model_value().id_user_text(),
            model.model_value().password_text(),
            model.model_value().confirm_password_text(),
            config@,
            now as int,
        ),
{
    match authorise(model.get_token(), config, now, IdentityError::IdNotEqualToAdmin) {
        Ok(_) => {},
        Err(e) => {
            return Err(e);
        },
    }
    let request = model.get_model();
    if request.get_password().is_empty() {
        return Err(IdentityError::PasswordIsEmpty);
    }
    if !same_text(request.get_password(), request.get_confirm_password()) {
        return Err(IdentityError::PasswordAndPasswordConfirmedNotEqual);
    }
    let mut user = match db.get_user_by_uuid(request.get_id_user()) {
        Some(user) => user,
        None => {
            return Err(IdentityError::UserIsNotPresent);
        },
    };
    let ghost found = user@;
    let ghost before = db@;
    proof {
        lemma_found_has_id(db@, request.id_user_text());
    }
    match user.set_password(request.get_password()) {
        Ok(_) => {
            db.holds_well_formed();
            proof {
                lemma_update_of_found(db@, found, user@);
            }
            let r = db.update_user(user.get_id(), &user);
            assert(recredentialed(found, user@, request.password_text()) && db@ == updated(
                before,
                found.id,
                user@,
            ));
            r
        },
        Err(e) => Err(IdentityError::CustomError(e.message())),
    }
}

/// Gives a user a new password on the administrator's behalf, now.
pub fn update_user_pwd(
    model: GenericTokenViewModel<AdminChangePasswordUserViewModel>,
    db: &mut UserStore,
    config: &ClaimConfig,
) -> (r: Result<bool, IdentityError>)
    ensures
        exists|now: int|
            is_clock_time(now) && #[trigger] password_replaced(
                r,
                old(db)@,
                final(db)@,
                model.token_text(),
                model.model_value().id_user_text(),
                model.model_value().password_text(),
                model.model_value().confirm_password_text(),
                config@,
                now,
            ),
{
    let now = now_seconds();
    let ghost before = db@;
    let ghost token = model.token_text();
    let ghost request = model.model_value();
    let r = update_user_pwd_at(model, db, config, now);
    assert(is_clock_time(now as int) && password_replaced(
        r,
        before,
        db@,
        token,
        request.id_user_text(),
        request.password_text(),
        request.confirm_password_text(),
        config@,
        now as int,
    ));
    r
}

/// What the administrator gets at the time `now` who asks for all users:
/// what is shown of every record but the administrator's own, in the
/// store's order.
pub open spec fn users_listed(
    r: Result<AllNonAdminUsersViewModel, IdentityError>,
    token: Seq<char>,
    users: Seq<UserRecord>,
    settings: ClaimSettings,
    now: int,
) -> bool {
    match unauthorised(token, settings, now, IdentityError::IdNotEqualToAdmin) {
        Some(e) => r matches Err(x) && x == e,
        None => r matches Ok(v) && shows_all(v.users@, non_admin(users)),
    }
}

/// Lists all users but the administrator on the administrator's behalf, at
/// the time `now`.
pub fn get_all_users_at(model: TokenHolderViewModel, db: &UserStore, config: &ClaimConfig, now: i64) -> (r:
    Result<AllNonAdminUsersViewModel, IdentityError>)
    ensures
        users_listed(r, model.token_text(), db@, config@, now as int),
{
    match authorise(model.get_token(), config, now, IdentityError::IdNotEqualToAdmin) {
        Ok(_) => {},
        Err(e) => {
            return Err(e);
        },
    }
    Ok(AllNonAdminUsersViewModel::from_users_vector(db.get_non_admin_users()))
}

/// Lists all users but the administrator on the administrator's behalf,
/// now.
pub fn get_all_users(model: TokenHolderViewModel, db: &UserStore, config: &ClaimConfig) -> (r: Result<
    AllNonAdminUsersViewModel,
    IdentityError,
>)
    ensures
        exists|now: int|
            is_clock_time(now) && #[trigger] users_listed(r, model.token_text(), db@, config@, now),
{
    let now = now_seconds();
    get_all_users_at(model, db, config, now)
}

} // verus!
