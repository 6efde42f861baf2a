use vstd::prelude::*;
use crate::claim::claim_result;
use crate::claim::decoded;
use crate::claim::is_clock_time;
use crate::claim::issued;
use crate::claim::resolved;
use crate::claim::Claim;
use crate::claim::ClaimConfig;
use crate::claim::ClaimData;
use crate::claim::ClaimSettings;
use crate::credential::password_matches;
use crate::err::IdentityError;
use crate::map_token_pwd::is_good;
use crate::map_token_pwd::is_recovery_token;
use crate::map_token_pwd::request_of;
use crate::map_token_pwd::without_token;
use crate::map_token_pwd::without_user;
use crate::map_token_pwd::with_request;
use crate::map_token_pwd::HashMapTokenPasswordChange;
use crate::map_token_pwd::RequestData;
use crate::repo::user_repo::delete_answer;
use crate::repo::user_repo::deleted;
use crate::repo::user_repo::found_by_email;
use crate::repo::user_repo::found_by_id;
use crate::repo::user_repo::has_email;
use crate::repo::user_repo::has_id;
use crate::repo::user_repo::holds_password;
use crate::repo::user_repo::lemma_found_has_id;
use crate::repo::user_repo::lemma_update_of_found;
use crate::repo::user_repo::placed;
use crate::repo::user_repo::registered;
use crate::repo::user_repo::updated;
use crate::repo::user_repo::UserStore;
use crate::traits::t_user::UserTrait;
use crate::traits::t_user_manager::UserStoreTrait;
use crate::traits::token::TokenContainerTrait;
use crate::user::identity_user::email_change;
use crate::user::identity_user::password_fits;
use crate::user::identity_user::recredentialed;
use crate::user::identity_user::user_result;
use crate::user::identity_user::IdentityUser;
use crate::user::identity_user::UserRecord;
use crate::util::email_format_ok;
use crate::util::now_nanos;
use crate::util::now_seconds;
use crate::util::same_text;
use crate::viewmodels::auth::change_pwd::ChangeForgottenPassword;
use crate::viewmodels::auth::delete_user::DeleteUserViewModel;
use crate::viewmodels::auth::flag::FlagHolder;
use crate::viewmodels::auth::login::LoginViewModel;
use crate::viewmodels::auth::person_info::shows;
use crate::viewmodels::auth::person_info::PersonInfoViewModel;
use crate::viewmodels::auth::registration::RegistrationViewModel;
use crate::viewmodels::auth::token::TokenHolderViewModel;
use crate::viewmodels::auth::update_pwd::ChangePasswordViewModel;
use crate::viewmodels::auth::update_user::UpdateUserViewModel;

verus! {

/// Why a visitor cannot sign up under the id `id`, if not. The two passwords
/// are compared first, then the address is looked up, then the record is
/// made, and the id is looked up last.
pub open spec fn sign_up_refusal(
    users: Seq<UserRecord>,
    id: Seq<char>,
    email: Seq<char>,
    pwd: Seq<char>,
    confirm: Seq<char>,
) -> Option<IdentityError> {
    if confirm != pwd {
        Some(IdentityError::PasswordAndPasswordConfirmedNotEqual)
    } else if has_email(users, email) {
        Some(IdentityError::EmailIsAlreadyTaken)
    } else if email.len() == 0 {
        Some(IdentityError::EmailIsEmpty)
    } else if pwd.len() == 0 {
        Some(IdentityError::PasswordIsEmpty)
    } else if !email_format_ok(email) {
        Some(IdentityError::EmailNotCorrectFormat)
    } else if !password_fits(pwd) {
        Some(IdentityError::PasswordCannotBeMade)
    } else if has_id(users, id) {
        Some(IdentityError::UserCannotBeAdded)
    } else {
        None
    }
}

/// Signs a visitor up under the id `id` and hands the new record back. Where
/// that is refused the store stays as it is.
pub fn add_user(model: RegistrationViewModel, id: &str, db: &mut UserStore) -> (r: Result<
    IdentityUser,
    IdentityError,
>)
    ensures
        match sign_up_refusal(
            old(db)@,
            id@,
            model.email_text(),
            model.password_text(),
            model.confirm_password_text(),
        ) {
            Some(e) => user_result(r) == Err::<UserRecord, IdentityError>(e) && final(db)@ == old(
                db,
            )@,
            None => r matches Ok(u) && registered(u@, id@, model.email_text(), model.password_text())
                && final(db)@ == placed(old(db)@, u@),
        },
{
    if !same_text(model.get_confirmed_password(), model.get_password()) {
        return Err(IdentityError::PasswordAndPasswordConfirmedNotEqual);
    }
    if db.is_email_taken(model.get_email()) {
        return Err(IdentityError::EmailIsAlreadyTaken);
    }
    proof {
        reveal_strlit("");
        assert(""@ =~= Seq::<char>::empty());
    }
    let person = match IdentityUser::new_user_with_personal_id(
        id,
        model.get_email(),
        "",
        model.get_password(),
    ) {
        Ok(user) => user,
        Err(e) => {
            return Err(e);
        },
    };
    match db.add_user(person) {
        Ok(user) => Ok(user),
        Err(_) => Err(IdentityError::UserCannotBeAdded),
    }
}

/// The record that a user has after a change of address and display name,
/// or why the change is refused. An address that another record has is
/// passed over; an address that is new must not be empty and must have the
/// format.
pub open spec fn new_profile(
    users: Seq<UserRecord>,
    u: UserRecord,
    new_email: Option<Seq<char>>,
    new_user_name: Option<Seq<char>>,
) -> Result<UserRecord, IdentityError> {
    let user_name = match new_user_name {
        Some(n) => n,
        None => u.user_name,
    };
    match new_email {
        Some(e) => if has_email(users, e) {
            Ok(UserRecord { user_name, ..u })
        } else {
            match email_change(u.email, e) {
                Err(err) => Err(err),
                Ok(_) => Ok(UserRecord { email: e, user_name, ..u }),
            }
        },
        None => Ok(UserRecord { user_name, ..u }),
    }
}

/// Applies a change of address and display name to `user`.
fn apply_profile(
    user: &mut IdentityUser,
    db: &UserStore,
    new_email: Option<&str>,
    new_user_name: Option<&str>,
) -> (r: Result<(), IdentityError>)
    ensures
        match new_profile(
            db@,
            old(user)@,
            match new_email {
                Some(e) => Some(e@),
                None => None,
            },
            match new_user_name {
                Some(n) => Some(n@),
                None => None,
            },
        ) {
            Ok(p) => r is Ok && final(user)@ == p,
            Err(e) => r == Err::<(), IdentityError>(e),
        },
{
    match new_email {
        Some(e) => {
            if !db.is_email_taken(e) {
                match user.set_email(e) {
                    Ok(_) => {},
                    Err(err) => {
                        return Err(err);
                    },
                }
            }
        },
        None => {},
    }
    match new_user_name {
        Some(n) => {
            user.set_user_name(n);
        },
        None => {},
    }
    Ok(())
}

/// What the bearer of `token` gets for a change of the own address and
/// display name at the time `now`.
pub open spec fn profile_update(
    token: Seq<char>,
    users: Seq<UserRecord>,
    settings: ClaimSettings,
    new_email: Option<Seq<char>>,
    new_user_name: Option<Seq<char>>,
    now: int,
) -> Result<UserRecord, IdentityError> {
    match resolved(token, users, settings, now) {
        Err(e) => Err(e),
        Ok(u) => new_profile(users, u, new_email, new_user_name),
    }
}

/// Changes address and display name of the bearer of `token`, at the time
/// `now`. Where the change is refused the store stays as it is.
pub fn update_user_at(
    token: &str,
    model: UpdateUserViewModel,
    db: &mut UserStore,
    config: &ClaimConfig,
    now: i64,
) -> (r: Result<bool, IdentityError>)
    ensures
        match profile_update(
            token@,
            old(db)@,
            config@,
            model.new_email_text(),
            model.new_user_name_text(),
            now as int,
        ) {
            Err(e) => r == Err::<bool, IdentityError>(e) && final(db)@ == old(db)@,
            Ok(p) => r == Ok::<bool, IdentityError>(true) && final(db)@ == updated(
                old(db)@,
                p.id,
                p,
            ),
        },
{
    let mut user = match Claim::token_to_user_at(token, db, config, now) {
        Ok(user) => user,
        Err(e) => {
            return Err(e);
        },
    };
    let ghost found = user@;
    proof {
        let c = decoded(token@, config@, now as int)->Ok_0;
        lemma_found_has_id(db@, c.sub);
    }
    match apply_profile(&mut user, db, model.get_new_email(), model.get_new_user_name()) {
        Ok(_) => {},
        Err(e) => {
            return Err(e);
        },
    }
    db.holds_well_formed();
    proof {
        lemma_update_of_found(db@, found, user@);
    }
    db.update_user(user.get_id(), &user)
}

/// Changes address and display name of the bearer of `token`, now.
pub fn update_user(token: &str, model: UpdateUserViewModel, db: &mut UserStore, config: &ClaimConfig) -> (r:
    Result<bool, IdentityError>)
    ensures
        exists|now: int|
            is_clock_time(now) && match #[trigger] profile_update(
                token@,
                old(db)@,
                config@,
                model.new_email_text(),
                model.new_user_name_text(),
                now,
            ) {
                Err(e) => r == Err::<bool, IdentityError>(e) && final(db)@ == old(db)@,
                Ok(p) => r == Ok::<bool, IdentityError>(true) && final(db)@ == updated(
                    old(db)@,
                    p.id,
                    p,
                ),
            },
{
    let now = now_seconds();
    let ghost before = db@;
    let ghost new_email = model.new_email_text();
    let ghost new_user_name = model.new_user_name_text();
    let r = update_user_at(token, model, db, config, now);
    assert(is_clock_time(now as int) && match profile_update(
        token@,
        before,
        config@,
        new_email,
        new_user_name,
        now as int,
    ) {
        Err(e) => r == Err::<bool, IdentityError>(e) && db@ == before,
        Ok(p) => r == Ok::<bool, IdentityError>(true) && db@ == updated(before, p.id, p),
    });
    r
}

/// What a login with `email` and `pwd` at the time `now` answers: the
/// session claim for the user with that address, where the password is the
/// user's. It is the user's where the user's credential was made of it.
pub open spec fn login(
    users: Seq<UserRecord>,
    settings: ClaimSettings,
    email: Seq<char>,
    pwd: Seq<char>,
    now: int,
) -> Result<ClaimData, IdentityError> {
    match found_by_email(users, email) {
        None => Err(IdentityError::UserIsNotPresent),
        Some(u) => if !password_matches(u.hashed_password, pwd) {
            Err(IdentityError::PasswordIsNotCorrect)
        } else {
            issued(u.id, settings.issuer, settings.expiration, now)
        },
    }
}

/// Checks address and password at the time `now` and issues the session
/// claim.
pub fn check_credentials_at(model: LoginViewModel, db: &UserStore, config: &ClaimConfig, now: i64) -> (r:
    Result<Claim, IdentityError>)
    requires
        i64::MIN <= now + config@.expiration <= i64::MAX,
    ensures
        claim_result(r) == login(
            db@,
            config@,
            model.email_text(),
            model.password_text(),
            now as int,
        ),
        model.password_text().len() > 0 && holds_password(
            db@,
            model.email_text(),
            model.password_text(),
        ) ==> claim_result(r) == issued(
            found_by_email(db@, model.email_text())->0.id,
            config@.issuer,
            config@.expiration,
            now as int,
        ),
{
    match db.get_user_by_email(model.get_email()) {
        Some(user) => {
            if !user.check_pwd(model.get_password()) {
                return Err(IdentityError::PasswordIsNotCorrect);
            }
            Claim::issue(user.get_id(), config.get_issuer(), config.get_expiration(), now)
        },
        None => Err(IdentityError::UserIsNotPresent),
    }
}

/// Checks address and password now and issues the session claim.
pub fn check_credentials(model: LoginViewModel, db: &UserStore, config: &ClaimConfig) -> (r: Result<
    Claim,
    IdentityError,
>)
    ensures
        exists|now: int|
            is_clock_time(now) && claim_result(r) == #[trigger] login(
                db@,
                config@,
                model.email_text(),
                model.password_text(),
                now,
            ),
{
    let now = now_seconds();
    config.holds_bounds();
    check_credentials_at(model, db, config, now)
}

/// The user that the token stands for at the time `now`.
pub fn check_token_at(token: &str, db: &UserStore, config: &ClaimConfig, now: i64) -> (r: Result<
    IdentityUser,
    IdentityError,
>)
    ensures
        user_result(r) == resolved(token@, db@, config@, now as int),
{
    Claim::token_to_user_at(token, db, config, now)
}

/// The user that the token stands for now.
pub fn check_token(token: &str, db: &UserStore, config: &ClaimConfig) -> (r: Result<
    IdentityUser,
    IdentityError,
>)
    ensures
        exists|now: int|
            is_clock_time(now) && user_result(r) == #[trigger] resolved(token@, db@, config@, now),
{
    Claim::token_to_user(token, db, config)
}

/// What the bearer of `token` gets at the time `now` who asks for a new
/// session claim: one for the same subject, where the token is good and the
/// subject still a user.
pub open spec fn renewed(
    token: Seq<char>,
    users: Seq<UserRecord>,
    settings: ClaimSettings,
    now: int,
) -> Result<ClaimData, IdentityError> {
    match decoded(token, settings, now) {
        Err(e) => Err(e),
        Ok(c) => if has_id(users, c.sub) {
            issued(c.sub, settings.issuer, settings.expiration, now)
        } else {
            Err(IdentityError::UserIsNotPresent)
        },
    }
}

/// Issues a new session claim to the bearer of a good token, at the time
/// `now`.
pub fn get_new_token_at(token: TokenHolderViewModel, db: &UserStore, config: &ClaimConfig, now: i64) -> (r:
    Result<Claim, IdentityError>)
    requires
        i64::MIN <= now + config@.expiration <= i64::MAX,
    ensures
        claim_result(r) == renewed(token.token_text(), db@, config@, now as int),
{
    match Claim::decode_token_at(token.get_token(), config, now) {
        Ok(claim) => {
            if db.is_id_taken(claim.sub.as_str()) {
                return Claim::issue(
                    claim.sub.as_str(),
                    config.get_issuer(),
                    config.get_expiration(),
                    now,
                );
            }
            Err(IdentityError::UserIsNotPresent)
        },
        Err(e) => Err(e),
    }
}

/// Issues a new session claim to the bearer of a good token, now.
pub fn get_new_token(token: TokenHolderViewModel, db: &UserStore, config: &ClaimConfig) -> (r: Result<
    Claim,
    IdentityError,
>)
    ensures
        exists|now: int|
            is_clock_time(now) && claim_result(r) == #[trigger] renewed(
                token.token_text(),
                db@,
                config@,
                now,
            ),
{
    let now = now_seconds();
    config.holds_bounds();
    get_new_token_at(token, db, config, now)
}

/// What is shown of the user under `id`, if there is one.
pub fn get_user_info(id: &str, db: &UserStore) -> (r: Option<PersonInfoViewModel>)
    ensures
        match found_by_id(db@, id@) {
            Some(u) => r matches Some(info) && shows(info@, u),
            None => r is None,
        },
{
    match db.get_user_by_uuid(id) {
        Some(user) => Some(PersonInfoViewModel::from_identity_user(&user)),
        None => None,
    }
}

/// Who changes the password with `token` at the time `now`, or why the
/// change is refused.
pub open spec fn password_changer(
    token: Seq<char>,
    pwd: Seq<char>,
    confirm: Seq<char>,
    users: Seq<UserRecord>,
    settings: ClaimSettings,
    now: int,
) -> Result<UserRecord, IdentityError> {
    if token.len() == 0 {
        Err(IdentityError::TokenIsEmpty)
    } else if pwd.len() == 0 {
        Err(IdentityError::PasswordIsEmpty)
    } else if pwd != confirm {
        Err(IdentityError::PasswordAndPasswordConfirmedNotEqual)
    } else {
        match resolved(token, users, settings, now) {
            Err(e) => Err(e),
            Ok(u) => if !password_fits(pwd) {
                Err(IdentityError::PasswordCannotBeMade)
            } else {
                Ok(u)
            },
        }
    }
}

/// The store `after` is the store `before` with a new credential for `pwd`
/// in the record of the user `u`.
pub open spec fn credential_replaced(
    before: Seq<UserRecord>,
    after: Seq<UserRecord>,
    u: UserRecord,
    pwd: Seq<char>,
) -> bool {
    exists|p: UserRecord| #[trigger] recredentialed(u, p, pwd) && after == updated(before, u.id, p)
}

/// Gives the bearer of `token` a new password, at the time `now`. Where the
/// change is refused the store stays as it is.
pub fn change_password_at(
    token: &str,
    model: ChangePasswordViewModel,
    db: &mut UserStore,
    config: &ClaimConfig,
    now: i64,
) -> (r: Result<bool, IdentityError>)
    ensures
        match password_changer(
            token@,
            model.password_text(),
            model.confirm_password_text(),
            old(db)@,
            config@,
            now as int,
        ) {
            Err(e) => r == Err::<bool, IdentityError>(e) && final(db)@ == old(db)@,
            Ok(u) => r == Ok::<bool, IdentityError>(true) && credential_replaced(
                old(db)@,
                final(db)@,
                u,
                model.password_text(),
            ),
        },
{
    if token.is_empty() {
        return Err(IdentityError::TokenIsEmpty);
    }
    if model.get_password().is_empty() {
        return Err(IdentityError::PasswordIsEmpty);
    }
    if !same_text(model.get_password(), model.get_confirm_password()) {
        return Err(IdentityError::PasswordAndPasswordConfirmedNotEqual);
    }
    let mut user = match Claim::token_to_user_at(token, db, config, now) {
        Ok(user) => user,
        Err(e) => {
            return Err(e);
        },
    };
    let ghost found = user@;
    let ghost before = db@;
    proof {
        let c = decoded(token@, config@, now as int)->Ok_0;
        lemma_found_has_id(db@, c.sub);
    }
    match user.set_password(model.get_password()) {
        Ok(_) => {
            db.holds_well_formed();
            proof {
                lemma_update_of_found(db@, found, user@);
            }
            match db.update_user(user.get_id(), &user) {
                Ok(_) => {
                    assert(recredentialed(found, user@, model.password_text()) && db@ == updated(
                        before,
                        found.id,
                        user@,
                    ));
                    Ok(true)
                },
                Err(e) => Err(e),
            }
        },
        Err(e) => Err(e),
    }
}

/// Gives the bearer of `token` a new password, now.
pub fn change_password(token: &str, model: ChangePasswordViewModel, db: &mut UserStore, config: &ClaimConfig) -> (r:
    Result<bool, IdentityError>)
    ensures
        exists|now: int|
            is_clock_time(now) && match #[trigger] password_changer(
                token@,
                model.password_text(),
                model.confirm_password_text(),
                old(db)@,
                config@,
                now,
            ) {
                Err(e) => r == Err::<bool, IdentityError>(e) && final(db)@ == old(db)@,
                Ok(u) => r == Ok::<bool, IdentityError>(true) && credential_replaced(
                    old(db)@,
                    final(db)@,
                    u,
                    model.password_text(),
                ),
            },
{
    let now = now_seconds();
    let ghost before = db@;
    let ghost pwd = model.password_text();
    let ghost confirm = model.confirm_password_text();
    let r = change_password_at(token, model, db, config, now);
    assert(is_clock_time(now as int) && match password_changer(
        token@,
        pwd,
        confirm,
        before,
        config@,
        now as int,
    ) {
        Err(e) => r == Err::<bool, IdentityError>(e) && db@ == before,
        Ok(u) => r == Ok::<bool, IdentityError>(true) && credential_replaced(before, db@, u, pwd),
    });
    r
}

/// What the bearer of `token` gets at the time `now` who asks to be
/// deleted. The request goes through where the password is the user's or
/// the deletion is confirmed; the deletion itself refuses the administrator.
pub open spec fn self_deletion(
    token: Seq<char>,
    pwd: Seq<char>,
    confirmed: bool,
    users: Seq<UserRecord>,
    settings: ClaimSettings,
    now: int,
) -> Result<bool, IdentityError> {
    match decoded(token, settings, now) {
        Err(e) => Err(e),
        Ok(c) => match found_by_id(users, c.sub) {
            None => Err(IdentityError::UserIsNotPresent),
            Some(u) => if !password_matches(u.hashed_password, pwd) && !confirmed {
                Err(IdentityError::UserDeleteFailed)
            } else {
                match delete_answer(users, u.id) {
                    Ok(_) => Ok(true),
                    Err(e) => Err(e),
                }
            },
        },
    }
}

/// The users after the bearer of `token` asked to be deleted at the time
/// `now`.
pub open spec fn after_self_deletion(
    token: Seq<char>,
    pwd: Seq<char>,
    confirmed: bool,
    users: Seq<UserRecord>,
    settings: ClaimSettings,
    now: int,
) -> Seq<UserRecord> {
    if self_deletion(token, pwd, confirmed, users, settings, now) is Ok {
        deleted(users, decoded(token, settings, now)->Ok_0.sub)
    } else {
        users
    }
}

/// Deletes the bearer of `token`, at the time `now`.
pub fn delete_user_at(
    token: &str,
    model: DeleteUserViewModel,
    db: &mut UserStore,
    config: &ClaimConfig,
    now: i64,
) -> (r: Result<bool, IdentityError>)
    ensures
        r == self_deletion(
            token@,
            model.password_text(),
            model.delete_confirmed_flag(),
            old(db)@,
            config@,
            now as int,
        ),
        final(db)@ == after_self_deletion(
            token@,
            model.password_text(),
            model.delete_confirmed_flag(),
            old(db)@,
            config@,
            now as int,
        ),
{
    let claim = match Claim::decode_token_at(token, config, now) {
        Ok(claim) => claim,
        Err(e) => {
            return Err(e);
        },
    };
    proof {
        lemma_found_has_id(db@, claim@.sub);
    }
    match db.get_user_by_uuid(claim.sub.as_str()) {
        Some(user) => {
            if !user.check_pwd(model.get_password()) && !model.is_delete_confirmed() {
                return Err(IdentityError::UserDeleteFailed);
            }
            match db.delete_user(user.get_id()) {
                Ok(_) => Ok(true),
                Err(e) => Err(e),
            }
        },
        None => Err(IdentityError::UserIsNotPresent),
    }
}

/// Deletes the bearer of `token`, now.
pub fn delete_user(token: &str, model: DeleteUserViewModel, db: &mut UserStore, config: &ClaimConfig) -> (r:
    Result<bool, IdentityError>)
    ensures
        exists|now: int|
            is_clock_time(now) && r == #[trigger] self_deletion(
                token@,
                model.password_text(),
                model.delete_confirmed_flag(),
                old(db)@,
                config@,
                now,
            ) && final(db)@ == after_self_deletion(
                token@,
                model.password_text(),
                model.delete_confirmed_flag(),
                old(db)@,
                config@,
                now,
            ),
{
    let now = now_seconds();
    let ghost before = db@;
    let ghost pwd = model.password_text();
    let ghost confirmed = model.delete_confirmed_flag();
    let r = delete_user_at(token, model, db, config, now);
    assert(is_clock_time(now as int) && r == self_deletion(
        token@,
        pwd,
        confirmed,
        before,
        config@,
        now as int,
    ) && db@ == after_self_deletion(token@, pwd, confirmed, before, config@, now as int));
    r
}

/// The text of the error for an empty flag.
pub open spec fn flag_missing() -> Seq<char> {
    "A flag cannot be empty"@
}

/// What a change of the flags of the bearer of `token` answers and does at
/// the time `now`: the flag is added where `adding` says so, else removed.
pub open spec fn flag_change(
    r: Result<bool, IdentityError>,
    before: Seq<UserRecord>,
    after: Seq<UserRecord>,
    token: Seq<char>,
    flag: Seq<char>,
    adding: bool,
    settings: ClaimSettings,
    now: int,
) -> bool {
    if flag.len() == 0 {
        r matches Err(e) && e.is_custom(flag_missing()) && after == before
    } else {
        match resolved(token, before, settings, now) {
            Err(e) => r == Err::<bool, IdentityError>(e) && after == before,
            Ok(u) => r == Ok::<bool, IdentityError>(true) && after == updated(
                before,
                u.id,
                UserRecord {
                    flags: if adding {
                        u.flags.insert(flag)
                    } else {
                        u.flags.remove(flag)
                    },
                    ..u
                },
            ),
        }
    }
}

/// Gives the bearer of `token` the flag of the request, at the time `now`.
pub fn add_flag_of_user_at(
    token: &str,
    model: FlagHolder,
    db: &mut UserStore,
    config: &ClaimConfig,
    now: i64,
) -> (r: Result<bool, IdentityError>)
    ensures
        flag_change(
            r,
            old(db)@,
            final(db)@,
            token@,
            model.flag_text(),
            true,
            config@,
            now as int,
        ),
{
    if model.get_flag().is_empty() {
        return Err(IdentityError::CustomError("A flag cannot be empty".to_owned()));
    }
    let mut user = match Claim::token_to_user_at(token, db, config, now) {
        Ok(user) => user,
        Err(e) => {
            return Err(e);
        },
    };
    let ghost found = user@;
    proof {
        let c = decoded(token@, config@, now as int)->Ok_0;
        lemma_found_has_id(db@, c.sub);
    }
    user.add_flag(model.get_flag());
    db.holds_well_formed();
    proof {
        lemma_update_of_found(db@, found, user@);
    }
    db.update_user(user.get_id(), &user)
}

/// Gives the bearer of `token` the flag of the request, now.
pub fn add_flag_of_user(token: &str, model: FlagHolder, db: &mut UserStore, config: &ClaimConfig) -> (r:
    Result<bool, IdentityError>)
    ensures
        exists|now: int|
            is_clock_time(now) && #[trigger] flag_change(
                r,
                old(db)@,
                final(db)@,
                token@,
                model.flag_text(),
                true,
                config@,
                now,
            ),
{
    let now = now_seconds();
    let ghost before = db@;
    let ghost flag = model.flag_text();
    let r = add_flag_of_user_at(token, model, db, config, now);
    assert(is_clock_time(now as int) && flag_change(
        r,
        before,
        db@,
        token@,
        flag,
        true,
        config@,
        now as int,
    ));
    r
}

/// Takes the flag of the request from the bearer of `token`, at the time
/// `now`.
pub fn remove_flag_of_user_at(
    token: &str,
    model: FlagHolder,
    db: &mut UserStore,
    config: &ClaimConfig,
    now: i64,
) -> (r: Result<bool, IdentityError>)
    ensures
        flag_change(
            r,
            old(db)@,
            final(db)@,
            token@,
            model.flag_text(),
            false,
            config@,
            now as int,
        ),
{
    if model.get_flag().is_empty() {
        return Err(IdentityError::CustomError("A flag cannot be empty".to_owned()));
    }
    let mut user = match Claim::token_to_user_at(token, db, config, now) {
        Ok(user) => user,
        Err(e) => {
            return Err(e);
        },
    };
    let ghost found = user@;
    proof {
        let c = decoded(token@, config@, now as int)->Ok_0;
        lemma_found_has_id(db@, c.sub);
    }
    user.remove_flag(model.get_flag());
    db.holds_well_formed();
    proof {
        lemma_update_of_found(db@, found, user@);
    }
    db.update_user(user.get_id(), &user)
}

/// Takes the flag of the request from the bearer of `token`, now.
pub fn remove_flag_of_user(token: &str, model: FlagHolder, db: &mut UserStore, config: &ClaimConfig) -> (r:
    Result<bool, IdentityError>)
    ensures
        exists|now: int|
            is_clock_time(now) && #[trigger] flag_change(
                r,
                old(db)@,
                final(db)@,
                token@,
                model.flag_text(),
                false,
                config@,
                now,
            ),
{
    let now = now_seconds();
    let ghost before = db@;
    let ghost flag = model.flag_text();
    let r = remove_flag_of_user_at(token, model, db, config, now);
    assert(is_clock_time(now as int) && flag_change(
        r,
        before,
        db@,
        token@,
        flag,
        false,
        config@,
        now as int,
    ));
    r
}

/// Gives the user `user_id` a recovery token and returns it, to be sent to
/// the user.
pub fn demand_email_changing_password(token_map: &mut HashMapTokenPasswordChange, user_id: &str) -> (r:
    Result<String, IdentityError>)
    ensures
        final(token_map).duration() == old(token_map).duration(),
        r matches Ok(t) && is_recovery_token(t@) && exists|now: int|
            0 <= now && final(token_map)@ == with_request(
                old(token_map)@,
                RequestData {
                    token: t@,
                    user_id: user_id@,
                    expires_at: #[trigger] old(token_map).expiry(now),
                },
            ),
{
    match token_map.insert_new_user_request(user_id) {
        Some(token) => Ok(token),
        None => Err(IdentityError::UserCannotBeUpdated),
    }
}

/// The text of the error for a recovery token that is not good.
pub open spec fn token_missing() -> Seq<char> {
    "Could not locate the token needed for changing password"@
}

/// What a change of a forgotten password with the recovery token `token`
/// answers and does at the moment `now`. A token that is not good is
/// refused, and forgotten where it had expired. The two passwords must be
/// the same. Where the token's user is no longer there nothing happens.
/// Else the user gets a new credential, and all recovery tokens of the user
/// are forgotten.
pub open spec fn forgotten_password_changed(
    r: Result<(), IdentityError>,
    tokens_before: Seq<RequestData>,
    tokens_after: Seq<RequestData>,
    users_before: Seq<UserRecord>,
    users_after: Seq<UserRecord>,
    token: Seq<char>,
    pwd: Seq<char>,
    confirm: Seq<char>,
    now: int,
) -> bool {
    if !is_good(tokens_before, token, now) {
        &&& r matches Err(e) && e.is_custom(token_missing())
        &&& tokens_after == without_token(tokens_before, token)
        &&& users_after == users_before
    } else if confirm != pwd {
        &&& r == Err::<(), IdentityError>(IdentityError::PasswordAndPasswordConfirmedNotEqual)
        &&& tokens_after == tokens_before
        &&& users_after == users_before
    } else {
        let user_id = request_of(tokens_before, token)->0.user_id;
        match found_by_id(users_before, user_id) {
            None => r is Ok && tokens_after == tokens_before && users_after == users_before,
            Some(u) => if pwd.len() == 0 {
                &&& r == Err::<(), IdentityError>(IdentityError::PasswordIsEmpty)
                &&& tokens_after == tokens_before
                &&& users_after == users_before
            } else if !password_fits(pwd) {
                &&& r == Err::<(), IdentityError>(IdentityError::PasswordCannotBeMade)
                &&& tokens_after == tokens_before
                &&& users_after == users_before
            } else {
                &&& r is Ok
                &&& tokens_after == without_user(tokens_before, user_id)
                &&& credential_replaced(users_before, users_after, u, pwd)
            },
        }
    }
}

/// Changes a forgotten password with a recovery token, at the moment `now`
/// in nanoseconds since the Unix epoch.
pub fn change_forgotten_password_at(
    token_map: &mut HashMapTokenPasswordChange,
    token: ChangeForgottenPassword,
    store: &mut UserStore,
    now: i128,
) -> (r: Result<(), IdentityError>)
    ensures
        final(token_map).duration() == old(token_map).duration(),
        forgotten_password_changed(
            r,
            old(token_map)@,
            final(token_map)@,
            old(store)@,
            final(store)@,
            token.token_forgotten_pwd_text(),
            token.password_text(),
            token.confirm_password_text(),
            now as int,
        ),
{
    if !token_map.is_token_okay_at(token.get_token_forgotten_pwd(), now) {
        return Err(
            IdentityError::CustomError(
                "Could not locate the token needed for changing password".to_owned(),
            ),
        );
    }
    if !same_text(token.get_confirm_password(), token.get_password()) {
        return Err(IdentityError::PasswordAndPasswordConfirmedNotEqual);
    }
    let user_id = match token_map.get_user_id_from_token(token.get_token_forgotten_pwd()) {
        Some(user_id) => user_id,
        None => {
            return Ok(());
        },
    };
    let mut user = match store.get_user_by_uuid(user_id.as_str()) {
        Some(user) => user,
        None => {
            return Ok(());
        },
    };
    let ghost found = user@;
    let ghost before = store@;
    proof {
        lemma_found_has_id(store@, user_id@);
    }
    match user.set_password(token.get_password()) {
        Ok(_) => {},
        Err(e) => {
            return Err(e);
        },
    }
    store.holds_well_formed();
    proof {
        lemma_update_of_found(store@, found, user@);
    }
    match store.update_user(user_id.as_str(), &user) {
        Ok(_) => {},
        Err(e) => {
            return Err(e);
        },
    }
    assert(recredentialed(found, user@, token.password_text()) && store@ == updated(
        before,
        found.id,
        user@,
    ));
    token_map.delete_tokens_from_id(user_id.as_str());
    Ok(())
}

/// Changes a forgotten password with a recovery token, now.
pub fn change_forgotten_password(
    token_map: &mut HashMapTokenPasswordChange,
    token: ChangeForgottenPassword,
    store: &mut UserStore,
) -> (r: Result<(), IdentityError>)
    ensures
        final(token_map).duration() == old(token_map).duration(),
        exists|now: int|
            0 <= now && #[trigger] forgotten_password_changed(
                r,
                old(token_map)@,
                final(token_map)@,
                old(store)@,
                final(store)@,
                token.token_forgotten_pwd_text(),
                token.password_text(),
                token.confirm_password_text(),
                now,
            ),
{
    let now = now_nanos();
    let ghost tokens_before = token_map@;
    let ghost users_before = store@;
    let ghost text = token.token_forgotten_pwd_text();
    let ghost pwd = token.password_text();
    let ghost confirm = token.confirm_password_text();
    let r = change_forgotten_password_at(token_map, token, store, now);
    assert(0 <= now && forgotten_password_changed(
        r,
        tokens_before,
        token_map@,
        users_before,
        store@,
        text,
        pwd,
        confirm,
        now as int,
    ));
    r
}

} // verus!
