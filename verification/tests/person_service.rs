use identity::claim::Claim;
use identity::claim::ClaimConfig;
use identity::err::IdentityError;
use identity::map_token_pwd::HashMapTokenPasswordChange;
use identity::repo::user_repo::UserStore;
use identity::service::person_service;
use identity::traits::t_user::UserTrait;
use identity::traits::t_user_manager::UserStoreTrait;
use identity::viewmodels::auth::change_pwd::ChangeForgottenPassword;
use identity::viewmodels::auth::delete_user::DeleteUserViewModel;
use identity::viewmodels::auth::flag::FlagHolder;
use identity::viewmodels::auth::login::LoginViewModel;
use identity::viewmodels::auth::registration::RegistrationViewModel;
use identity::viewmodels::auth::token::TokenHolderViewModel;
use identity::viewmodels::auth::update_pwd::ChangePasswordViewModel;
use identity::viewmodels::auth::update_user::UpdateUserViewModel;

const NOW: i64 = 1_700_000_000;
const SECOND: i128 = 1_000_000_000;

fn config() -> ClaimConfig {
    ClaimConfig::new("identity", "secret", 3600, 600).unwrap()
}

fn token_for(id: &str, cfg: &ClaimConfig) -> String {
    Claim::issue(id, cfg.get_issuer(), 3600, NOW)
        .unwrap()
        .token_from_user(cfg)
        .unwrap()
}

fn store_with_alice() -> UserStore {
    let mut db = UserStore::new();
    person_service::add_user(
        RegistrationViewModel::new("alice@example.com", "pw1", "pw1"),
        "alice-id",
        &mut db,
    )
    .unwrap();
    db
}

#[test]
fn registered_user_logs_in() {
    let cfg = config();
    let db = store_with_alice();
    let alice = db.get_user_by_email("alice@example.com").unwrap();
    let claim = person_service::check_credentials_at(
        LoginViewModel::new("alice@example.com", "pw1"),
        &db,
        &cfg,
        NOW,
    )
    .unwrap();
    assert_eq!(claim.sub, alice.get_id());
    assert_eq!(claim.sub, "alice-id");
    assert_eq!(claim.iss, "identity");
    assert_eq!(claim.iat, NOW);
    assert_eq!(claim.exp, NOW + 3600);
    assert_eq!(
        person_service::check_credentials_at(
            LoginViewModel::new("alice@example.com", "wrong"),
            &db,
            &cfg,
            NOW
        ),
        Err(IdentityError::PasswordIsNotCorrect)
    );
    assert_eq!(
        person_service::check_credentials_at(LoginViewModel::new("alice@example.com", ""), &db, &cfg, NOW),
        Err(IdentityError::PasswordIsNotCorrect)
    );
    assert_eq!(
        person_service::check_credentials_at(LoginViewModel::new("bob@example.com", "pw1"), &db, &cfg, NOW),
        Err(IdentityError::UserIsNotPresent)
    );
    let live = person_service::check_credentials(LoginViewModel::new("alice@example.com", "pw1"), &db, &cfg).unwrap();
    assert_eq!(live.sub, "alice-id");
    assert_eq!(live.exp - live.iat, 3600);
    assert_eq!(
        person_service::check_credentials(LoginViewModel::new("alice@example.com", "wrong"), &db, &cfg),
        Err(IdentityError::PasswordIsNotCorrect)
    );
}

#[test]
fn sign_up_refuses_in_order() {
    let mut db = store_with_alice();
    let mut try_it = |email: &str, pwd: &str, confirm: &str, id: &str| {
        person_service::add_user(RegistrationViewModel::new(email, pwd, confirm), id, &mut db).err()
    };
    assert_eq!(
        try_it("alice@example.com", "a", "b", "alice-id"),
        Some(IdentityError::PasswordAndPasswordConfirmedNotEqual)
    );
    assert_eq!(
        try_it("alice@example.com", "a", "a", "bob-id"),
        Some(IdentityError::EmailIsAlreadyTaken)
    );
    assert_eq!(try_it("", "a", "a", "bob-id"), Some(IdentityError::EmailIsEmpty));
    assert_eq!(try_it("bob@example.com", "", "", "bob-id"), Some(IdentityError::PasswordIsEmpty));
    assert_eq!(try_it("@", "a", "a", "bob-id"), Some(IdentityError::EmailNotCorrectFormat));
    assert_eq!(
        try_it("bob@example.com", "a", "a", "alice-id"),
        Some(IdentityError::UserCannotBeAdded)
    );
    assert_eq!(try_it("bob@example.com", "a", "a", "bob-id"), None);
    assert_eq!(db.len(), 2);
}

#[test]
fn user_changes_address_and_name() {
    let cfg = config();
    let mut db = store_with_alice();
    person_service::add_user(RegistrationViewModel::new("bob@example.com", "pw2", "pw2"), "bob-id", &mut db).unwrap();
    let token = token_for("alice-id", &cfg);
    assert_eq!(
        person_service::update_user_at(
            &token,
            UpdateUserViewModel::new(Some("alice@home.org".to_string()), Some("Alice".to_string())),
            &mut db,
            &cfg,
            NOW
        ),
        Ok(true)
    );
    let alice = db.get_user_by_uuid("alice-id").unwrap();
    assert_eq!(alice.get_email(), "alice@home.org");
    assert_eq!(alice.get_user_name(), "Alice");
    assert!(alice.check_pwd("pw1"));
    // An address that is taken is passed over; the name is changed all the same.
    assert_eq!(
        person_service::update_user_at(
            &token,
            UpdateUserViewModel::new(Some("bob@example.com".to_string()), Some("Al".to_string())),
            &mut db,
            &cfg,
            NOW
        ),
        Ok(true)
    );
    let alice = db.get_user_by_uuid("alice-id").unwrap();
    assert_eq!(alice.get_email(), "alice@home.org");
    assert_eq!(alice.get_user_name(), "Al");
    assert_eq!(
        person_service::update_user_at(&token, UpdateUserViewModel::new(None, None), &mut db, &cfg, NOW),
        Ok(true)
    );
    assert_eq!(
        person_service::update_user_at(
            &token,
            UpdateUserViewModel::new(Some("".to_string()), Some("X".to_string())),
            &mut db,
            &cfg,
            NOW
        ),
        Err(IdentityError::EmailIsEmpty)
    );
    assert_eq!(
        person_service::update_user_at(
            &token,
            UpdateUserViewModel::new(Some("??".to_string()), None),
            &mut db,
            &cfg,
            NOW
        ),
        Err(IdentityError::EmailNotCorrectFormat)
    );
    assert_eq!(db.get_user_by_uuid("alice-id").unwrap().get_user_name(), "Al");
    assert_eq!(
        person_service::update_user_at(&token, UpdateUserViewModel::new(None, None), &mut db, &cfg, NOW + 3601),
        Err(IdentityError::SignatureHasExpired)
    );
    assert_eq!(
        person_service::update_user("", UpdateUserViewModel::new(None, None), &mut db, &cfg),
        Err(IdentityError::TokenIsEmpty)
    );
}

#[test]
fn token_is_checked_and_renewed() {
    let cfg = config();
    let mut db = store_with_alice();
    let token = token_for("alice-id", &cfg);
    assert_eq!(
        person_service::check_token_at(&token, &db, &cfg, NOW).unwrap().get_email(),
        "alice@example.com"
    );
    assert_eq!(
        person_service::check_token_at(&token, &db, &cfg, NOW + 3601).err(),
        Some(IdentityError::SignatureHasExpired)
    );
    assert_eq!(
        person_service::check_token("nonsense", &db, &cfg).err(),
        Some(IdentityError::TokenIsInvalid)
    );
    let renewed = person_service::get_new_token_at(TokenHolderViewModel::new(&token), &db, &cfg, NOW + 100).unwrap();
    assert_eq!(renewed.sub, "alice-id");
    assert_eq!(renewed.iat, NOW + 100);
    assert_eq!(renewed.exp, NOW + 3700);
    assert_eq!(
        person_service::get_new_token_at(TokenHolderViewModel::new(&token), &db, &cfg, NOW + 3601),
        Err(IdentityError::SignatureHasExpired)
    );
    assert_eq!(
        person_service::get_new_token(TokenHolderViewModel::new(""), &db, &cfg),
        Err(IdentityError::TokenIsEmpty)
    );
    db.delete_user("alice-id").unwrap();
    assert_eq!(
        person_service::get_new_token_at(TokenHolderViewModel::new(&token), &db, &cfg, NOW),
        Err(IdentityError::UserIsNotPresent)
    );
    assert_eq!(
        person_service::check_token_at(&token, &db, &cfg, NOW).err(),
        Some(IdentityError::UserNotFound)
    );
}

#[test]
fn user_info_shows_the_record() {
    let mut db = store_with_alice();
    db.setup().unwrap();
    let mut alice = db.get_user_by_uuid("alice-id").unwrap();
    alice.add_flag("editor");
    alice.set_user_name("Alice");
    db.update_user("alice-id", &alice).unwrap();
    let info = person_service::get_user_info("alice-id", &db).unwrap();
    assert_eq!(info.get_id(), "alice-id");
    assert_eq!(info.get_email(), "alice@example.com");
    assert_eq!(info.get_user_name(), "Alice");
    assert!(!info.is_admin());
    assert_eq!(info.get_flags(), &vec!["editor".to_string()]);
    assert!(person_service::get_user_info("ADMIN", &db).unwrap().is_admin());
    assert!(person_service::get_user_info("nobody", &db).is_none());
}

#[test]
fn user_changes_the_password() {
    let cfg = config();
    let mut db = store_with_alice();
    let token = token_for("alice-id", &cfg);
    let before = db.get_user_by_uuid("alice-id").unwrap();
    let mut try_it = |token: &str, pwd: &str, confirm: &str, now: i64| {
        person_service::change_password_at(token, ChangePasswordViewModel::new(pwd, confirm), &mut db, &cfg, now)
    };
    assert_eq!(try_it("", "", "x", NOW), Err(IdentityError::TokenIsEmpty));
    assert_eq!(try_it(&token, "", "x", NOW), Err(IdentityError::PasswordIsEmpty));
    assert_eq!(
        try_it(&token, "new", "nwe", NOW),
        Err(IdentityError::PasswordAndPasswordConfirmedNotEqual)
    );
    assert_eq!(try_it("abc", "new", "new", NOW), Err(IdentityError::TokenIsInvalid));
    assert_eq!(try_it(&token, "new", "new", NOW + 3601), Err(IdentityError::SignatureHasExpired));
    assert_eq!(try_it(&token, "new", "new", NOW), Ok(true));
    let after = db.get_user_by_uuid("alice-id").unwrap();
    assert!(after.check_pwd("new"));
    assert!(!after.check_pwd("pw1"));
    assert_ne!(after.get_hashed_password(), before.get_hashed_password());
    assert_eq!(after.get_email(), "alice@example.com");
    let live = token_for_now(&cfg);
    assert_eq!(
        person_service::change_password(&live, ChangePasswordViewModel::new("newer", "newer"), &mut db, &cfg),
        Ok(true)
    );
    assert!(db.check_user_password("alice@example.com", "newer").unwrap());
}

fn token_for_now(cfg: &ClaimConfig) -> String {
    Claim::new_read_write_claim("alice-id", cfg)
        .unwrap()
        .token_from_user(cfg)
        .unwrap()
}

#[test]
fn user_deletes_the_own_account() {
    let cfg = config();
    let mut db = store_with_alice();
    db.setup().unwrap();
    let token = token_for("alice-id", &cfg);
    assert_eq!(
        person_service::delete_user_at(&token, DeleteUserViewModel::new("wrong", false), &mut db, &cfg, NOW),
        Err(IdentityError::UserDeleteFailed)
    );
    assert_eq!(
        person_service::delete_user_at("", DeleteUserViewModel::new("pw1", true), &mut db, &cfg, NOW),
        Err(IdentityError::TokenIsEmpty)
    );
    assert!(db.is_id_taken("alice-id"));
    assert_eq!(
        person_service::delete_user_at(&token, DeleteUserViewModel::new("pw1", false), &mut db, &cfg, NOW),
        Ok(true)
    );
    assert!(!db.is_id_taken("alice-id"));
    assert_eq!(
        person_service::delete_user_at(&token, DeleteUserViewModel::new("pw1", true), &mut db, &cfg, NOW),
        Err(IdentityError::UserIsNotPresent)
    );
    let admin = token_for("ADMIN", &cfg);
    assert_eq!(
        person_service::delete_user_at(&admin, DeleteUserViewModel::new("ADMIN", true), &mut db, &cfg, NOW),
        Err(IdentityError::IdEqualsAdmin)
    );
    assert_eq!(
        person_service::delete_user(&admin, DeleteUserViewModel::new("ADMIN", true), &mut db, &cfg),
        Err(IdentityError::SignatureHasExpired)
    );
    assert!(db.is_id_taken("ADMIN"));
}

#[test]
fn confirmed_deletion_needs_no_password() {
    let cfg = config();
    let mut db = store_with_alice();
    let token = token_for("alice-id", &cfg);
    assert_eq!(
        person_service::delete_user_at(&token, DeleteUserViewModel::new("wrong", true), &mut db, &cfg, NOW),
        Ok(true)
    );
    assert_eq!(db.len(), 0);
}

#[test]
fn user_sets_and_clears_flags() {
    let cfg = config();
    let mut db = store_with_alice();
    let token = token_for("alice-id", &cfg);
    assert_eq!(
        person_service::add_flag_of_user_at(&token, FlagHolder::new(""), &mut db, &cfg, NOW),
        Err(IdentityError::CustomError("A flag cannot be empty".to_string()))
    );
    assert_eq!(
        person_service::remove_flag_of_user_at(&token, FlagHolder::new(""), &mut db, &cfg, NOW),
        Err(IdentityError::CustomError("A flag cannot be empty".to_string()))
    );
    assert_eq!(
        person_service::add_flag_of_user_at(&token, FlagHolder::new("editor"), &mut db, &cfg, NOW),
        Ok(true)
    );
    assert_eq!(
        person_service::add_flag_of_user_at(&token, FlagHolder::new("editor"), &mut db, &cfg, NOW),
        Ok(true)
    );
    assert_eq!(
        person_service::add_flag_of_user_at(&token, FlagHolder::new("owner"), &mut db, &cfg, NOW),
        Ok(true)
    );
    assert_eq!(
        db.get_user_by_uuid("alice-id").unwrap().get_flag_list(),
        vec!["editor".to_string(), "owner".to_string()]
    );
    assert_eq!(
        person_service::remove_flag_of_user_at(&token, FlagHolder::new("editor"), &mut db, &cfg, NOW),
        Ok(true)
    );
    assert_eq!(
        person_service::remove_flag_of_user_at(&token, FlagHolder::new("nothing"), &mut db, &cfg, NOW),
        Ok(true)
    );
    assert_eq!(
        db.get_user_by_uuid("alice-id").unwrap().get_flag_list(),
        vec!["owner".to_string()]
    );
    assert_eq!(
        person_service::add_flag_of_user_at(&token, FlagHolder::new("x"), &mut db, &cfg, NOW + 3601),
        Err(IdentityError::SignatureHasExpired)
    );
    assert_eq!(
        person_service::add_flag_of_user("", FlagHolder::new("x"), &mut db, &cfg),
        Err(IdentityError::TokenIsEmpty)
    );
    assert_eq!(
        person_service::remove_flag_of_user("", FlagHolder::new("x"), &mut db, &cfg),
        Err(IdentityError::TokenIsEmpty)
    );
}

#[test]
fn forgotten_password_is_changed_with_a_recovery_token() {
    let mut db = store_with_alice();
    let mut map = HashMapTokenPasswordChange::new(60);
    map.insert_request("tok-1", "alice-id", 0);
    map.insert_request("tok-2", "alice-id", 0);
    map.insert_request("tok-3", "bob-id", 0);
    assert_eq!(
        person_service::change_forgotten_password_at(
            &mut map,
            ChangeForgottenPassword::new("none", "new", "new"),
            &mut db,
            0
        ),
        Err(IdentityError::CustomError(
            "Could not locate the token needed for changing password".to_string()
        ))
    );
    assert_eq!(
        person_service::change_forgotten_password_at(
            &mut map,
            ChangeForgottenPassword::new("tok-1", "new", "nwe"),
            &mut db,
            0
        ),
        Err(IdentityError::PasswordAndPasswordConfirmedNotEqual)
    );
    assert_eq!(
        person_service::change_forgotten_password_at(
            &mut map,
            ChangeForgottenPassword::new("tok-1", "", ""),
            &mut db,
            0
        ),
        Err(IdentityError::PasswordIsEmpty)
    );
    assert_eq!(map.len(), 3);
    assert!(db.check_user_password("alice@example.com", "pw1").unwrap());
    assert_eq!(
        person_service::change_forgotten_password_at(
            &mut map,
            ChangeForgottenPassword::new("tok-1", "new", "new"),
            &mut db,
            60 * SECOND
        ),
        Ok(())
    );
    assert!(db.check_user_password("alice@example.com", "new").unwrap());
    assert!(!db.check_user_password("alice@example.com", "pw1").unwrap());
    assert_eq!(map.len(), 1);
    assert_eq!(map.get_user_id_from_token("tok-3"), Some("bob-id".to_string()));
    // The token of a user who is gone changes nothing.
    assert_eq!(
        person_service::change_forgotten_password_at(
            &mut map,
            ChangeForgottenPassword::new("tok-3", "new", "new"),
            &mut db,
            0
        ),
        Ok(())
    );
    assert_eq!(map.len(), 1);
    // A token that ran out is refused and forgotten.
    assert_eq!(
        person_service::change_forgotten_password_at(
            &mut map,
            ChangeForgottenPassword::new("tok-3", "new", "new"),
            &mut db,
            60 * SECOND + 1
        ),
        Err(IdentityError::CustomError(
            "Could not locate the token needed for changing password".to_string()
        ))
    );
    assert_eq!(map.len(), 0);
}

#[test]
fn recovery_token_is_asked_for_and_used() {
    let mut db = store_with_alice();
    let mut map = HashMapTokenPasswordChange::new(60);
    let token = person_service::demand_email_changing_password(&mut map, "alice-id").unwrap();
    assert_eq!(token.len(), 40);
    assert_eq!(map.get_user_id_from_token(&token), Some("alice-id".to_string()));
    assert_eq!(
        person_service::change_forgotten_password(
            &mut map,
            ChangeForgottenPassword::new(&token, "fresh", "fresh"),
            &mut db
        ),
        Ok(())
    );
    assert!(db.check_user_password("alice@example.com", "fresh").unwrap());
    assert_eq!(map.len(), 0);
    assert_eq!(
        person_service::change_forgotten_password(
            &mut map,
            ChangeForgottenPassword::new(&token, "again", "again"),
            &mut db
        ),
        Err(IdentityError::CustomError(
            "Could not locate the token needed for changing password".to_string()
        ))
    );
}
