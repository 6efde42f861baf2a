use identity::claim::Claim;
use identity::claim::ClaimConfig;
use identity::err::IdentityError;
use identity::generic_token::GenericTokenViewModel;
use identity::repo::user_repo::UserStore;
use identity::service::admin_service;
use identity::traits::t_user::UserTrait;
use identity::traits::t_user_manager::UserStoreTrait;
use identity::viewmodels::admin::create_user::AdminCreateUserViewModel;
use identity::viewmodels::admin::delete_user::DeleteUserViewModel;
use identity::viewmodels::admin::update_user::AdminUpdateUserViewModel;
use identity::viewmodels::admin::update_user_pwd::AdminChangePasswordUserViewModel;
use identity::viewmodels::auth::token::TokenHolderViewModel;

const NOW: i64 = 1_700_000_000;

fn config() -> ClaimConfig {
    ClaimConfig::new("identity", "secret", 3600, 600).unwrap()
}

fn token_for(id: &str, cfg: &ClaimConfig) -> String {
    Claim::issue(id, cfg.get_issuer(), 3600, NOW)
        .unwrap()
        .token_from_user(cfg)
        .unwrap()
}

fn store() -> UserStore {
    let mut db = UserStore::new();
    db.setup().unwrap();
    db.create_user_with_personal_id("alice-id", "alice@example.com", "pw1")
        .unwrap();
    db
}

#[test]
fn administrator_creates_a_user() {
    let cfg = config();
    let mut db = store();
    let admin = token_for("ADMIN", &cfg);
    let alice = token_for("alice-id", &cfg);
    let mut try_it = |token: &str, email: &str, pwd: &str, confirm: &str, id: &str, now: i64| {
        admin_service::create_user_at(
            GenericTokenViewModel::new(token, AdminCreateUserViewModel::new(email, pwd, confirm)),
            id,
            &mut db,
            &cfg,
            now,
        )
        .err()
    };
    assert_eq!(
        try_it("", "alice@example.com", "a", "b", "x", NOW),
        Some(IdentityError::PasswordAndPasswordConfirmedNotEqual)
    );
    assert_eq!(
        try_it("", "alice@example.com", "a", "a", "x", NOW),
        Some(IdentityError::EmailIsAlreadyTaken)
    );
    assert_eq!(try_it("", "bob@example.com", "a", "a", "x", NOW), Some(IdentityError::TokenIsEmpty));
    assert_eq!(
        try_it(&admin, "bob@example.com", "a", "a", "x", NOW + 3601),
        Some(IdentityError::SignatureHasExpired)
    );
    assert_eq!(
        try_it(&alice, "bob@example.com", "a", "a", "x", NOW),
        Some(IdentityError::IdEqualsAdmin)
    );
    assert_eq!(
        try_it(&admin, "", "a", "a", "x", NOW),
        Some(IdentityError::CustomError("Email cannot be empty".to_string()))
    );
    assert_eq!(
        try_it(&admin, "bob@example.com", "", "", "x", NOW),
        Some(IdentityError::CustomError("Password cannot be empty".to_string()))
    );
    assert_eq!(
        try_it(&admin, "BOB", "a", "a", "x", NOW),
        Some(IdentityError::CustomError("Email is not in the correct form".to_string()))
    );
    assert_eq!(
        try_it(&admin, "bob@example.com", "a", "a", "alice-id", NOW),
        Some(IdentityError::UserCannotBeAdded)
    );
    assert_eq!(try_it(&admin, "bob@example.com", "a", "a", "bob-id", NOW), None);
    let bob = db.get_user_by_uuid("bob-id").unwrap();
    assert_eq!(bob.get_email(), "bob@example.com");
    assert!(bob.check_pwd("a"));
    assert_eq!(db.len(), 3);
    assert_eq!(
        admin_service::create_user(
            GenericTokenViewModel::new(&admin, AdminCreateUserViewModel::new("c@example.com", "a", "a")),
            "carol-id",
            &mut db,
            &cfg
        )
        .err(),
        Some(IdentityError::SignatureHasExpired)
    );
}

#[test]
fn administrator_deletes_a_user() {
    let cfg = config();
    let mut db = store();
    let admin = token_for("ADMIN", &cfg);
    let alice = token_for("alice-id", &cfg);
    let mut try_it = |token: &str, id: &str, now: i64| {
        admin_service::delete_user_at(
            GenericTokenViewModel::new(token, DeleteUserViewModel::new(id)),
            &mut db,
            &cfg,
            now,
        )
    };
    assert_eq!(try_it(&alice, "alice-id", NOW), Err(IdentityError::IdNotEqualToAdmin));
    assert_eq!(try_it("x.y.z", "alice-id", NOW), Err(IdentityError::TokenIsInvalid));
    assert_eq!(try_it(&admin, "", NOW), Err(IdentityError::IdIsAlreadyTaken));
    assert_eq!(try_it(&admin, "ADMIN", NOW), Err(IdentityError::IdEqualsAdmin));
    assert_eq!(try_it(&admin, "nobody", NOW), Ok(false));
    assert_eq!(try_it(&admin, "alice-id", NOW), Ok(true));
    assert_eq!(try_it(&admin, "alice-id", NOW), Ok(false));
    assert_eq!(db.len(), 1);
    assert_eq!(
        admin_service::delete_user(
            GenericTokenViewModel::new("", DeleteUserViewModel::new("alice-id")),
            &mut db,
            &cfg
        ),
        Err(IdentityError::TokenIsEmpty)
    );
}

#[test]
fn administrator_changes_a_user() {
    let cfg = config();
    let mut db = store();
    let admin = token_for("ADMIN", &cfg);
    let alice = token_for("alice-id", &cfg);
    let mut try_it = |token: &str, id: &str, email: Option<&str>, name: Option<&str>| {
        admin_service::update_user_at(
            GenericTokenViewModel::new(
                token,
                AdminUpdateUserViewModel::new(id, email.map(String::from), name.map(String::from)),
            ),
            &mut db,
            &cfg,
            NOW,
        )
    };
    assert_eq!(try_it(&alice, "alice-id", None, None), Err(IdentityError::IdNotEqualToAdmin));
    assert_eq!(try_it(&admin, "nobody", None, None), Err(IdentityError::UserIsNotPresent));
    assert_eq!(
        try_it(&admin, "alice-id", Some(""), None),
        Err(IdentityError::EmailIsEmpty)
    );
    assert_eq!(
        try_it(&admin, "alice-id", Some("alice@home.org"), Some("Alice")),
        Ok(true)
    );
    assert_eq!(
        try_it(&admin, "alice-id", Some("email.admin@server.com"), None),
        Ok(true)
    );
    let got = db.get_user_by_uuid("alice-id").unwrap();
    assert_eq!(got.get_email(), "alice@home.org");
    assert_eq!(got.get_user_name(), "Alice");
    assert_eq!(
        admin_service::update_user(
            GenericTokenViewModel::new(&admin, AdminUpdateUserViewModel::new("alice-id", None, None)),
            &mut db,
            &cfg
        ),
        Err(IdentityError::SignatureHasExpired)
    );
}

#[test]
fn administrator_gives_a_new_password() {
    let cfg = config();
    let mut db = store();
    let admin = token_for("ADMIN", &cfg);
    let alice = token_for("alice-id", &cfg);
    let mut try_it = |token: &str, id: &str, pwd: &str, confirm: &str| {
        admin_service::update_user_pwd_at(
            GenericTokenViewModel::new(token, AdminChangePasswordUserViewModel::new(id, pwd, confirm)),
            &mut db,
            &cfg,
            NOW,
        )
    };
    assert_eq!(try_it(&alice, "alice-id", "n", "n"), Err(IdentityError::IdNotEqualToAdmin));
    assert_eq!(try_it(&admin, "alice-id", "", ""), Err(IdentityError::PasswordIsEmpty));
    assert_eq!(
        try_it(&admin, "alice-id", "n", "m"),
        Err(IdentityError::PasswordAndPasswordConfirmedNotEqual)
    );
    assert_eq!(try_it(&admin, "nobody", "n", "n"), Err(IdentityError::UserIsNotPresent));
    assert_eq!(try_it(&admin, "alice-id", "n", "n"), Ok(true));
    assert!(db.check_user_password("alice@example.com", "n").unwrap());
    assert!(!db.check_user_password("alice@example.com", "pw1").unwrap());
    assert_eq!(
        admin_service::update_user_pwd(
            GenericTokenViewModel::new("", AdminChangePasswordUserViewModel::new("alice-id", "n", "n")),
            &mut db,
            &cfg
        ),
        Err(IdentityError::TokenIsEmpty)
    );
}

#[test]
fn administrator_lists_the_users() {
    let cfg = config();
    let mut db = store();
    db.create_user_with_personal_id("bob-id", "bob@example.com", "pw2")
        .unwrap();
    let admin = token_for("ADMIN", &cfg);
    let alice = token_for("alice-id", &cfg);
    let all = admin_service::get_all_users_at(TokenHolderViewModel::new(&admin), &db, &cfg, NOW)
        .ok()
        .unwrap();
    assert_eq!(all.users.len(), 2);
    assert_eq!(all.users[0].get_id(), "alice-id");
    assert_eq!(all.users[0].get_email(), "alice@example.com");
    assert_eq!(all.users[1].get_id(), "bob-id");
    assert!(!all.users[0].is_admin());
    assert_eq!(
        admin_service::get_all_users_at(TokenHolderViewModel::new(&alice), &db, &cfg, NOW).err(),
        Some(IdentityError::IdNotEqualToAdmin)
    );
    assert_eq!(
        admin_service::get_all_users_at(TokenHolderViewModel::new(&admin), &db, &cfg, NOW + 3601).err(),
        Some(IdentityError::SignatureHasExpired)
    );
    assert_eq!(
        admin_service::get_all_users(TokenHolderViewModel::new(""), &db, &cfg).err(),
        Some(IdentityError::TokenIsEmpty)
    );
}
