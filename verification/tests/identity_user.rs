use identity::err::IdentityError;
use identity::flag_set::FlagSet;
use identity::traits::t_user::UserTrait;
use identity::user::identity_user::IdentityUser;

fn is_hex(s: &str) -> bool {
    s.chars().all(|c| c.is_ascii_digit() || ('a'..='f').contains(&c))
}

#[test]
fn new_user_checks_in_order() {
    assert_eq!(IdentityUser::new_user("", "", "").err(), Some(IdentityError::EmailIsEmpty));
    assert_eq!(IdentityUser::new_user("", "n", "pw").err(), Some(IdentityError::EmailIsEmpty));
    assert_eq!(IdentityUser::new_user("a@b.c", "n", "").err(), Some(IdentityError::PasswordIsEmpty));
    assert_eq!(IdentityUser::new_user("@", "n", "").err(), Some(IdentityError::PasswordIsEmpty));
    assert_eq!(IdentityUser::new_user("@", "n", "pw").err(), Some(IdentityError::EmailNotCorrectFormat));
    assert_eq!(
        IdentityUser::new_user_with_personal_id("i", "", "n", "pw").err(),
        Some(IdentityError::EmailIsEmpty)
    );
    assert_eq!(
        IdentityUser::new_user_with_personal_id("i", "a@b.c", "n", "").err(),
        Some(IdentityError::PasswordIsEmpty)
    );
    assert_eq!(
        IdentityUser::new_user_with_personal_id("i", "A.B", "n", "pw").err(),
        Some(IdentityError::EmailNotCorrectFormat)
    );
}

#[test]
fn new_user_has_fresh_id_and_salt() {
    let u = IdentityUser::new_user("a@b.c", "Ann", "pw").unwrap();
    assert_eq!(u.get_email(), "a@b.c");
    assert_eq!(u.get_user_name(), "Ann");
    assert_eq!(u.get_id().len(), 21);
    assert!(is_hex(u.get_id()));
    assert_eq!(u.get_security_stamp().len(), 8);
    assert!(is_hex(u.get_security_stamp()));
    assert!(u.get_hashed_password().starts_with("$argon2i$"));
    assert!(!u.is_pwd_empty());
    assert!(u.get_flag_list().is_empty());
    assert!(u.check_pwd("pw"));
    assert!(!u.check_pwd("pw "));
    assert!(!u.check_pwd(""));
    let v = IdentityUser::new_user("a@b.c", "Ann", "pw").unwrap();
    assert_ne!(u.get_id(), v.get_id());
}

#[test]
fn with_salt_is_exact() {
    let u = IdentityUser::with_salt("id-1", "a@b.c", "Ann", "password", "somesalt").unwrap();
    assert_eq!(u.get_id(), "id-1");
    assert_eq!(u.get_security_stamp(), "somesalt");
    assert_eq!(
        u.get_hashed_password(),
        "$argon2i$v=19$m=4096,t=3,p=1$c29tZXNhbHQ$iWh06vD8Fy27wf9npn6FXWiCX4K6pW6Ue1Bnzz07Z8A"
    );
    assert_eq!(
        IdentityUser::with_salt("id-1", "a@b.c", "Ann", "password", "short").err(),
        Some(IdentityError::PasswordCannotBeMade)
    );
}

#[test]
fn admin_record() {
    let a = IdentityUser::admin().unwrap();
    assert_eq!(a.get_id(), "ADMIN");
    assert_eq!(a.get_email(), "email.admin@server.com");
    assert_eq!(a.get_user_name(), "");
    assert_eq!(a.get_security_stamp().len(), 8);
    assert!(a.check_pwd("ADMIN"));
    assert!(!a.check_pwd("admin"));
    assert!(a.get_flag_list().is_empty());
}

#[test]
fn set_password_renews_the_salt() {
    let mut u = IdentityUser::with_salt("id-1", "a@b.c", "Ann", "one", "somesalt").unwrap();
    let hash = u.get_hashed_password().to_string();
    assert_eq!(u.set_password(""), Err(IdentityError::PasswordIsEmpty));
    assert_eq!(u.get_hashed_password(), hash);
    assert_eq!(u.get_security_stamp(), "somesalt");
    assert_eq!(u.set_password("two"), Ok(()));
    assert_ne!(u.get_hashed_password(), hash);
    assert_eq!(u.get_security_stamp().len(), 8);
    assert!(is_hex(u.get_security_stamp()));
    assert!(u.check_pwd("two"));
    assert!(!u.check_pwd("one"));
    assert_eq!(u.get_id(), "id-1");
    assert_eq!(u.get_email(), "a@b.c");
    assert_eq!(u.get_user_name(), "Ann");
}

#[test]
fn set_password_with_salt_is_exact() {
    let mut u = IdentityUser::with_salt("id-1", "a@b.c", "Ann", "one", "saltsalt").unwrap();
    assert_eq!(u.set_password_with_salt("password", "somesalt"), Ok(()));
    assert_eq!(u.get_security_stamp(), "somesalt");
    assert_eq!(
        u.get_hashed_password(),
        "$argon2i$v=19$m=4096,t=3,p=1$c29tZXNhbHQ$iWh06vD8Fy27wf9npn6FXWiCX4K6pW6Ue1Bnzz07Z8A"
    );
    assert_eq!(
        u.set_password_with_salt("password", "1234567"),
        Err(IdentityError::PasswordCannotBeMade)
    );
    assert_eq!(u.set_password_with_salt("", "somesalt"), Err(IdentityError::PasswordIsEmpty));
    assert_eq!(u.get_security_stamp(), "somesalt");
}

#[test]
fn set_email_answers() {
    let mut u = IdentityUser::with_salt("id-1", "a@b.c", "Ann", "one", "somesalt").unwrap();
    assert_eq!(u.set_email(""), Err(IdentityError::EmailIsEmpty));
    assert_eq!(u.set_email("a@b.c"), Ok(false));
    assert_eq!(u.set_email("???"), Err(IdentityError::EmailNotCorrectFormat));
    assert_eq!(u.get_email(), "a@b.c");
    assert_eq!(u.set_email("x@y.z"), Ok(true));
    assert_eq!(u.get_email(), "x@y.z");
}

#[test]
fn setters_and_getters() {
    let mut u = IdentityUser::from_parts("i", "e", "", "", "n", FlagSet::new());
    assert!(u.is_pwd_empty());
    u.set_hashed_password("h");
    assert!(!u.is_pwd_empty());
    assert_eq!(u.get_hashed_password(), "h");
    u.set_hashed_password("");
    u.set_security_stamp("s");
    assert!(!u.is_pwd_empty());
    assert_eq!(u.get_security_stamp(), "s");
    u.set_user_name("m");
    assert_eq!(u.get_user_name(), "m");
    assert_eq!(u.get_id(), "i");
    assert_eq!(u.get_email(), "e");
    let mut flags = FlagSet::new();
    flags.insert("a");
    flags.insert("b");
    u.set_flags(flags);
    assert_eq!(u.get_flag_list(), vec!["a".to_string(), "b".to_string()]);
    assert_eq!(u.get_flags().to_list(), vec!["a".to_string(), "b".to_string()]);
    let copy = u.clone();
    assert_eq!(copy.get_id(), "i");
    assert_eq!(copy.get_flag_list(), vec!["a".to_string(), "b".to_string()]);
}

#[test]
fn flags_are_a_set() {
    let mut u = IdentityUser::from_parts("i", "e", "h", "s", "n", FlagSet::new());
    assert!(u.add_flag("editor"));
    assert!(!u.add_flag("editor"));
    assert!(u.add_flag("owner"));
    assert_eq!(u.get_flag_list().len(), 2);
    assert!(u.remove_flag("editor"));
    assert!(!u.remove_flag("editor"));
    assert!(!u.remove_flag("nobody"));
    assert_eq!(u.get_flag_list(), vec!["owner".to_string()]);
}
