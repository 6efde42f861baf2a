use identity::credential::hash_password;
use identity::credential::verify_password;
use identity::err::IdentityError;

#[test]
fn hash_is_the_encoded_argon2_hash() {
    assert_eq!(
        hash_password("password", "somesalt"),
        Ok("$argon2i$v=19$m=4096,t=3,p=1$c29tZXNhbHQ$iWh06vD8Fy27wf9npn6FXWiCX4K6pW6Ue1Bnzz07Z8A".to_string())
    );
}

#[test]
fn hash_wants_a_salt_of_eight_bytes() {
    assert_eq!(hash_password("password", "1234567"), Err(IdentityError::PasswordCannotBeMade));
    assert_eq!(hash_password("password", ""), Err(IdentityError::PasswordCannotBeMade));
    assert!(hash_password("password", "12345678").is_ok());
    assert!(hash_password("", "12345678").is_ok());
    assert!(hash_password("password", "\u{e9}\u{e9}\u{e9}\u{e9}").is_ok());
}

#[test]
fn hash_then_verify() {
    for pwd in ["pw1", "a much longer password with spaces", "\u{e9}t\u{e9}", "x"] {
        let hash = hash_password(pwd, "0a1b2c3d").unwrap();
        assert_ne!(hash, pwd);
        assert!(verify_password(&hash, pwd));
        assert!(!verify_password(&hash, "wrong"));
        assert!(!verify_password(&hash, ""));
    }
}

#[test]
fn verify_says_no_to_what_it_cannot_read() {
    assert!(!verify_password("", "pw"));
    assert!(!verify_password("pw", "pw"));
    assert!(!verify_password("not a hash", "pw"));
    assert!(!verify_password("", ""));
}

#[test]
fn verify_never_accepts_the_empty_password() {
    let hash = hash_password("", "0a1b2c3d").unwrap();
    assert!(!verify_password(&hash, ""));
}
