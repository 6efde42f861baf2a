use identity::map_token_pwd::HashMapTokenPasswordChange;

const SECOND: i128 = 1_000_000_000;

#[test]
fn test_clean_up_id() {
    let mut map_token = HashMapTokenPasswordChange::new(45);
    map_token.insert_new_user_request("lol");
    map_token.insert_new_user_request("lol");
    map_token.insert_new_user_request("dsq");
    map_token.delete_tokens_from_id("lol");
    assert!(map_token.len() == 1);
}

#[test]
fn test_clean_up_time() {
    let mut map_token = HashMapTokenPasswordChange::new(0);
    map_token.insert_new_user_request("lol");
    map_token.insert_new_user_request("lol");
    map_token.insert_new_user_request("dsq");
    map_token.clean_tokens_up();
    assert!(map_token.len() == 0);
}

#[test]
fn token_is_good_until_it_is_used() {
    let mut map = HashMapTokenPasswordChange::new(45);
    let t = map.insert_new_user_request("alice-id").unwrap();
    assert_eq!(t.len(), 40);
    assert!(t.chars().all(|c| c.is_ascii_digit() || ('a'..='f').contains(&c)));
    assert_eq!(map.get_user_id_from_token(&t), Some("alice-id".to_string()));
    assert!(map.is_token_okay(&t));
    assert_eq!(map.len(), 1);
    assert!(map.delete_token(&t));
    assert_eq!(map.len(), 0);
    assert!(!map.is_token_okay(&t));
    assert!(!map.delete_token(&t));
    assert_eq!(map.get_user_id_from_token(&t), None);
}

#[test]
fn a_user_may_hold_several_tokens() {
    let mut map = HashMapTokenPasswordChange::new(45);
    let a = map.insert_new_user_request("alice-id").unwrap();
    let b = map.insert_new_user_request("alice-id").unwrap();
    assert_ne!(a, b);
    assert_eq!(map.len(), 2);
    assert!(map.is_token_okay(&a));
    assert!(map.is_token_okay(&b));
    assert_eq!(map.get_duration_change_password(), 45);
    map.tokens_are_distinct();
}

#[test]
fn expiry_is_sharp_to_the_nanosecond() {
    let mut map = HashMapTokenPasswordChange::new(2);
    map.insert_request("tok", "alice-id", 1_000);
    assert!(map.is_token_okay_at("tok", 0));
    assert!(map.is_token_okay_at("tok", 1_000 + 2 * SECOND));
    assert_eq!(map.len(), 1);
    assert!(!map.is_token_okay_at("tok", 1_000 + 2 * SECOND + 1));
    assert_eq!(map.len(), 0);
    assert!(!map.is_token_okay_at("tok", 0));
}

#[test]
fn a_token_that_ran_out_is_forgotten_when_asked_for() {
    let mut map = HashMapTokenPasswordChange::new(1);
    map.insert_request("one", "alice-id", 0);
    map.insert_request("two", "bob-id", 0);
    assert!(!map.is_token_okay_at("none", 5 * SECOND));
    assert_eq!(map.len(), 2);
    assert_eq!(map.get_user_id_from_token("one"), Some("alice-id".to_string()));
    assert!(!map.is_token_okay_at("one", 5 * SECOND));
    assert_eq!(map.len(), 1);
    assert_eq!(map.get_user_id_from_token("one"), None);
    assert_eq!(map.get_user_id_from_token("two"), Some("bob-id".to_string()));
}

#[test]
fn using_up_forgets_the_token_either_way() {
    let mut map = HashMapTokenPasswordChange::new(1);
    map.insert_request("one", "alice-id", 0);
    map.insert_request("two", "alice-id", 0);
    assert!(map.delete_token_at("one", SECOND));
    assert_eq!(map.len(), 1);
    assert!(!map.delete_token_at("two", SECOND + 1));
    assert_eq!(map.len(), 0);
    assert!(!map.delete_token_at("two", 0));
}

#[test]
fn a_token_given_twice_is_held_once() {
    let mut map = HashMapTokenPasswordChange::new(10);
    map.insert_request("tok", "alice-id", 0);
    map.insert_request("other", "carol-id", 0);
    map.insert_request("tok", "bob-id", 5 * SECOND);
    assert_eq!(map.len(), 2);
    assert_eq!(map.get_user_id_from_token("tok"), Some("bob-id".to_string()));
    assert!(map.is_token_okay_at("tok", 15 * SECOND));
    assert!(!map.is_token_okay_at("other", 15 * SECOND));
}

#[test]
fn sweep_forgets_what_ran_out_and_nothing_else() {
    let mut map = HashMapTokenPasswordChange::new(10);
    map.insert_request("early", "a", 0);
    map.insert_request("late", "b", 100 * SECOND);
    map.insert_request("edge", "c", 40 * SECOND);
    map.clean_tokens_up_at(50 * SECOND);
    assert_eq!(map.len(), 2);
    assert_eq!(map.get_user_id_from_token("early"), None);
    assert_eq!(map.get_user_id_from_token("late"), Some("b".to_string()));
    assert_eq!(map.get_user_id_from_token("edge"), Some("c".to_string()));
    map.clean_tokens_up_at(50 * SECOND + 1);
    assert_eq!(map.len(), 1);
    assert_eq!(map.get_user_id_from_token("edge"), None);
    map.clean_tokens_up_at(0);
    assert_eq!(map.len(), 1);
    map.clean_tokens_up();
    assert_eq!(map.len(), 0);
}

#[test]
fn sweep_keeps_what_is_good() {
    let mut map = HashMapTokenPasswordChange::new(3600);
    let a = map.insert_new_user_request("alice-id").unwrap();
    let b = map.insert_new_user_request("bob-id").unwrap();
    map.clean_tokens_up();
    assert_eq!(map.len(), 2);
    assert!(map.is_token_okay(&a));
    assert!(map.is_token_okay(&b));
}

#[test]
fn tokens_of_a_user_go_together() {
    let mut map = HashMapTokenPasswordChange::new(-5);
    map.insert_request("one", "alice-id", 0);
    map.insert_request("two", "bob-id", 0);
    map.insert_request("three", "alice-id", 100 * SECOND);
    map.delete_tokens_from_id("carol-id");
    assert_eq!(map.len(), 3);
    map.delete_tokens_from_id("alice-id");
    assert_eq!(map.len(), 1);
    assert_eq!(map.get_user_id_from_token("two"), Some("bob-id".to_string()));
    assert_eq!(map.get_user_id_from_token("one"), None);
    assert_eq!(map.get_user_id_from_token("three"), None);
    assert!(!map.is_token_okay_at("two", -5 * SECOND + 1));
}
