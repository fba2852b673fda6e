use announcer::failure::Failure;
use announcer::resolver::{resolve, MemberRecord};

#[test]
fn nickname_takes_priority() {
    let member = MemberRecord { nick: Some("Ally".to_string()), account_name: "Alice".to_string() };
    assert_eq!(resolve(Some(member)), Ok("Ally".to_string()));
}

#[test]
fn account_name_is_the_fallback() {
    let member = MemberRecord { nick: None, account_name: "Alice".to_string() };
    assert_eq!(resolve(Some(member)), Ok("Alice".to_string()));
}

#[test]
fn empty_nickname_is_still_the_nickname() {
    let member = MemberRecord { nick: Some(String::new()), account_name: "Alice".to_string() };
    assert_eq!(resolve(Some(member)), Ok(String::new()));
}

#[test]
fn member_who_left_is_a_lookup_failure() {
    assert_eq!(resolve(None), Err(Failure::LookupFailure));
}
