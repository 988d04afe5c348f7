use wrestlers_adapter::action::Action;

#[test]
fn action_from_str_ok() {
    let j = Action::from_str("JOIN", "123");
    assert_eq!(j, Ok(Action::Join("123")));

    let l = Action::from_str("LEAVE", "123");
    assert_eq!(l, Ok(Action::Leave("123")));
}

#[test]
fn action_from_str_die() {
    let j = Action::from_str("UNKNOWN", "123");
    assert_eq!(j, Err("Invalid action"));
}

#[test]
fn action_to_url() {
    let j = Action::from_str("JOIN", "123").unwrap();
    assert_eq!(j.to_url("test.com"), "http://test.com/join/123");

    let l = Action::from_str("LEAVE", "12:32:45:65:aa:ff").unwrap();
    assert_eq!(l.to_url("tester.com"), "http://tester.com/leave/12:32:45:65:aa:ff");
}

#[test]
fn from_str_is_case_sensitive() {
    assert_eq!(Action::from_str("join", "123"), Err("Invalid action"));
    assert_eq!(Action::from_str("Leave", "123"), Err("Invalid action"));
    assert_eq!(Action::from_str("", "123"), Err("Invalid action"));
    assert_eq!(Action::from_str("JOINED", "123"), Err("Invalid action"));
}

#[test]
fn from_str_keeps_mac_verbatim() {
    assert_eq!(Action::from_str("LEAVE", "not a mac"), Ok(Action::Leave("not a mac")));
}

#[test]
fn to_url_join_with_port() {
    let a = Action::Join("00:34:da:58:9d:a7");
    assert_eq!(a.to_url("127.0.0.1:80"), "http://127.0.0.1:80/join/00:34:da:58:9d:a7");
}
