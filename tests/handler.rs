use wrestlers_adapter::action::Action;
use wrestlers_adapter::handler::{
    forward_outcome, is_success, next_step, ReadEvent, Step, SERVICE_UNAVAILABLE,
};

#[test]
fn step_forwards_an_event() {
    let text = "[1441]: wevent.ubnt(): EVENT_STA_LEAVE ath0: 5a:98:da:ab:19:c6 / 3";
    let step = next_step(ReadEvent::Data(text), "127.0.0.1:80");
    assert_eq!(
        step,
        Step::Forward(
            Action::Leave("5a:98:da:ab:19:c6"),
            "http://127.0.0.1:80/leave/5a:98:da:ab:19:c6".to_string()
        )
    );
}

#[test]
fn step_rejects_text_without_event() {
    let step = next_step(ReadEvent::Data("this is invalid"), "127.0.0.1:80");
    assert_eq!(step, Step::Reject("Invalid log entry format"));
}

#[test]
fn step_stops_on_close_and_failure() {
    assert_eq!(next_step(ReadEvent::Closed, "h"), Step::Close);
    assert_eq!(next_step(ReadEvent::Failed, "h"), Step::ReadFailed);
}

#[test]
fn outcome_without_response_is_unavailable() {
    assert_eq!(forward_outcome(None), Err(503));
    assert_eq!(SERVICE_UNAVAILABLE, 503);
}

#[test]
fn outcome_keeps_response_status() {
    assert_eq!(forward_outcome(Some(200)), Ok(200));
    assert_eq!(forward_outcome(Some(404)), Ok(404));
}

#[test]
fn success_is_the_2xx_range() {
    assert!(is_success(200));
    assert!(is_success(299));
    assert!(!is_success(199));
    assert!(!is_success(300));
    assert!(!is_success(503));
}
