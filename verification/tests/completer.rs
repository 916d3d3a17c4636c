use async_bindgen::api::{Api2, AsyncApi};
use async_bindgen::completer::{
    completion_message, CompleterId, CompletionMessage, PreparedCompleter, MAGIC_TAG,
};

#[test]
fn port_zero_is_refused() {
    assert!(PreparedCompleter::new(0, 3).is_err());
    assert!(PreparedCompleter::new(7, 3).is_ok());
}

#[test]
fn a_call_is_answered_once() {
    let mut c = PreparedCompleter::new(7, 3).unwrap();
    assert!(c.is_pending());
    let (port, msg) = c.send_result_if_not_already_done(Some(99)).unwrap();
    assert_eq!(port, 7);
    assert_eq!(msg, CompletionMessage::Completed { data: vec![MAGIC_TAG, 3, 99] });
    assert!(!c.is_pending());
    assert!(c.send_result_if_not_already_done(None).is_none());
    assert!(c.send_result_if_not_already_done(Some(1)).is_none());
}

#[test]
fn a_dropped_call_sends_the_cancellation() {
    let mut c = PreparedCompleter::new(5, 8).unwrap();
    let (port, msg) = c.send_result_if_not_already_done(None).unwrap();
    assert_eq!(port, 5);
    assert_eq!(
        msg,
        CompletionMessage::Canceled {
            tag: MAGIC_TAG,
            completer_id: 8,
            reason: "future canceled in rust".to_string(),
        }
    );
    assert_eq!(completion_message(8, Some(2)), CompletionMessage::Completed { data: vec![MAGIC_TAG, 8, 2] });
    assert_eq!(MAGIC_TAG, -6_504_203_682_518_908_873);
    assert_eq!(CompleterId::new(4).value(), 4);
}

#[test]
fn api_functions() {
    assert_eq!(AsyncApi::add(3, 4), 7);
    assert_eq!(AsyncApi::sub(9, 4), 5);
    assert_eq!(Api2::get_the_byte(), 12);
}
