use steamworks::{is_call_completed, CallbackRegistry};

#[test]
fn registering_replaces_the_handler() {
    let mut r: CallbackRegistry<&str, &str> = CallbackRegistry::new();
    r.register_callback(304, "first");
    r.register_callback(304, "second");
    assert_eq!(r.take_callback(304), Some("second"));
    assert_eq!(r.take_callback(304), None);
}

#[test]
fn removing_a_callback_leaves_the_others() {
    let mut r: CallbackRegistry<u32, u32> = CallbackRegistry::new();
    r.register_callback(1, 10);
    r.register_callback(2, 20);
    r.remove_callback(1);
    assert_eq!(r.take_callback(1), None);
    assert_eq!(r.take_callback(2), Some(20));
}

#[test]
fn call_results_are_delivered_once() {
    let mut r: CallbackRegistry<u32, &str> = CallbackRegistry::new();
    r.register_call_result(77, "done");
    r.register_call_result(78, "other");
    assert_eq!(r.take_call_result(77), Some("done"));
    assert_eq!(r.take_call_result(77), None);
    assert_eq!(r.take_call_result(78), Some("other"));
}

#[test]
fn completed_calls_are_recognised() {
    assert!(is_call_completed(703));
    assert!(!is_call_completed(304));
}
