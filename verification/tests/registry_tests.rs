use live_relay::registry::{DouyuDanmakuHandles, StopError, stop_result};

#[test]
fn start_twice_keeps_one_registration_and_evicts_first_token() {
    let mut reg = DouyuDanmakuHandles::new();
    let evicted1 = reg.start_listener(b"room-42", 1);
    assert_eq!(evicted1, None);
    assert_eq!(reg.active_count(), 1);
    let evicted2 = reg.start_listener(b"room-42", 2);
    assert_eq!(evicted2, Some(1));
    assert_eq!(reg.active_count(), 1);
    assert_eq!(reg.token_for(b"room-42"), Some(2));
}

#[test]
fn distinct_rooms_are_independent() {
    let mut reg = DouyuDanmakuHandles::new();
    reg.start_listener(b"a", 1);
    reg.start_listener(b"b", 2);
    assert_eq!(reg.active_count(), 2);
    assert_eq!(reg.token_for(b"a"), Some(1));
    assert_eq!(reg.token_for(b"b"), Some(2));
    let removed = reg.stop_listener(b"a");
    assert_eq!(removed, Some(1));
    assert_eq!(reg.active_count(), 1);
    assert_eq!(reg.token_for(b"a"), None);
    assert_eq!(reg.token_for(b"b"), Some(2));
}

#[test]
fn stop_without_registration_is_a_no_op() {
    let mut reg = DouyuDanmakuHandles::new();
    let removed = reg.stop_listener(b"room-7");
    assert_eq!(removed, None);
    assert_eq!(reg.active_count(), 0);
}

#[test]
fn stop_result_is_success_for_unknown_room() {
    assert!(stop_result(false, false).is_ok());
    assert!(stop_result(false, true).is_ok());
}

#[test]
fn stop_result_reports_lost_signal_only_for_live_registration() {
    assert!(stop_result(true, true).is_ok());
    assert_eq!(stop_result(true, false), Err(StopError::SignalLost));
}
