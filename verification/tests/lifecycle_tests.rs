use live_relay::lifecycle::{
    BindOutcome, ProxyServerHandle, base_url, find_free_port, media_url, start_static_proxy_server,
    static_proxy_port,
};

#[test]
fn ports_and_urls_are_fixed() {
    assert_eq!(find_free_port(), 34719);
    assert_eq!(static_proxy_port(), 34721);
    assert_eq!(base_url(34721), b"http://127.0.0.1:34721".to_vec());
    assert_eq!(media_url(34719), b"http://127.0.0.1:34719/live.flv".to_vec());
}

#[test]
fn start_without_target_is_refused_and_changes_nothing() {
    let mut h = ProxyServerHandle::new();
    let r = h.start_proxy(false);
    assert_eq!(
        r,
        Err(b"Stream URL is not set in store. Cannot start proxy.".to_vec())
    );
    assert_eq!(h.stop_proxy(), None);
}

#[test]
fn start_supersedes_running_instance() {
    let mut h = ProxyServerHandle::new();
    assert_eq!(h.start_proxy(true), Ok(None));
    h.confirm_start(7);
    let r = h.start_proxy(true);
    assert_eq!(r, Ok(Some(7)));
    h.confirm_start(8);
    assert_eq!(h.stop_proxy(), Some(8));
}

#[test]
fn stop_without_running_instance_is_a_no_op() {
    let mut h = ProxyServerHandle::new();
    assert_eq!(h.stop_proxy(), None);
    assert_eq!(h.stop_proxy(), None);
}

#[test]
fn static_start_twice_returns_identical_base_url() {
    // First call: nothing listens yet, the bind succeeds.
    let first = start_static_proxy_server(false, Some(BindOutcome::Bound));
    // Second call straight after: the port now answers the probe.
    let second = start_static_proxy_server(true, None);
    assert_eq!(first, Ok(b"http://127.0.0.1:34721".to_vec()));
    assert_eq!(first, second);
}

#[test]
fn address_in_use_counts_as_already_running() {
    let r = start_static_proxy_server(false, Some(BindOutcome::AddrInUse));
    assert_eq!(r, Ok(b"http://127.0.0.1:34721".to_vec()));
}

#[test]
fn other_bind_failure_is_an_error() {
    let r = start_static_proxy_server(false, Some(BindOutcome::Failed(b"denied".to_vec())));
    assert_eq!(
        r,
        Err(b"Failed to bind server to port 34721: denied".to_vec())
    );
}
