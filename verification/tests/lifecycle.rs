use fsevents_bridge::bridge::{Bridge, BridgeError, Phase, WatchRequest};
use fsevents_bridge::flags::SINCE_NOW;

fn request(path: &str) -> WatchRequest {
    WatchRequest { path: path.to_string(), since: SINCE_NOW }
}

#[test]
fn start_then_immediate_stop_completes() {
    let mut bridge = Bridge::new();
    assert_eq!(bridge.phase(), Phase::Created);

    assert!(bridge.start_requested(&request("/tmp/watched")).is_ok());
    assert_eq!(bridge.phase(), Phase::Starting);

    bridge.loop_published();
    assert_eq!(bridge.phase(), Phase::Running);

    assert!(bridge.stop_requested().is_ok());
    assert_eq!(bridge.phase(), Phase::Stopping);

    assert!(bridge.thread_joined(Ok(())).is_ok());
    assert_eq!(bridge.phase(), Phase::Stopped);
}

#[test]
fn empty_path_is_invalid_and_spawns_nothing() {
    let mut bridge = Bridge::new();
    let r = bridge.start_requested(&request(""));
    assert_eq!(r, Err(BridgeError::InvalidPath));
    // The lifecycle did not move: no permission to spawn a thread was given.
    assert_eq!(bridge.phase(), Phase::Created);
}

#[test]
fn second_stop_is_lifecycle_misuse() {
    let mut bridge = Bridge::new();
    assert!(bridge.start_requested(&request("/tmp/watched")).is_ok());
    bridge.loop_published();

    assert!(bridge.stop_requested().is_ok());
    assert!(bridge.thread_joined(Ok(())).is_ok());

    // The second stop is rejected and permits no second teardown.
    assert_eq!(bridge.stop_requested(), Err(BridgeError::LifecycleMisuse));
    assert_eq!(bridge.phase(), Phase::Stopped);
}

#[test]
fn stop_before_start_is_lifecycle_misuse() {
    let mut bridge = Bridge::new();
    assert_eq!(bridge.stop_requested(), Err(BridgeError::LifecycleMisuse));
    assert_eq!(bridge.phase(), Phase::Created);
}

#[test]
fn stop_while_starting_is_lifecycle_misuse() {
    let mut bridge = Bridge::new();
    assert!(bridge.start_requested(&request("/tmp/watched")).is_ok());
    // The loop identity is not published yet: stop is out of order.
    assert_eq!(bridge.stop_requested(), Err(BridgeError::LifecycleMisuse));
    assert_eq!(bridge.phase(), Phase::Starting);
}

#[test]
fn start_on_used_handle_is_lifecycle_misuse() {
    let mut bridge = Bridge::new();
    assert!(bridge.start_requested(&request("/tmp/watched")).is_ok());
    let r = bridge.start_requested(&request("/tmp/other"));
    assert_eq!(r, Err(BridgeError::LifecycleMisuse));
}

#[test]
fn setup_failure_surfaces_native_diagnostic() {
    let mut bridge = Bridge::new();
    assert!(bridge.start_requested(&request("/tmp/watched")).is_ok());

    let e = bridge.setup_failed("Unable to create CFMutableArrayRef".to_string());
    assert_eq!(
        e,
        BridgeError::NativeCreateFailed("Unable to create CFMutableArrayRef".to_string())
    );
    assert_eq!(bridge.phase(), Phase::Stopped);
}

#[test]
fn thread_join_failure_surfaces_from_stop() {
    let mut bridge = Bridge::new();
    assert!(bridge.start_requested(&request("/tmp/watched")).is_ok());
    bridge.loop_published();
    assert!(bridge.stop_requested().is_ok());

    let r = bridge.thread_joined(Err("stream teardown failed".to_string()));
    assert_eq!(
        r,
        Err(BridgeError::ThreadJoinFailure("stream teardown failed".to_string()))
    );
    assert_eq!(bridge.phase(), Phase::Stopped);
}
