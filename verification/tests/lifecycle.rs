use fsevent_watcher::lifecycle::{EventStreamHandle, LifecycleState, TeardownStep};
use fsevent_watcher::WatchError;

#[test]
fn create_reports_failed_native_allocation() {
    assert!(matches!(EventStreamHandle::create(false), Err(WatchError::StreamCreateError)));
}

#[test]
fn full_lifecycle_happy_path() {
    let mut h = EventStreamHandle::create(true).unwrap();
    assert_eq!(h.state(), LifecycleState::Created);
    assert_eq!(h.start(true), Ok(()));
    assert_eq!(h.state(), LifecycleState::Started);
    assert_eq!(h.stop(), Ok(()));
    assert_eq!(h.state(), LifecycleState::Stopped);
    // stopping twice is a no-op
    assert_eq!(h.stop(), Ok(()));
    assert_eq!(h.state(), LifecycleState::Stopped);
    let steps = h.shutdown();
    assert_eq!(steps, vec![TeardownStep::Invalidate, TeardownStep::Release]);
    assert_eq!(h.state(), LifecycleState::Released);
    // a second shutdown owes no native call
    assert!(h.shutdown().is_empty());
    assert_eq!(h.state(), LifecycleState::Released);
    // any other method after shutdown is a contract violation
    assert_eq!(h.start(true), Err(WatchError::UseAfterShutdown));
    assert_eq!(h.stop(), Err(WatchError::UseAfterShutdown));
}

#[test]
fn failed_start_leaves_stream_retryable() {
    let mut h = EventStreamHandle::create(true).unwrap();
    assert_eq!(h.start(false), Err(WatchError::StreamStartError));
    assert_eq!(h.state(), LifecycleState::Created);
    assert_eq!(h.start(true), Ok(()));
    assert_eq!(h.state(), LifecycleState::Started);
}

#[test]
fn start_requires_created_state() {
    let mut h = EventStreamHandle::create(true).unwrap();
    h.start(true).unwrap();
    assert_eq!(h.start(true), Err(WatchError::StreamStartError));
    assert_eq!(h.state(), LifecycleState::Started);
}

#[test]
fn shutdown_of_delivering_stream_stops_first() {
    let mut h = EventStreamHandle::create(true).unwrap();
    h.start(true).unwrap();
    assert_eq!(
        h.shutdown(),
        vec![TeardownStep::Stop, TeardownStep::Invalidate, TeardownStep::Release]
    );
    assert_eq!(h.state(), LifecycleState::Released);
}

#[test]
fn shutdown_from_created_state() {
    let mut h = EventStreamHandle::create(true).unwrap();
    assert_eq!(h.shutdown(), vec![TeardownStep::Invalidate, TeardownStep::Release]);
}
