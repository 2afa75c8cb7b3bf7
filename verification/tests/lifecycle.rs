use flags_2_env_api_server::lifecycle::{LifecycleEvent, LifecycleState};

#[test]
fn new_lifecycle_is_neither_started_nor_ready() {
    let lifecycle = LifecycleState::new("v1");
    assert!(!lifecycle.is_started());
    assert!(!lifecycle.is_ready());
    assert_eq!(lifecycle.revision(), "v1");
}

#[test]
fn events_drive_readiness() {
    let mut lifecycle = LifecycleState::new("v1");
    lifecycle.apply(LifecycleEvent::Started);
    assert!(lifecycle.is_started());
    assert!(lifecycle.is_ready());
    lifecycle.apply(LifecycleEvent::DrainBegun);
    assert!(lifecycle.is_started());
    assert!(!lifecycle.is_ready());
    lifecycle.apply(LifecycleEvent::Started);
    assert!(!lifecycle.is_ready());
    assert_eq!(lifecycle.revision(), "v1");
}

#[test]
fn drain_before_start_never_becomes_ready() {
    let mut lifecycle = LifecycleState::new("v2");
    lifecycle.begin_drain();
    assert!(!lifecycle.is_ready());
    lifecycle.mark_started();
    assert!(lifecycle.is_started());
    assert!(!lifecycle.is_ready());
}
