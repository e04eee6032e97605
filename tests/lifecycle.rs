use sidecar_bridge::lifecycle::{AppLifecycleState, CloseAction, EXIT_GRACE_MS};

#[test]
fn close_hides_in_background_until_quitting() {
    let mut s = AppLifecycleState::new();
    assert!(!s.quitting());
    assert_eq!(s.on_close_requested(true), CloseAction::Hide);
    assert_eq!(s.on_close_requested(false), CloseAction::Close);
    s.request_quit();
    assert!(s.is_quitting);
    assert_eq!(s.on_close_requested(true), CloseAction::Close);
    s.request_quit();
    assert!(s.quitting());
    assert_eq!(EXIT_GRACE_MS, 500);
}
