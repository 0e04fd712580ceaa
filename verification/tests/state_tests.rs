use stunt::state::ConnectionState;

#[test]
fn test_connection_state_labels() {
    assert_eq!(ConnectionState::Disconnected.label(), "disconnected");
    assert_eq!(ConnectionState::Connecting.label(), "connecting");
    assert_eq!(ConnectionState::Connected.label(), "connected");
    assert_eq!(ConnectionState::Reconnecting.label(), "reconnecting");
    assert_eq!(ConnectionState::Failed.label(), "failed");
    assert_eq!(ConnectionState::Suspended.label(), "suspended");
}

#[test]
fn test_is_active() {
    assert!(!ConnectionState::Disconnected.is_active());
    assert!(ConnectionState::Connecting.is_active());
    assert!(ConnectionState::Connected.is_active());
    assert!(ConnectionState::Reconnecting.is_active());
    assert!(!ConnectionState::Failed.is_active());
    assert!(!ConnectionState::Suspended.is_active());
}

#[test]
fn test_default_state() {
    assert_eq!(ConnectionState::default(), ConnectionState::Disconnected);
}
