//! Shutdown coordinator: registration uniqueness and the
//! signal/acknowledge/complete handshake.

use source_runtime::shutdown::ShutdownCoordinator;

#[test]
fn register_signal_acknowledge_complete() {
    let mut c = ShutdownCoordinator::new();
    let id = "scraper".to_string();
    let handle = c.register(id.clone()).expect("fresh id registers");
    assert_eq!(handle.id, id);

    assert!(!c.begin_shutdown(&id));
    assert!(!c.shutdown_complete(&id));

    assert!(c.acknowledge(&id));
    assert!(c.shutdown_complete(&id));

    // The acknowledgement is sent at most once per lifetime.
    assert!(!c.acknowledge(&id));
    // Completion stays true: later calls are idempotent no-ops.
    assert!(c.shutdown_complete(&id));
    assert!(c.begin_shutdown(&id));
}

#[test]
fn register_twice_while_active_fails() {
    let mut c = ShutdownCoordinator::new();
    let id = "http_scrape_shutdown".to_string();
    assert!(c.register(id.clone()).is_ok());
    assert!(c.register(id.clone()).is_err());

    // The failed second registration corrupted nothing: the first
    // registration still completes its handshake.
    assert!(!c.begin_shutdown(&id));
    assert!(c.acknowledge(&id));
    assert!(c.shutdown_complete(&id));
}

#[test]
fn register_again_after_acknowledgement() {
    let mut c = ShutdownCoordinator::new();
    let id = "listener".to_string();
    assert!(c.register(id.clone()).is_ok());
    assert!(c.acknowledge(&id));
    // The earlier lifetime ended, so the key is free again.
    assert!(c.register(id.clone()).is_ok());
    assert!(!c.shutdown_complete(&id));
    assert!(c.register(id.clone()).is_err());
}

#[test]
fn distinct_identifiers_do_not_interfere() {
    let mut c = ShutdownCoordinator::new();
    let a = "a".to_string();
    let b = "b".to_string();
    assert!(c.register(a.clone()).is_ok());
    assert!(c.register(b.clone()).is_ok());

    assert!(c.acknowledge(&a));
    assert!(c.shutdown_complete(&a));
    assert!(!c.shutdown_complete(&b));
}

#[test]
fn unknown_identifier_reports_nothing() {
    let mut c = ShutdownCoordinator::new();
    let ghost_id = "nobody".to_string();
    assert!(!c.begin_shutdown(&ghost_id));
    assert!(!c.acknowledge(&ghost_id));
    assert!(!c.shutdown_complete(&ghost_id));
}
