use objectstorex::errors::ErrorKind;
use objectstorex::registry::{cancel_download_stream, SessionRegistry};

#[test]
fn register_then_cancel_returns_handle() {
    let mut r: SessionRegistry<u32> = SessionRegistry::new();
    assert_eq!(r.len(), 0);
    assert_eq!(r.register(7, 70), Ok(()));
    assert!(r.contains(7));
    assert_eq!(r.cancel(7), Some(70));
    assert!(!r.contains(7));
    assert_eq!(r.len(), 0);
}

#[test]
fn duplicate_registration_is_refused_and_handle_returned() {
    let mut r: SessionRegistry<u32> = SessionRegistry::new();
    r.register(1, 10).unwrap();
    assert_eq!(r.register(1, 11), Err((ErrorKind::DuplicateSession, 11)));
    assert_eq!(r.cancel(1), Some(10));
}

#[test]
fn cancel_unknown_is_a_no_op() {
    let mut r: SessionRegistry<u32> = SessionRegistry::new();
    r.register(2, 20).unwrap();
    assert_eq!(r.cancel(99), None);
    assert_eq!(r.len(), 1);
    assert!(r.contains(2));
}

#[test]
fn removal_is_idempotent_and_races_with_cancel() {
    let mut r: SessionRegistry<u32> = SessionRegistry::new();
    r.register(3, 30).unwrap();
    assert!(r.remove(3));
    assert!(!r.remove(3));
    assert_eq!(r.cancel(3), None);
    r.register(4, 40).unwrap();
    assert_eq!(r.cancel(4), Some(40));
    assert!(!r.remove(4));
}

#[test]
fn cancel_stream_aborts_task_and_ignores_unknown_ids() {
    let rt = tokio::runtime::Runtime::new().unwrap();
    let handle = rt.spawn(futures::future::pending::<()>());
    let mut r = SessionRegistry::new();
    r.register(5, handle).map_err(|(k, _)| k).unwrap();
    cancel_download_stream(&mut r, 42);
    assert!(r.contains(5));
    cancel_download_stream(&mut r, 5);
    assert!(!r.contains(5));
    cancel_download_stream(&mut r, 5);
    assert_eq!(r.len(), 0);
}
