use x_log::backend::LogBackendBuilder;
use x_log::log::{Log, LogRegistry, StopPlan};
use x_log::worker::LogCommand;

#[test]
fn first_start_installs_later_ones_do_not() {
    let mut r = LogRegistry::new();
    let p = Log::init(&mut r);
    assert!(p.install_sender);
    assert!(p.install_worker);
    assert_eq!(p.backend.path(), "log.log");
    assert_eq!(p.backend.max_size(), 10485760);
    let q = Log::init_with(&mut r, "logs/normal.log", 1000);
    assert!(!q.install_sender);
    assert!(!q.install_worker);
    assert_eq!(q.backend.path(), "logs/normal.log");
    assert_eq!(q.backend.max_size(), 1000);
    assert_eq!(q.backend.channel_size(), 1024);
}

#[test]
fn start_with_configured_backend() {
    let mut r = LogRegistry::new();
    let b = LogBackendBuilder::new().path("test1.log").max_size(0).buffer_size(256).channel_size(50).build();
    let p = Log::init_with_backend(&mut r, b);
    assert_eq!(p.backend.channel_size(), 50);
    assert_eq!(p.backend.buffer_size(), 256);
    assert!(p.install_sender && p.install_worker);
    assert!(r.sender_installed());
    assert!(r.worker_joinable());
}

#[test]
fn messages_before_start_are_dropped() {
    let r = LogRegistry::new();
    assert!(Log::send_owned(&r, "early".to_string()).is_none());
    assert!(Log::send(&r, || "early".to_string()).is_none());
}

#[test]
fn messages_after_start_are_sent() {
    let mut r = LogRegistry::new();
    Log::init(&mut r);
    match Log::send_owned(&r, "The answer is 42".to_string()) {
        Some(LogCommand::Message(m)) => assert_eq!(m, "The answer is 42"),
        other => panic!("unexpected {:?}", other),
    }
    let f = Log::send(&r, || format!("The answer is {}", 42)).unwrap();
    assert_eq!(f(), "The answer is 42");
}

#[test]
fn shutdown_joins_once() {
    let mut r = LogRegistry::new();
    Log::init(&mut r);
    assert_eq!(Log::shutdown(&mut r, true), StopPlan { send_terminate: true, join_worker: true });
    assert_eq!(Log::shutdown(&mut r, true), StopPlan { send_terminate: true, join_worker: false });
    assert!(!r.worker_joinable());
}

#[test]
fn shutdown_without_start_does_nothing() {
    let mut r = LogRegistry::new();
    assert_eq!(Log::shutdown(&mut r, false), StopPlan { send_terminate: false, join_worker: false });
}

#[test]
fn shutdown_without_lock_keeps_handle() {
    let mut r = LogRegistry::new();
    Log::init(&mut r);
    assert_eq!(Log::shutdown(&mut r, false), StopPlan { send_terminate: true, join_worker: false });
    assert!(r.worker_joinable());
    assert_eq!(Log::shutdown(&mut r, true), StopPlan { send_terminate: true, join_worker: true });
}

#[test]
fn restart_after_shutdown_keeps_old_handle_slot() {
    let mut r = LogRegistry::new();
    Log::init(&mut r);
    Log::shutdown(&mut r, true);
    let p = Log::init(&mut r);
    assert!(!p.install_sender);
    assert!(!p.install_worker);
    assert!(!r.worker_joinable());
}
