use x_log::backend::{LogBackend, LogBackendBuilder, BUFFER_SIZE, CHANNEL_SIZE, MAX_SIZE};

#[test]
fn builder_without_settings_builds_defaults() {
    let b = LogBackendBuilder::new().build();
    assert_eq!(b.path(), "log.log");
    assert_eq!(b.max_size(), 10 * 1024 * 1024);
    assert_eq!(b.buffer_size(), 64 * 1024);
    assert_eq!(b.channel_size(), 1024);
    assert_eq!(b.file_counter(), 0);
    assert_eq!(b.file_size(), 0);
}

#[test]
fn default_backend_matches_builder_defaults() {
    let a = LogBackend::new();
    let b = LogBackendBuilder::new().build();
    assert_eq!(a.path(), b.path());
    assert_eq!(a.max_size(), MAX_SIZE);
    assert_eq!(a.buffer_size(), BUFFER_SIZE);
    assert_eq!(a.channel_size(), CHANNEL_SIZE);
}

#[test]
fn builder_takes_every_setting() {
    let b = LogBackendBuilder::new()
        .path("logs/custom.log")
        .max_size(5 * 1024 * 1024)
        .buffer_size(32 * 1024)
        .channel_size(500)
        .build();
    assert_eq!(b.path(), "logs/custom.log");
    assert_eq!(b.max_size(), 5242880);
    assert_eq!(b.buffer_size(), 32768);
    assert_eq!(b.channel_size(), 500);
    assert_eq!(b.file_counter(), 0);
    assert_eq!(b.file_size(), 0);
}

#[test]
fn builder_last_setting_wins() {
    let b = LogBackendBuilder::new().path("a.log").max_size(1).path("b.log").max_size(2).build();
    assert_eq!(b.path(), "b.log");
    assert_eq!(b.max_size(), 2);
    assert_eq!(b.buffer_size(), 65536);
}

#[test]
fn builder_keeps_zero_limit() {
    let b = LogBackendBuilder::new().path("test1.log").max_size(0).buffer_size(256).channel_size(50).build();
    assert_eq!(b.path(), "test1.log");
    assert_eq!(b.max_size(), 0);
    assert_eq!(b.buffer_size(), 256);
    assert_eq!(b.channel_size(), 50);
}
