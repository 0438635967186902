use x_log::backend::LogBackendBuilder;
use x_log::worker::{Action, Event, LogCommand, Worker};

const TS: &str = "2026-09-13T13:35:56.6214121Z";
const NOW: i128 = 1_757_770_556_621_412_100;

fn worker(path: &str, max_size: u64) -> Worker {
    Worker::new(LogBackendBuilder::new().path(path).max_size(max_size).buffer_size(256).build())
}

fn message(w: &mut Worker, text: &str) -> Action {
    w.step_at(Event::Command(LogCommand::Message(text.to_string())), TS)
}

fn line(text: &str) -> String {
    format!("[{}]: {}\n", TS, text)
}

/// Drives a message that fits below the limit to its end.
fn write_plain(w: &mut Worker, text: &str) {
    assert_eq!(message(w, text), Action::WriteLine(line(text)));
    assert_eq!(w.step_at(Event::Written, TS), Action::InspectBuffer);
    assert_eq!(w.step_at(Event::Buffered { len: 10, capacity: 256 }, TS), Action::Idle);
}

#[test]
fn message_below_limit_is_written_and_counted() {
    let mut w = worker("test1.log", 100);
    write_plain(&mut w, "V1: 75");
    assert_eq!(w.backend().file_size(), 39);
    write_plain(&mut w, "V1: 75");
    assert_eq!(w.backend().file_size(), 78);
    assert!(w.is_ready());
    assert_eq!(w.backend().file_counter(), 0);
}

#[test]
fn message_reaching_limit_rotates_first() {
    let mut w = worker("test1.log", 100);
    write_plain(&mut w, "V1: 75");
    write_plain(&mut w, "V1: 75");
    // 78 + 39 >= 100: flush, rotate, then write.
    assert_eq!(message(&mut w, "V1: 75"), Action::InspectBuffer);
    assert_eq!(w.step_at(Event::Buffered { len: 74, capacity: 256 }, TS), Action::FlushWriter);
    assert_eq!(w.step_at(Event::Flushed(true), TS), Action::ReadFileLength);
    assert_eq!(w.step_at(Event::FileLength(Some(80)), TS), Action::FlushWriter);
    assert_eq!(w.backend().file_size(), 80);
    assert_eq!(w.step_at(Event::Flushed(true), TS), Action::ReadClock);
    assert_eq!(w.step_at(Event::Clock(Some(1000)), TS), Action::Rename("test1-1000-0.log".to_string()));
    assert_eq!(w.step_at(Event::Renamed(true), TS), Action::OpenFile);
    assert_eq!(w.step_at(Event::Opened(true), TS), Action::WriteLine(line("V1: 75")));
    assert_eq!(w.backend().file_counter(), 1);
    assert_eq!(w.backend().file_size(), 0);
    assert_eq!(w.step_at(Event::Written, TS), Action::InspectBuffer);
    assert_eq!(w.backend().file_size(), 39);
    assert_eq!(w.step_at(Event::Buffered { len: 39, capacity: 256 }, TS), Action::Idle);
    assert!(w.is_ready());
}

#[test]
fn second_rotation_uses_next_counter() {
    let mut w = worker("logs/app.log", 0);
    for counter in 0..3u32 {
        assert_eq!(message(&mut w, "x"), Action::InspectBuffer);
        assert_eq!(w.step_at(Event::Buffered { len: 0, capacity: 256 }, TS), Action::FlushWriter);
        assert_eq!(w.step_at(Event::Flushed(true), TS), Action::ReadClock);
        assert_eq!(w.step_at(Event::Clock(Some(77)), TS),
            Action::Rename(format!("logs/app-77-{}.log", counter)));
        assert_eq!(w.step_at(Event::Renamed(true), TS), Action::OpenFile);
        assert_eq!(w.step_at(Event::Opened(true), TS), Action::WriteLine(line("x")));
        assert_eq!(w.step_at(Event::Written, TS), Action::InspectBuffer);
        assert_eq!(w.step_at(Event::Buffered { len: 0, capacity: 256 }, TS), Action::Idle);
    }
    assert_eq!(w.backend().file_counter(), 3);
    assert_eq!(w.backend().file_size(), 34);
}

#[test]
fn failed_rotation_still_writes_and_keeps_counter() {
    let mut w = worker("a.log", 0);
    // The flush before rotating fails: no rotation.
    assert_eq!(message(&mut w, "m"), Action::InspectBuffer);
    assert_eq!(w.step_at(Event::Buffered { len: 0, capacity: 256 }, TS), Action::FlushWriter);
    assert_eq!(w.step_at(Event::Flushed(false), TS), Action::WriteLine(line("m")));
    assert_eq!(w.step_at(Event::Written, TS), Action::InspectBuffer);
    assert_eq!(w.step_at(Event::Buffered { len: 0, capacity: 256 }, TS), Action::Idle);
    assert_eq!(w.backend().file_counter(), 0);
    assert_eq!(w.backend().file_size(), 34);
    // The rename fails.
    assert_eq!(message(&mut w, "m"), Action::InspectBuffer);
    assert_eq!(w.step_at(Event::Buffered { len: 0, capacity: 256 }, TS), Action::FlushWriter);
    assert_eq!(w.step_at(Event::Flushed(true), TS), Action::ReadClock);
    assert_eq!(w.step_at(Event::Clock(Some(5)), TS), Action::Rename("a-5-0.log".to_string()));
    assert_eq!(w.step_at(Event::Renamed(false), TS), Action::WriteLine(line("m")));
    assert_eq!(w.step_at(Event::Written, TS), Action::InspectBuffer);
    assert_eq!(w.step_at(Event::Buffered { len: 0, capacity: 256 }, TS), Action::Idle);
    assert_eq!(w.backend().file_counter(), 0);
    assert_eq!(w.backend().file_size(), 68);
    // Opening the new file fails.
    assert_eq!(message(&mut w, "m"), Action::InspectBuffer);
    assert_eq!(w.step_at(Event::Buffered { len: 0, capacity: 256 }, TS), Action::FlushWriter);
    assert_eq!(w.step_at(Event::Flushed(true), TS), Action::ReadClock);
    assert_eq!(w.step_at(Event::Clock(Some(6)), TS), Action::Rename("a-6-0.log".to_string()));
    assert_eq!(w.step_at(Event::Renamed(true), TS), Action::OpenFile);
    assert_eq!(w.step_at(Event::Opened(false), TS), Action::WriteLine(line("m")));
    assert_eq!(w.backend().file_counter(), 0);
    assert_eq!(w.backend().file_size(), 68);
}

#[test]
fn no_rotation_target_skips_rotation() {
    let mut w = worker("a.log", 0);
    assert_eq!(message(&mut w, "m"), Action::InspectBuffer);
    assert_eq!(w.step_at(Event::Buffered { len: 0, capacity: 256 }, TS), Action::FlushWriter);
    assert_eq!(w.step_at(Event::Flushed(true), TS), Action::ReadClock);
    assert_eq!(w.step_at(Event::Clock(None), TS), Action::WriteLine(line("m")));
    assert_eq!(w.backend().file_counter(), 0);
    assert_eq!(w.step_at(Event::Written, TS), Action::InspectBuffer);
    assert_eq!(w.backend().file_size(), 34);
    // A path without a file stem has no rotation target either.
    let mut w = worker("/", 0);
    assert_eq!(message(&mut w, "m"), Action::InspectBuffer);
    assert_eq!(w.step_at(Event::Buffered { len: 0, capacity: 256 }, TS), Action::FlushWriter);
    assert_eq!(w.step_at(Event::Flushed(true), TS), Action::ReadClock);
    assert_eq!(w.step_at(Event::Clock(Some(1)), TS), Action::WriteLine(line("m")));
    assert_eq!(w.backend().file_counter(), 0);
}

#[test]
fn full_buffer_is_flushed_after_write() {
    let mut w = worker("a.log", 1000);
    assert_eq!(message(&mut w, "m"), Action::WriteLine(line("m")));
    assert_eq!(w.step_at(Event::Written, TS), Action::InspectBuffer);
    assert_eq!(w.step_at(Event::Buffered { len: 256, capacity: 256 }, TS), Action::FlushWriter);
    assert_eq!(w.step_at(Event::Flushed(true), TS), Action::ReadFileLength);
    assert_eq!(w.step_at(Event::FileLength(Some(300)), TS), Action::Idle);
    assert_eq!(w.backend().file_size(), 300);
    // A zero-capacity buffer counts as full but holds nothing to flush.
    let mut w = Worker::new(LogBackendBuilder::new().buffer_size(0).build());
    assert_eq!(message(&mut w, "m"), Action::WriteLine(line("m")));
    assert_eq!(w.step_at(Event::Written, TS), Action::InspectBuffer);
    assert_eq!(w.step_at(Event::Buffered { len: 0, capacity: 0 }, TS), Action::Idle);
}

#[test]
fn unreadable_file_length_keeps_count() {
    let mut w = worker("a.log", 1000);
    write_plain(&mut w, "m");
    assert_eq!(w.step_at(Event::Command(LogCommand::Flush), TS), Action::InspectBuffer);
    assert_eq!(w.step_at(Event::Buffered { len: 32, capacity: 256 }, TS), Action::FlushWriter);
    assert_eq!(w.step_at(Event::Flushed(false), TS), Action::ReadFileLength);
    assert_eq!(w.step_at(Event::FileLength(None), TS), Action::Idle);
    assert_eq!(w.backend().file_size(), 34);
}

#[test]
fn flush_of_empty_buffer_does_nothing() {
    let mut w = worker("a.log", 1000);
    assert_eq!(w.step_at(Event::Command(LogCommand::Flush), TS), Action::InspectBuffer);
    assert_eq!(w.step_at(Event::Buffered { len: 0, capacity: 256 }, TS), Action::Idle);
}

#[test]
fn terminate_flushes_then_exits_for_good() {
    let mut w = worker("a.log", 1000);
    write_plain(&mut w, "m");
    assert_eq!(w.step_at(Event::Command(LogCommand::Terminate), TS), Action::InspectBuffer);
    assert_eq!(w.step_at(Event::Buffered { len: 32, capacity: 256 }, TS), Action::FlushWriter);
    assert_eq!(w.step_at(Event::Flushed(true), TS), Action::ReadFileLength);
    assert_eq!(w.step_at(Event::FileLength(Some(32)), TS), Action::Exit);
    assert!(w.is_stopped());
    assert_eq!(message(&mut w, "late"), Action::Exit);
    assert_eq!(w.step_at(Event::Written, TS), Action::Exit);
    assert!(w.is_stopped());
}

#[test]
fn update_flushes_old_and_installs_new() {
    let mut w = worker("a.log", 1000);
    write_plain(&mut w, "m");
    let next = LogBackendBuilder::new().path("b.log").max_size(50).build();
    assert_eq!(w.step_at(Event::Command(LogCommand::Update(next)), TS), Action::InspectBuffer);
    assert_eq!(w.step_at(Event::Buffered { len: 32, capacity: 256 }, TS), Action::FlushWriter);
    assert_eq!(w.step_at(Event::Flushed(true), TS), Action::ReadFileLength);
    assert_eq!(w.step_at(Event::FileLength(Some(32)), TS), Action::InstallUpdate);
    assert_eq!(w.backend().path(), "b.log");
    assert_eq!(w.backend().max_size(), 50);
    assert_eq!(w.backend().file_size(), 0);
    assert!(w.is_ready());
}

#[test]
fn unexpected_event_repeats_request() {
    let mut w = worker("a.log", 1000);
    assert_eq!(w.step_at(Event::Written, TS), Action::Idle);
    assert_eq!(message(&mut w, "m"), Action::WriteLine(line("m")));
    assert_eq!(w.step_at(Event::Flushed(true), TS), Action::WriteLine(line("m")));
    assert_eq!(w.step_at(Event::Command(LogCommand::Flush), TS), Action::WriteLine(line("m")));
    assert_eq!(w.backend().file_size(), 0);
    assert_eq!(w.step_at(Event::Written, TS), Action::InspectBuffer);
    assert_eq!(w.step_at(Event::Opened(true), TS), Action::InspectBuffer);
    assert_eq!(w.backend().file_counter(), 0);
}

#[test]
fn message_count_equals_line_count() {
    let mut w = worker("test3.log", 10 * 1024 * 1024);
    let mut lines = 0u32;
    for i in 0..1000u32 {
        let mut action = w.step(Event::Command(LogCommand::Message(format!("This is a stress test {}", i))), NOW);
        loop {
            action = match action {
                Action::WriteLine(_) => {
                    lines += 1;
                    w.step(Event::Written, NOW)
                }
                Action::InspectBuffer => w.step(Event::Buffered { len: 100, capacity: 256 }, NOW),
                Action::Idle => break,
                other => panic!("unexpected request {:?}", other),
            };
        }
    }
    assert_eq!(lines, 1000);
    assert_eq!(w.backend().file_size(), 57890);
}

/// A file system as the worker's driver sees it: the buffered bytes, the
/// bytes of the current file, and the rotated files' contents by name.
struct Disk {
    buffer: String,
    capacity: usize,
    current: String,
    rotated: Vec<(String, String)>,
    clock: u128,
}

impl Disk {
    fn answer(&mut self, action: &Action) -> Option<Event> {
        match action {
            Action::Idle | Action::Exit | Action::InstallUpdate => None,
            Action::InspectBuffer => Some(Event::Buffered { len: self.buffer.len(), capacity: self.capacity }),
            Action::FlushWriter => {
                self.current.push_str(&self.buffer);
                self.buffer.clear();
                Some(Event::Flushed(true))
            }
            Action::ReadFileLength => Some(Event::FileLength(Some(self.current.len() as u64))),
            Action::ReadClock => {
                self.clock += 1;
                Some(Event::Clock(Some(self.clock)))
            }
            Action::Rename(to) => {
                self.rotated.push((to.clone(), std::mem::take(&mut self.current)));
                Some(Event::Renamed(true))
            }
            Action::OpenFile => Some(Event::Opened(true)),
            Action::WriteLine(line) => {
                self.buffer.push_str(line);
                Some(Event::Written)
            }
        }
    }

    fn drive(&mut self, w: &mut Worker, first: Action) {
        let mut action = first;
        while let Some(event) = self.answer(&action) {
            action = w.step_at(event, TS);
        }
    }
}

#[test]
fn size_limit_scenario_rotates_every_second_entry() {
    let mut w = Worker::new(LogBackendBuilder::new().path("test1.log").max_size(100).build());
    let mut disk = Disk { buffer: String::new(), capacity: 65536, current: String::new(), rotated: vec![], clock: 0 };
    for text in ["V1: 75", "V1: 75", "V1: 75", "V2: 24", "V2: 24", "V2: 24", "V3: 38", "V3: 38", "V3: 38"] {
        let first = w.step_at(Event::Command(LogCommand::Message(text.to_string())), TS);
        disk.drive(&mut w, first);
    }
    let first = w.step_at(Event::Command(LogCommand::Flush), TS);
    disk.drive(&mut w, first);
    assert_eq!(disk.rotated.len() + 1, 5);
    assert_eq!(disk.rotated[0].0, "test1-1-0.log");
    assert_eq!(disk.rotated[3].0, "test1-4-3.log");
    assert!(disk.rotated[0].1.contains("V1: 75"));
    assert!(disk.rotated[1].1.contains("V2: 24"));
    assert!(disk.rotated[3].1.contains("V3: 38"));
    assert!(disk.current.contains("V3: 38"));
    let total: usize = disk.rotated.iter().map(|(_, c)| c.lines().count()).sum::<usize>() + disk.current.lines().count();
    assert_eq!(total, 9);
    assert_eq!(w.backend().file_counter(), 4);
    for (_, content) in &disk.rotated {
        if content.lines().count() >= 2 {
            assert!(content.len() < 100);
        }
    }
}

#[test]
fn two_lines_never_fill_a_file_to_its_limit() {
    // Each line is 34 bytes; two of them would make 68, the limit.
    let mut w = Worker::new(LogBackendBuilder::new().path("t.log").max_size(68).build());
    let mut disk = Disk { buffer: String::new(), capacity: 65536, current: String::new(), rotated: vec![], clock: 0 };
    for _ in 0..4 {
        let first = w.step_at(Event::Command(LogCommand::Message("m".to_string())), TS);
        disk.drive(&mut w, first);
    }
    let first = w.step_at(Event::Command(LogCommand::Flush), TS);
    disk.drive(&mut w, first);
    assert_eq!(disk.rotated.len(), 3);
    assert_eq!(disk.rotated[0].1.len(), 34);
    assert_eq!(disk.current, line("m"));
    // With room for two lines, two share a file and stay below the limit.
    let mut w = Worker::new(LogBackendBuilder::new().path("t.log").max_size(69).build());
    let mut disk = Disk { buffer: String::new(), capacity: 65536, current: String::new(), rotated: vec![], clock: 0 };
    for _ in 0..4 {
        let first = w.step_at(Event::Command(LogCommand::Message("m".to_string())), TS);
        disk.drive(&mut w, first);
    }
    let first = w.step_at(Event::Command(LogCommand::Flush), TS);
    disk.drive(&mut w, first);
    assert_eq!(disk.rotated.len(), 1);
    assert_eq!(disk.rotated[0].1.len(), 68);
    assert_eq!(disk.current.len(), 68);
}

#[test]
fn zero_limit_rotates_before_every_entry() {
    let mut w = Worker::new(LogBackendBuilder::new().path("test1.log").max_size(0).buffer_size(256).build());
    let mut disk = Disk { buffer: String::new(), capacity: 256, current: String::new(), rotated: vec![], clock: 100 };
    for i in 0..5 {
        let first = w.step_at(Event::Command(LogCommand::Message(format!("entry {}", i))), TS);
        disk.drive(&mut w, first);
    }
    assert_eq!(disk.rotated.len(), 5);
    assert_eq!(w.backend().file_counter(), 5);
    assert_eq!(disk.rotated[0].1, "");
    assert_eq!(disk.rotated[1].1, line("entry 0"));
    assert_eq!(disk.buffer, line("entry 4"));
}
