use vstd::prelude::*;
use crate::backend::{BackendState, LogBackend};
use crate::clock::{get_timestamp, stamp_at};
use crate::rotation::{rotated_path, rotation_target};
use crate::text::{entry_len, format_line, line_length, line_text};

verus! {

/// A command sent to the worker.
#[derive(Debug)]
pub enum LogCommand {
    /// Write a message (already turned into text).
    Message(String),
    /// Replace the backend; the old one is flushed first.
    Update(LogBackend),
    /// Flush the buffer to the file.
    Flush,
    /// Flush the buffer and stop.
    Terminate,
}

pub enum CommandView {
    Message(Seq<char>),
    Update(BackendState),
    Flush,
    Terminate,
}

impl View for LogCommand {
    type V = CommandView;

    open spec fn view(&self) -> CommandView {
        match self {
            LogCommand::Message(m) => CommandView::Message(m@),
            LogCommand::Update(b) => CommandView::Update(b@),
            LogCommand::Flush => CommandView::Flush,
            LogCommand::Terminate => CommandView::Terminate,
        }
    }
}

/// What the worker is told: a new command, or the outcome of the operation
/// it last asked for.
#[derive(Debug)]
pub enum Event {
    /// A command from the channel.
    Command(LogCommand),
    /// Answer to `InspectBuffer`: bytes waiting in the buffer and its capacity.
    Buffered { len: usize, capacity: usize },
    /// Answer to `FlushWriter`: whether the flush succeeded.
    Flushed(bool),
    /// Answer to `ReadFileLength`: the file's length, if it could be read.
    FileLength(Option<u64>),
    /// Answer to `ReadClock`: nanoseconds since the Unix epoch, if known.
    Clock(Option<u128>),
    /// Answer to `Rename`: whether the file was renamed.
    Renamed(bool),
    /// Answer to `OpenFile`: whether the file was opened.
    Opened(bool),
    /// Answer to `WriteLine` (its outcome is not used).
    Written,
}

pub enum EventView {
    Command(CommandView),
    Buffered { len: usize, capacity: usize },
    Flushed(bool),
    FileLength(Option<u64>),
    Clock(Option<u128>),
    Renamed(bool),
    Opened(bool),
    Written,
}

impl View for Event {
    type V = EventView;

    open spec fn view(&self) -> EventView {
        match self {
            Event::Command(c) => EventView::Command(c@),
            Event::Buffered { len, capacity } => EventView::Buffered { len: *len, capacity: *capacity },
            Event::Flushed(ok) => EventView::Flushed(*ok),
            Event::FileLength(n) => EventView::FileLength(*n),
            Event::Clock(c) => EventView::Clock(*c),
            Event::Renamed(ok) => EventView::Renamed(*ok),
            Event::Opened(ok) => EventView::Opened(*ok),
            Event::Written => EventView::Written,
        }
    }
}

/// What the worker asks its driver to do next.
#[derive(Debug, PartialEq, Eq)]
pub enum Action {
    /// Report the buffer's length and capacity (`Event::Buffered`).
    InspectBuffer,
    /// Flush the buffer to the file (`Event::Flushed`).
    FlushWriter,
    /// Report the file's length on disk (`Event::FileLength`).
    ReadFileLength,
    /// Report the system clock (`Event::Clock`).
    ReadClock,
    /// Rename the log file to this path (`Event::Renamed`).
    Rename(String),
    /// Open the log file for appending, creating it, behind a new buffer of
    /// the backend's buffer size (`Event::Opened`).
    OpenFile,
    /// Write this line through the buffer (`Event::Written`).
    WriteLine(String),
    /// The command is done; hand over the next one.
    Idle,
    /// Take the writer that came with the update in place of the old one;
    /// the command is done.
    InstallUpdate,
    /// The worker has stopped.
    Exit,
}

pub enum ActionView {
    InspectBuffer,
    FlushWriter,
    ReadFileLength,
    ReadClock,
    Rename(Seq<char>),
    OpenFile,
    WriteLine(Seq<char>),
    Idle,
    InstallUpdate,
    Exit,
}

impl View for Action {
    type V = ActionView;

    open spec fn view(&self) -> ActionView {
        match self {
            Action::InspectBuffer => ActionView::InspectBuffer,
            Action::FlushWriter => ActionView::FlushWriter,
            Action::ReadFileLength => ActionView::ReadFileLength,
            Action::ReadClock => ActionView::ReadClock,
            Action::Rename(p) => ActionView::Rename(p@),
            Action::OpenFile => ActionView::OpenFile,
            Action::WriteLine(l) => ActionView::WriteLine(l@),
            Action::Idle => ActionView::Idle,
            Action::InstallUpdate => ActionView::InstallUpdate,
            Action::Exit => ActionView::Exit,
        }
    }
}

/// What follows a flush.
pub enum Next {
    /// The command is done.
    Idle,
    /// The worker stops.
    Exit,
    /// The backend is replaced by this one.
    Install(LogBackend),
    /// The file is rotated, then `line` (counted as `len` bytes) is written.
    Rotate { line: String, len: u64 },
}

pub enum NextView {
    Idle,
    Exit,
    Install(BackendState),
    Rotate { line: Seq<char>, len: u64 },
}

impl View for Next {
    type V = NextView;

    open spec fn view(&self) -> NextView {
        match self {
            Next::Idle => NextView::Idle,
            Next::Exit => NextView::Exit,
            Next::Install(b) => NextView::Install(b@),
            Next::Rotate { line, len } => NextView::Rotate { line: line@, len: *len },
        }
    }
}

/// Where the worker is in handling a command.
pub enum Phase {
    /// Waiting for a command.
    Ready,
    /// Stopped for good.
    Stopped,
    /// Waiting for the buffer's state; it is flushed if it holds bytes (and,
    /// where `when_full`, only if it is full), then `next` follows.
    Inspecting { next: Next, when_full: bool },
    /// Waiting for a flush to end; then the file's length is read.
    Flushing { next: Next },
    /// Waiting for the file's length; then `next` follows.
    Measuring { next: Next },
    /// Rotation: waiting for the flush of the old file.
    RotateFlushing { line: String, len: u64 },
    /// Rotation: waiting for the clock. Where the log file has no rotation
    /// target (no file stem, or no clock), the rotation is given up and the
    /// line is written to the current file.
    ReadingClock { line: String, len: u64 },
    /// Rotation: waiting for the rename of the old file to `to`.
    Renaming { to: String, line: String, len: u64 },
    /// Rotation: the old file renamed, waiting for the new file to be opened.
    Opening { line: String, len: u64 },
    /// Waiting for `line`, counted as `len` bytes, to be written.
    Writing { line: String, len: u64 },
}

pub enum PhaseView {
    Ready,
    Stopped,
    Inspecting { next: NextView, when_full: bool },
    Flushing { next: NextView },
    Measuring { next: NextView },
    RotateFlushing { line: Seq<char>, len: u64 },
    ReadingClock { line: Seq<char>, len: u64 },
    Renaming { to: Seq<char>, line: Seq<char>, len: u64 },
    Opening { line: Seq<char>, len: u64 },
    Writing { line: Seq<char>, len: u64 },
}

impl View for Phase {
    type V = PhaseView;

    open spec fn view(&self) -> PhaseView {
        match self {
            Phase::Ready => PhaseView::Ready,
            Phase::Stopped => PhaseView::Stopped,
            Phase::Inspecting { next, when_full } => PhaseView::Inspecting { next: next@, when_full: *when_full },
            Phase::Flushing { next } => PhaseView::Flushing { next: next@ },
            Phase::Measuring { next } => PhaseView::Measuring { next: next@ },
            Phase::RotateFlushing { line, len } => PhaseView::RotateFlushing { line: line@, len: *len },
            Phase::ReadingClock { line, len } => PhaseView::ReadingClock { line: line@, len: *len },
            Phase::Renaming { to, line, len } => PhaseView::Renaming { to: to@, line: line@, len: *len },
            Phase::Opening { line, len } => PhaseView::Opening { line: line@, len: *len },
            Phase::Writing { line, len } => PhaseView::Writing { line: line@, len: *len },
        }
    }
}

/// The background worker: a backend and where it is in the current command.
pub struct Worker {
    backend: LogBackend,
    phase: Phase,
}

pub struct WorkerView {
    pub backend: BackendState,
    pub phase: PhaseView,
}

impl View for Worker {
    type V = WorkerView;

    closed spec fn view(&self) -> WorkerView {
        WorkerView { backend: self.backend@, phase: self.phase@ }
    }
}

/// The request that a worker in phase `p` waits on the answer to.
pub open spec fn pending_action(p: PhaseView) -> ActionView {
    match p {
        PhaseView::Ready => ActionView::Idle,
        PhaseView::Stopped => ActionView::Exit,
        PhaseView::Inspecting { .. } => ActionView::InspectBuffer,
        PhaseView::Flushing { .. } => ActionView::FlushWriter,
        PhaseView::Measuring { .. } => ActionView::ReadFileLength,
        PhaseView::RotateFlushing { .. } => ActionView::FlushWriter,
        PhaseView::ReadingClock { .. } => ActionView::ReadClock,
        PhaseView::Renaming { to, .. } => ActionView::Rename(to),
        PhaseView::Opening { .. } => ActionView::OpenFile,
        PhaseView::Writing { line, .. } => ActionView::WriteLine(line),
    }
}

/// Whether `e` is what a worker in phase `p` waits for. A stopped worker
/// takes anything (and stays stopped).
pub open spec fn accepts(p: PhaseView, e: EventView) -> bool {
    match p {
        PhaseView::Ready => e is Command,
        PhaseView::Stopped => true,
        PhaseView::Inspecting { .. } => e is Buffered,
        PhaseView::Flushing { .. } => e is Flushed,
        PhaseView::Measuring { .. } => e is FileLength,
        PhaseView::RotateFlushing { .. } => e is Flushed,
        PhaseView::ReadingClock { .. } => e is Clock,
        PhaseView::Renaming { .. } => e is Renamed,
        PhaseView::Opening { .. } => e is Opened,
        PhaseView::Writing { .. } => e is Written,
    }
}

/// What follows once a flush has ended.
pub open spec fn resume(b: BackendState, next: NextView) -> (WorkerView, ActionView) {
    match next {
        NextView::Idle => (WorkerView { backend: b, phase: PhaseView::Ready }, ActionView::Idle),
        NextView::Exit => (WorkerView { backend: b, phase: PhaseView::Stopped }, ActionView::Exit),
        NextView::Install(nb) => (WorkerView { backend: nb, phase: PhaseView::Ready }, ActionView::InstallUpdate),
        NextView::Rotate { line, len } => (
            WorkerView { backend: b, phase: PhaseView::RotateFlushing { line, len } },
            ActionView::FlushWriter,
        ),
    }
}

/// Whether an entry of `len` bytes makes the file reach its size limit, so
/// that the file is rotated before the entry is written.
pub open spec fn reaches_limit(b: BackendState, len: u64) -> bool {
    b.file_size.saturating_add(len) >= b.max_size
}

/// How a worker holding backend `b` starts on command `c`; `ts` is the
/// timestamp for a message.
pub open spec fn start_command(b: BackendState, c: CommandView, ts: Seq<char>) -> (WorkerView, ActionView) {
    match c {
        CommandView::Message(msg) => {
            let line = line_text(ts, msg);
            let len = entry_len(line);
            if reaches_limit(b, len) {
                (
                    WorkerView {
                        backend: b,
                        phase: PhaseView::Inspecting { next: NextView::Rotate { line, len }, when_full: false },
                    },
                    ActionView::InspectBuffer,
                )
            } else {
                (WorkerView { backend: b, phase: PhaseView::Writing { line, len } }, ActionView::WriteLine(line))
            }
        },
        CommandView::Update(nb) => (
            WorkerView { backend: b, phase: PhaseView::Inspecting { next: NextView::Install(nb), when_full: false } },
            ActionView::InspectBuffer,
        ),
        CommandView::Flush => (
            WorkerView { backend: b, phase: PhaseView::Inspecting { next: NextView::Idle, when_full: false } },
            ActionView::InspectBuffer,
        ),
        CommandView::Terminate => (
            WorkerView { backend: b, phase: PhaseView::Inspecting { next: NextView::Exit, when_full: false } },
            ActionView::InspectBuffer,
        ),
    }
}

/// One step of the worker in state `w` on event `e` (`ts` being the
/// timestamp given to a new message): its next state and the operation it
/// asks for. An event that does not answer the pending request leaves the
/// worker as it was and repeats the request.
pub open spec fn worker_step(w: WorkerView, e: EventView, ts: Seq<char>) -> (WorkerView, ActionView) {
    let b = w.backend;
    if !accepts(w.phase, e) {
        (w, pending_action(w.phase))
    } else {
        match w.phase {
            PhaseView::Ready => match e {
                EventView::Command(c) => start_command(b, c, ts),
                _ => (w, ActionView::Idle),
            },
            PhaseView::Stopped => (w, ActionView::Exit),
            PhaseView::Inspecting { next, when_full } => match e {
                EventView::Buffered { len, capacity } => {
                    if when_full && len < capacity {
                        resume(b, next)
                    } else if len > 0 {
                        (WorkerView { backend: b, phase: PhaseView::Flushing { next } }, ActionView::FlushWriter)
                    } else {
                        resume(b, next)
                    }
                },
                _ => (w, ActionView::InspectBuffer),
            },
            PhaseView::Flushing { next } => (
                WorkerView { backend: b, phase: PhaseView::Measuring { next } },
                ActionView::ReadFileLength,
            ),
            PhaseView::Measuring { next } => match e {
                EventView::FileLength(Some(n)) => resume(BackendState { file_size: n, ..b }, next),
                _ => resume(b, next),
            },
            PhaseView::RotateFlushing { line, len } => match e {
                EventView::Flushed(true) => (
                    WorkerView { backend: b, phase: PhaseView::ReadingClock { line, len } },
                    ActionView::ReadClock,
                ),
                _ => (WorkerView { backend: b, phase: PhaseView::Writing { line, len } }, ActionView::WriteLine(line)),
            },
            PhaseView::ReadingClock { line, len } => match e {
                EventView::Clock(c) => match rotation_target(b.path, c, b.file_counter) {
                    Some(to) => (
                        WorkerView { backend: b, phase: PhaseView::Renaming { to, line, len } },
                        ActionView::Rename(to),
                    ),
                    None => (WorkerView { backend: b, phase: PhaseView::Writing { line, len } }, ActionView::WriteLine(line)),
                },
                _ => (w, ActionView::ReadClock),
            },
            PhaseView::Renaming { to, line, len } => match e {
                EventView::Renamed(true) => (
                    WorkerView { backend: b, phase: PhaseView::Opening { line, len } },
                    ActionView::OpenFile,
                ),
                _ => (WorkerView { backend: b, phase: PhaseView::Writing { line, len } }, ActionView::WriteLine(line)),
            },
            PhaseView::Opening { line, len } => match e {
                EventView::Opened(true) => (
                    WorkerView {
                        backend: BackendState {
                            file_counter: b.file_counter.wrapping_add(1),
                            file_size: 0,
                            ..b
                        },
                        phase: PhaseView::Writing { line, len },
                    },
                    ActionView::WriteLine(line),
                ),
                _ => (WorkerView { backend: b, phase: PhaseView::Writing { line, len } }, ActionView::WriteLine(line)),
            },
            PhaseView::Writing { line, len } => (
                WorkerView {
                    backend: BackendState { file_size: b.file_size.saturating_add(len), ..b },
                    phase: PhaseView::Inspecting { next: NextView::Idle, when_full: true },
                },
                ActionView::InspectBuffer,
            ),
        }
    }
}

impl Worker {
    /// A worker for `backend`, waiting for its first command.
    pub fn new(backend: LogBackend) -> (r: Worker)
        ensures
            r@ == (WorkerView { backend: backend@, phase: PhaseView::Ready }),
    {
        Worker { backend, phase: Phase::Ready }
    }

    /// The backend the worker holds.
    pub fn backend(&self) -> (r: &LogBackend)
        ensures
            r@ == self@.backend,
    {
        &self.backend
    }

    /// Whether the worker has stopped.
    pub fn is_stopped(&self) -> (r: bool)
        ensures
            r == (self@.phase is Stopped),
    {
        match self.phase {
            Phase::Stopped => true,
            _ => false,
        }
    }

    /// Whether the worker waits for a command.
    pub fn is_ready(&self) -> (r: bool)
        ensures
            r == (self@.phase is Ready),
    {
        match self.phase {
            Phase::Ready => true,
            _ => false,
        }
    }

    fn pending(&self) -> (r: Action)
        ensures
            r@ == pending_action(self@.phase),
    {
        match &self.phase {
            Phase::Ready => Action::Idle,
            Phase::Stopped => Action::Exit,
            Phase::Inspecting { .. } => Action::InspectBuffer,
            Phase::Flushing { .. } => Action::FlushWriter,
            Phase::Measuring { .. } => Action::ReadFileLength,
            Phase::RotateFlushing { .. } => Action::FlushWriter,
            Phase::ReadingClock { .. } => Action::ReadClock,
            Phase::Renaming { to, .. } => Action::Rename(to.clone()),
            Phase::Opening { .. } => Action::OpenFile,
            Phase::Writing { line, .. } => Action::WriteLine(line.clone()),
        }
    }

    fn accepts(&self, e: &Event) -> (r: bool)
        ensures
            r == accepts(self@.phase, e@),
    {
        match &self.phase {
            Phase::Ready => match e {
                Event::Command(_) => true,
                _ => false,
            },
            Phase::Stopped => true,
            Phase::Inspecting { .. } => match e {
                Event::Buffered { .. } => true,
                _ => false,
            },
            Phase::Flushing { .. } => match e {
                Event::Flushed(_) => true,
                _ => false,
            },
            Phase::Measuring { .. } => match e {
                Event::FileLength(_) => true,
                _ => false,
            },
            Phase::RotateFlushing { .. } => match e {
                Event::Flushed(_) => true,
                _ => false,
            },
            Phase::ReadingClock { .. } => match e {
                Event::Clock(_) => true,
                _ => false,
            },
            Phase::Renaming { .. } => match e {
                Event::Renamed(_) => true,
                _ => false,
            },
            Phase::Opening { .. } => match e {
                Event::Opened(_) => true,
                _ => false,
            },
            Phase::Writing { .. } => match e {
                Event::Written => true,
                _ => false,
            },
        }
    }

    /// Continues with `next` once a flush has ended.
    fn resume(&mut self, next: Next) -> (r: Action)
        ensures
            (final(self)@, r@) == resume(old(self)@.backend, next@),
    {
        match next {
            Next::Idle => {
                self.phase = Phase::Ready;
                Action::Idle
            },
            Next::Exit => {
                self.phase = Phase::Stopped;
                Action::Exit
            },
            Next::Install(nb) => {
                self.backend = nb;
                self.phase = Phase::Ready;
                Action::InstallUpdate
            },
            Next::Rotate { line, len } => {
                self.phase = Phase::RotateFlushing { line, len };
                Action::FlushWriter
            },
        }
    }

    fn start(&mut self, c: LogCommand, ts: &str) -> (r: Action)
        ensures
            (final(self)@, r@) == start_command(old(self)@.backend, c@, ts@),
    {
        match c {
            LogCommand::Message(msg) => {
                let line = format_line(ts, msg.as_str());
                let len = line_length(line.as_str());
                if self.backend.file_size().saturating_add(len) >= self.backend.max_size() {
                    self.phase = Phase::Inspecting { next: Next::Rotate { line, len }, when_full: false };
                    Action::InspectBuffer
                } else {
                    let out = line.clone();
                    self.phase = Phase::Writing { line, len };
                    Action::WriteLine(out)
                }
            },
            LogCommand::Update(nb) => {
                self.phase = Phase::Inspecting { next: Next::Install(nb), when_full: false };
                Action::InspectBuffer
            },
            LogCommand::Flush => {
                self.phase = Phase::Inspecting { next: Next::Idle, when_full: false };
                Action::InspectBuffer
            },
            LogCommand::Terminate => {
                self.phase = Phase::Inspecting { next: Next::Exit, when_full: false };
                Action::InspectBuffer
            },
        }
    }

    /// Takes one step on event `e`, with `ts` as the timestamp of a message
    /// that starts now.
    pub fn step_at(&mut self, e: Event, ts: &str) -> (r: Action)
        ensures
            (final(self)@, r@) == worker_step(old(self)@, e@, ts@),
    {
        if !self.accepts(&e) {
            return self.pending();
        }
        let mut phase = Phase::Ready;
        std::mem::swap(&mut phase, &mut self.phase);
        match phase {
            Phase::Ready => match e {
                Event::Command(c) => self.start(c, ts),
                _ => {
                    proof { assert(false); }
                    Action::Idle
                },
            },
            Phase::Stopped => {
                self.phase = Phase::Stopped;
                Action::Exit
            },
            Phase::Inspecting { next, when_full } => match e {
                Event::Buffered { len, capacity } => {
                    if when_full && len < capacity {
                        self.resume(next)
                    } else if len > 0 {
                        self.phase = Phase::Flushing { next };
                        Action::FlushWriter
                    } else {
                        self.resume(next)
                    }
                },
                _ => {
                    proof { assert(false); }
                    Action::Idle
                },
            },
            Phase::Flushing { next } => {
                self.phase = Phase::Measuring { next };
                Action::ReadFileLength
            },
            Phase::Measuring { next } => match e {
                Event::FileLength(Some(n)) => {
                    self.backend.set_file_size(n);
                    self.resume(next)
                },
                _ => self.resume(next),
            },
            Phase::RotateFlushing { line, len } => match e {
                Event::Flushed(true) => {
                    self.phase = Phase::ReadingClock { line, len };
                    Action::ReadClock
                },
                _ => {
                    let out = line.clone();
                    self.phase = Phase::Writing { line, len };
                    Action::WriteLine(out)
                },
            },
            Phase::ReadingClock { line, len } => match e {
                Event::Clock(c) => match rotated_path(self.backend.path(), c, self.backend.file_counter()) {
                    Some(to) => {
                        let out = to.clone();
                        self.phase = Phase::Renaming { to, line, len };
                        Action::Rename(out)
                    },
                    None => {
                        let out = line.clone();
                        self.phase = Phase::Writing { line, len };
                        Action::WriteLine(out)
                    },
                },
                _ => {
                    proof { assert(false); }
                    Action::Idle
                },
            },
            Phase::Renaming { to, line, len } => match e {
                Event::Renamed(true) => {
                    self.phase = Phase::Opening { line, len };
                    Action::OpenFile
                },
                _ => {
                    let out = line.clone();
                    self.phase = Phase::Writing { line, len };
                    Action::WriteLine(out)
                },
            },
            Phase::Opening { line, len } => match e {
                Event::Opened(true) => {
                    self.backend.count_rotation();
                    let out = line.clone();
                    self.phase = Phase::Writing { line, len };
                    Action::WriteLine(out)
                },
                _ => {
                    let out = line.clone();
                    self.phase = Phase::Writing { line, len };
                    Action::WriteLine(out)
                },
            },
            Phase::Writing { line, len } => {
                self.backend.count_written(len);
                self.phase = Phase::Inspecting { next: Next::Idle, when_full: true };
                Action::InspectBuffer
            },
        }
    }

    /// Takes one step on event `e`, `now_nanos` being the clock's reading
    /// (nanoseconds since the Unix epoch): a message that starts at this step
    /// is stamped with that time (see `get_timestamp`).
    pub fn step(&mut self, e: Event, now_nanos: i128) -> (r: Action)
        ensures
            (final(self)@, r@) == worker_step(old(self)@, e@, stamp_at(now_nanos)),
    {
        let stamped = match &self.phase {
            Phase::Ready => match &e {
                Event::Command(LogCommand::Message(_)) => true,
                _ => false,
            },
            _ => false,
        };
        if stamped {
            let ts = get_timestamp(now_nanos);
            self.step_at(e, ts.as_str())
        } else {
            let r = self.step_at(e, "");
            r
        }
    }
}

} // verus!
