use vstd::prelude::*;

verus! {

/// Capacity of the output buffer when none is configured (64 KiB).
pub const BUFFER_SIZE: usize = 65536;

/// Capacity of the command channel when none is configured.
pub const CHANNEL_SIZE: usize = 1024;

/// Size limit of one log file when none is configured (10 MiB).
pub const MAX_SIZE: u64 = 10485760;

/// The file name used when none is configured.
pub open spec fn default_path() -> Seq<char> {
    seq!['l', 'o', 'g', '.', 'l', 'o', 'g']
}

/// Returns the file name used when none is configured: `log.log`.
pub fn default_path_string() -> (r: String)
    ensures
        r@ == default_path(),
{
    let s = "log.log";
    proof {
        reveal_strlit("log.log");
    }
    String::from_str(s)
}

/// The abstract state of a backend: its configuration and what it has
/// recorded of the file it writes.
pub struct BackendState {
    pub path: Seq<char>,
    pub max_size: u64,
    pub buffer_size: usize,
    pub channel_size: usize,
    pub file_counter: usize,
    pub file_size: u64,
}

/// The engine's state: where it writes, when it rotates, how large its
/// buffer and command channel are, how many rotations it has made and how
/// many bytes it counts in the current file.
#[derive(Debug)]
pub struct LogBackend {
    path: String,
    max_size: u64,
    buffer_size: usize,
    channel_size: usize,
    file_counter: usize,
    file_size: u64,
}

impl View for LogBackend {
    type V = BackendState;

    closed spec fn view(&self) -> BackendState {
        BackendState {
            path: self.path@,
            max_size: self.max_size,
            buffer_size: self.buffer_size,
            channel_size: self.channel_size,
            file_counter: self.file_counter,
            file_size: self.file_size,
        }
    }
}

/// A fresh backend for the given configuration: no rotation made yet and
/// nothing counted in the file.
pub open spec fn fresh_backend(
    path: Seq<char>,
    max_size: u64,
    buffer_size: usize,
    channel_size: usize,
) -> BackendState {
    BackendState { path, max_size, buffer_size, channel_size, file_counter: 0, file_size: 0 }
}

impl LogBackend {
    /// The default backend: writes to `log.log`, rotates at 10 MiB, with a
    /// 64 KiB buffer and a channel of 1024 commands.
    pub fn new() -> (r: LogBackend)
        ensures
            r@ == fresh_backend(default_path(), MAX_SIZE, BUFFER_SIZE, CHANNEL_SIZE),
    {
        LogBackend {
            path: default_path_string(),
            max_size: MAX_SIZE,
            buffer_size: BUFFER_SIZE,
            channel_size: CHANNEL_SIZE,
            file_counter: 0,
            file_size: 0,
        }
    }

    /// The path of the log file.
    pub fn path(&self) -> (r: &str)
        ensures
            r@ == self@.path,
    {
        self.path.as_str()
    }

    /// The size in bytes at which the file is rotated.
    pub fn max_size(&self) -> (r: u64)
        ensures
            r == self@.max_size,
    {
        self.max_size
    }

    /// The capacity of the output buffer in bytes.
    pub fn buffer_size(&self) -> (r: usize)
        ensures
            r == self@.buffer_size,
    {
        self.buffer_size
    }

    /// The number of commands that may wait in the channel.
    pub fn channel_size(&self) -> (r: usize)
        ensures
            r == self@.channel_size,
    {
        self.channel_size
    }

    /// How many rotations have been made (wrapping).
    pub fn file_counter(&self) -> (r: usize)
        ensures
            r == self@.file_counter,
    {
        self.file_counter
    }

    /// The number of bytes counted in the current file.
    pub fn file_size(&self) -> (r: u64)
        ensures
            r == self@.file_size,
    {
        self.file_size
    }

    /// Counts `len` more bytes in the current file (saturating).
    pub(crate) fn count_written(&mut self, len: u64)
        ensures
            final(self)@ == (BackendState {
                file_size: old(self)@.file_size.saturating_add(len),
                ..old(self)@
            }),
    {
        self.file_size = self.file_size.saturating_add(len);
    }

    /// Takes the file's size from what the file system reports.
    pub(crate) fn set_file_size(&mut self, size: u64)
        ensures
            final(self)@ == (BackendState { file_size: size, ..old(self)@ }),
    {
        self.file_size = size;
    }

    /// Records a completed rotation: one more file, and an empty one.
    pub(crate) fn count_rotation(&mut self)
        ensures
            final(self)@ == (BackendState {
                file_counter: old(self)@.file_counter.wrapping_add(1),
                file_size: 0,
                ..old(self)@
            }),
    {
        self.file_counter = self.file_counter.wrapping_add(1);
        self.file_size = 0;
    }
}

/// Configures a `LogBackend`; each setting left out takes its default.
#[derive(Debug, Default)]
pub struct LogBackendBuilder {
    path: Option<String>,
    max_size: Option<u64>,
    buffer_size: Option<usize>,
    channel_size: Option<usize>,
}

/// The settings a builder holds; `None` for those left to their default.
pub struct BuilderState {
    pub path: Option<Seq<char>>,
    pub max_size: Option<u64>,
    pub buffer_size: Option<usize>,
    pub channel_size: Option<usize>,
}

impl View for LogBackendBuilder {
    type V = BuilderState;

    closed spec fn view(&self) -> BuilderState {
        BuilderState {
            path: match self.path {
                Some(p) => Some(p@),
                None => None,
            },
            max_size: self.max_size,
            buffer_size: self.buffer_size,
            channel_size: self.channel_size,
        }
    }
}

/// The backend that a builder in state `b` builds.
pub open spec fn built_backend(b: BuilderState) -> BackendState {
    fresh_backend(
        match b.path {
            Some(p) => p,
            None => default_path(),
        },
        match b.max_size {
            Some(m) => m,
            None => MAX_SIZE,
        },
        match b.buffer_size {
            Some(s) => s,
            None => BUFFER_SIZE,
        },
        match b.channel_size {
            Some(s) => s,
            None => CHANNEL_SIZE,
        },
    )
}

impl LogBackendBuilder {
    /// A builder with every setting left to its default.
    pub fn new() -> (r: LogBackendBuilder)
        ensures
            r@ == (BuilderState { path: None, max_size: None, buffer_size: None, channel_size: None }),
    {
        LogBackendBuilder { path: None, max_size: None, buffer_size: None, channel_size: None }
    }

    /// Sets the log file path.
    pub fn path(self, path: &str) -> (r: LogBackendBuilder)
        ensures
            r@ == (BuilderState { path: Some(path@), ..self@ }),
    {
        LogBackendBuilder { path: Some(String::from_str(path)), ..self }
    }

    /// Sets the size in bytes at which a file is rotated.
    pub fn max_size(self, size: u64) -> (r: LogBackendBuilder)
        ensures
            r@ == (BuilderState { max_size: Some(size), ..self@ }),
    {
        LogBackendBuilder { max_size: Some(size), ..self }
    }

    /// Sets the capacity of the output buffer in bytes.
    pub fn buffer_size(self, size: usize) -> (r: LogBackendBuilder)
        ensures
            r@ == (BuilderState { buffer_size: Some(size), ..self@ }),
    {
        LogBackendBuilder { buffer_size: Some(size), ..self }
    }

    /// Sets the capacity of the command channel (number of pending commands).
    pub fn channel_size(self, size: usize) -> (r: LogBackendBuilder)
        ensures
            r@ == (BuilderState { channel_size: Some(size), ..self@ }),
    {
        LogBackendBuilder { channel_size: Some(size), ..self }
    }

    /// The backend with the settings given and the defaults for the others.
    pub fn build(self) -> (r: LogBackend)
        ensures
            r@ == built_backend(self@),
    {
        let path = match self.path {
            Some(p) => p,
            None => default_path_string(),
        };
        let max_size = match self.max_size {
            Some(m) => m,
            None => MAX_SIZE,
        };
        let buffer_size = match self.buffer_size {
            Some(s) => s,
            None => BUFFER_SIZE,
        };
        let channel_size = match self.channel_size {
            Some(s) => s,
            None => CHANNEL_SIZE,
        };
        LogBackend { path, max_size, buffer_size, channel_size, file_counter: 0, file_size: 0 }
    }
}

} // verus!
