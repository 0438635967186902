//! A logger that hands formatting and file output to a background worker,
//! and rotates its file when the file reaches a size limit.
//!
//! The verified part of the logger: the configuration of a backend, the
//! worker's decisions (when to flush, when to rotate, what line to write and
//! how the recorded file size changes), the names of rotated files, and the
//! bookkeeping of the process-wide logger (what `init`, `send` and `shutdown`
//! decide). Performing the file and channel operations is left to the caller,
//! which drives the worker with the outcome of each operation it asked for.

pub mod backend;
pub mod text;
pub mod clock;
pub mod rotation;
pub mod worker;
pub mod log;
pub mod laws;
