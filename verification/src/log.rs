use vstd::prelude::*;
use crate::backend::{LogBackend, LogBackendBuilder, fresh_backend, default_path, MAX_SIZE, BUFFER_SIZE,
    CHANNEL_SIZE};
use crate::worker::{CommandView, LogCommand};

verus! {

/// The handle that a program keeps while it logs; dropping it shuts the
/// logger down.
pub struct Log;

impl Default for Log {
    fn default() -> (r: Log) {
        Log
    }
}

/// What the process-wide logger has set up: whether a command sender is
/// installed, whether the place for the worker's handle is installed, and
/// whether a worker handle is there that has not been joined.
pub struct RegistryState {
    pub sender_installed: bool,
    pub receiver_installed: bool,
    pub worker_joinable: bool,
}

/// The process-wide logger's bookkeeping. The sender and the place for the
/// worker's handle are each set once, by the first start; the handle is
/// taken (and the worker joined) at most once.
#[derive(Debug)]
pub struct LogRegistry {
    sender_installed: bool,
    receiver_installed: bool,
    worker_joinable: bool,
}

impl View for LogRegistry {
    type V = RegistryState;

    closed spec fn view(&self) -> RegistryState {
        RegistryState {
            sender_installed: self.sender_installed,
            receiver_installed: self.receiver_installed,
            worker_joinable: self.worker_joinable,
        }
    }
}

/// How to start a worker: the backend it runs (its channel holds
/// `backend.channel_size()` commands), whether its sender becomes the
/// logger's sender, and whether its handle is kept for `shutdown`. The
/// worker is started in either case.
#[derive(Debug)]
pub struct StartPlan {
    pub backend: LogBackend,
    pub install_sender: bool,
    pub install_worker: bool,
}

/// How to shut down: whether to send `Terminate` through the logger's
/// sender, and whether to take the worker's handle and join it.
#[derive(Debug, PartialEq, Eq)]
pub struct StopPlan {
    pub send_terminate: bool,
    pub join_worker: bool,
}

/// The registry after a worker is started from registry `r`: the first
/// start installs the sender and the worker's handle; later ones change
/// nothing.
pub open spec fn registry_after_start(r: RegistryState) -> RegistryState {
    RegistryState {
        sender_installed: true,
        receiver_installed: true,
        worker_joinable: if r.receiver_installed { r.worker_joinable } else { true },
    }
}

/// Whether shutting down from registry `r` joins the worker, given whether
/// the lock on the worker's handle could be taken.
pub open spec fn joins_worker(r: RegistryState, lock_acquired: bool) -> bool {
    r.receiver_installed && lock_acquired && r.worker_joinable
}

/// The registry after a shutdown from registry `r`: the worker's handle is
/// gone where the shutdown joined it; nothing else changes.
pub open spec fn registry_after_shutdown(r: RegistryState, lock_acquired: bool) -> RegistryState {
    RegistryState { worker_joinable: r.worker_joinable && !joins_worker(r, lock_acquired), ..r }
}

/// Whether a message sent through registry `r` is handed to the logger's
/// channel: exactly where a sender is installed, for a lazily formatted
/// message as for a formatted one. (After a shutdown the sender stays
/// installed, but the worker has stopped, so what is handed over then is
/// not written.)
pub open spec fn dispatches(r: RegistryState) -> bool {
    r.sender_installed
}

impl LogRegistry {
    /// Nothing set up yet.
    pub fn new() -> (r: LogRegistry)
        ensures
            r@ == (RegistryState { sender_installed: false, receiver_installed: false, worker_joinable: false }),
    {
        LogRegistry { sender_installed: false, receiver_installed: false, worker_joinable: false }
    }

    /// Whether a command sender is installed.
    pub fn sender_installed(&self) -> (r: bool)
        ensures
            r == self@.sender_installed,
    {
        self.sender_installed
    }

    /// Whether a worker handle is waiting to be joined.
    pub fn worker_joinable(&self) -> (r: bool)
        ensures
            r == self@.worker_joinable,
    {
        self.worker_joinable
    }
}

impl Log {
    /// Starts the logger with the default backend (`log.log`, 10 MiB).
    pub fn init(registry: &mut LogRegistry) -> (r: StartPlan)
        ensures
            r.backend@ == fresh_backend(default_path(), MAX_SIZE, BUFFER_SIZE, CHANNEL_SIZE),
            r.install_sender == !old(registry)@.sender_installed,
            r.install_worker == !old(registry)@.receiver_installed,
            final(registry)@ == registry_after_start(old(registry)@),
    {
        Log::init_with_backend(registry, LogBackend::new())
    }

    /// Starts the logger writing to `path` and rotating at `max_size` bytes,
    /// with the other settings at their defaults.
    pub fn init_with(registry: &mut LogRegistry, path: &str, max_size: u64) -> (r: StartPlan)
        ensures
            r.backend@ == fresh_backend(path@, max_size, BUFFER_SIZE, CHANNEL_SIZE),
            r.install_sender == !old(registry)@.sender_installed,
            r.install_worker == !old(registry)@.receiver_installed,
            final(registry)@ == registry_after_start(old(registry)@),
    {
        let backend = LogBackendBuilder::new().path(path).max_size(max_size).build();
        Log::init_with_backend(registry, backend)
    }

    /// Starts the logger with a configured backend.
    pub fn init_with_backend(registry: &mut LogRegistry, backend: LogBackend) -> (r: StartPlan)
        ensures
            r.backend@ == backend@,
            r.install_sender == !old(registry)@.sender_installed,
            r.install_worker == !old(registry)@.receiver_installed,
            final(registry)@ == registry_after_start(old(registry)@),
    {
        let install_sender = !registry.sender_installed;
        let install_worker = !registry.receiver_installed;
        registry.sender_installed = true;
        if install_worker {
            registry.receiver_installed = true;
            registry.worker_joinable = true;
        }
        StartPlan { backend, install_sender, install_worker }
    }

    /// Passes on a lazily formatted message: `Some(f)`, to be sent to the
    /// worker, where the logger has a sender; `None` (the message is
    /// dropped) where it has not been started.
    pub fn send<F>(registry: &LogRegistry, f: F) -> (r: Option<F>)
        where
            F: FnOnce() -> String + Send + 'static,
        ensures
            r == (if dispatches(registry@) { Some(f) } else { None::<F> }),
    {
        if registry.sender_installed {
            Some(f)
        } else {
            None
        }
    }

    /// The command that carries a formatted message to the worker, where the
    /// logger has a sender; `None` (the message is dropped) where it has not
    /// been started.
    pub fn send_owned(registry: &LogRegistry, msg: String) -> (r: Option<LogCommand>)
        ensures
            match r {
                Some(c) => dispatches(registry@) && c@ == CommandView::Message(msg@),
                None => !dispatches(registry@),
            },
    {
        if registry.sender_installed {
            Some(LogCommand::Message(msg))
        } else {
            None
        }
    }

    /// Shuts the logger down: `Terminate` goes to the worker where there is
    /// a sender, and the worker is joined where its handle is still there
    /// and its lock could be taken (`lock_acquired`); the handle is then gone.
    pub fn shutdown(registry: &mut LogRegistry, lock_acquired: bool) -> (r: StopPlan)
        ensures
            r.send_terminate == old(registry)@.sender_installed,
            r.join_worker == joins_worker(old(registry)@, lock_acquired),
            final(registry)@ == registry_after_shutdown(old(registry)@, lock_acquired),
    {
        let send_terminate = registry.sender_installed;
        let join_worker = registry.receiver_installed && lock_acquired && registry.worker_joinable;
        if join_worker {
            registry.worker_joinable = false;
        }
        StopPlan { send_terminate, join_worker }
    }
}

} // verus!
