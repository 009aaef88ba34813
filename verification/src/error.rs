use vstd::prelude::*;

verus! {

/// The classes of failure the watcher distinguishes. Configuration and
/// metadata failures break the watch contract itself and are fatal; a failure
/// local to one run (spawning or executing the command) is reported and the
/// loop continues.
#[derive(Clone, Copy, Debug, PartialEq, Eq, Structural)]
pub enum ErrorKind {
    /// Bad argument count or a watched path missing at startup.
    Config,
    /// A watched path's metadata became unreadable after startup.
    Metadata,
    /// The shell or process could not be started.
    Spawn,
    /// The command started but failed, or its output could not be captured.
    Execution,
}

impl ErrorKind {
    /// A fatal error terminates the process; a recoverable one is isolated to
    /// the run it occurred in.
    pub open spec fn is_fatal_spec(self) -> bool {
        self is Config || self is Metadata
    }

    pub fn is_fatal(&self) -> (r: bool)
        ensures
            r == self.is_fatal_spec(),
    {
        match self {
            ErrorKind::Config => true,
            ErrorKind::Metadata => true,
            ErrorKind::Spawn => false,
            ErrorKind::Execution => false,
        }
    }
}

/// An error carrying its class and a human-readable message.
#[derive(Debug)]
pub struct Error {
    pub kind: ErrorKind,
    pub message: String,
}

impl Error {
    pub fn new(kind: ErrorKind, message: String) -> (e: Error)
        ensures
            e.kind == kind,
            e.message@ == message@,
    {
        Error { kind, message }
    }

    /// Whether this error must terminate the watch loop.
    pub fn is_fatal(&self) -> (r: bool)
        ensures
            r == self.kind.is_fatal_spec(),
    {
        self.kind.is_fatal()
    }

    pub fn message(&self) -> (m: &String)
        ensures
            m@ == self.message@,
    {
        &self.message
    }
}

} // verus!
