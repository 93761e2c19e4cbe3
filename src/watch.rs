//! Which file-change notifications trigger the pipeline.

use vstd::prelude::*;

verus! {

/// How a file was opened, for access events.
#[derive(Clone, Copy, Debug, PartialEq, Eq)]
pub enum AccessMode {
    Any,
    Execute,
    Read,
    Write,
    Other,
}

/// The kind of an access to a file.
#[derive(Clone, Copy, Debug, PartialEq, Eq)]
pub enum AccessKind {
    Any,
    Read,
    Open(AccessMode),
    Close(AccessMode),
    Other,
}

/// The kind of a file-change notification.
#[derive(Clone, Copy, Debug, PartialEq, Eq)]
pub enum EventKind {
    Any,
    Access(AccessKind),
    Create,
    Modify,
    Remove,
    Other,
}

/// The event kind that means the file was written and closed.
pub open spec fn is_write_close(kind: EventKind) -> bool {
    kind == EventKind::Access(AccessKind::Close(AccessMode::Write))
}

/// What to do with one notification.
#[derive(Clone, Debug)]
pub enum Action {
    /// Read and process the watched file.
    Process,
    /// Drop the notification.
    Ignore,
    /// Report a transient watch error and go on watching.
    Report(String),
}

/// Whether a notification of this kind means the file was fully written.
pub fn triggers_processing(kind: EventKind) -> (r: bool)
    ensures
        r == is_write_close(kind),
{
    match kind {
        EventKind::Access(AccessKind::Close(AccessMode::Write)) => true,
        _ => false,
    }
}

/// Decides what to do with one item of the notification channel: a
/// notification of a given kind, or a watch error with its description.
pub fn on_event(event: Result<EventKind, String>) -> (r: Action)
    ensures
        event matches Ok(k) ==> (
            if is_write_close(k) { r matches Action::Process } else { r matches Action::Ignore }),
        event matches Err(m) ==> r matches Action::Report(n) && n@ == m@,
{
    match event {
        Ok(k) => {
            if triggers_processing(k) {
                Action::Process
            } else {
                Action::Ignore
            }
        },
        Err(m) => Action::Report(m),
    }
}

} // verus!
