//! The failure taxonomy every operation of the control layer reports.

use vstd::prelude::*;

verus! {

/// The classes of failure an operation can return.  Each carries what
/// its display message needs; the verified functions return these
/// rather than panic (the clock read behind the screenshot flow is the
/// one call that can abort, on a hostile system clock).
#[derive(Debug, Clone, PartialEq, Eq)]
pub enum Error {
    /// The SDK root is not configured and no environment fallback exists.
    ConfigurationMissing,
    /// The resolved tool path does not exist on disk; holds that path.
    ToolNotFound(String),
    /// The operating system could not create or observe the child
    /// process; holds the detail supplied by the embedder.
    SpawnError(String),
    /// The external tool ran and exited with failure; holds the message
    /// shown to the caller.
    CommandFailed(String),
    /// No live session matches the requested identity; holds the message
    /// shown to the caller.
    DeviceNotFound(String),
}

/// The display message of an error, over character sequences.
pub open spec fn message_spec(e: Error) -> Seq<char> {
    match e {
        Error::ConfigurationMissing => "Android SDK path not configured. Please set it in Settings."@,
        Error::ToolNotFound(p) => "Emulator not found at: "@ + p@
            + ". Please check your Android SDK path in Settings."@,
        Error::SpawnError(m) => m@,
        Error::CommandFailed(m) => m@,
        Error::DeviceNotFound(m) => m@,
    }
}

impl Error {
    /// The human-readable message suitable for direct display.
    pub fn message(&self) -> (r: String)
        ensures
            r@ == message_spec(*self),
    {
        match self {
            Error::ConfigurationMissing => String::from_str(
                "Android SDK path not configured. Please set it in Settings.",
            ),
            Error::ToolNotFound(p) => {
                let mut s = String::from_str("Emulator not found at: ");
                s.append(p.as_str());
                s.append(". Please check your Android SDK path in Settings.");
                s
            },
            Error::SpawnError(m) => m.clone(),
            Error::CommandFailed(m) => m.clone(),
            Error::DeviceNotFound(m) => m.clone(),
        }
    }
}

} // verus!
