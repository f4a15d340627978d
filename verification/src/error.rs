//! The failures that the bridge reports to its callers.

use vstd::prelude::*;

verus! {

/// What the bridge reports when something did not go through.
///
/// Every variant is recoverable: it is handed back to whoever asked, and the
/// host goes on. A request that is answered with `NoActiveWindow` or
/// `UnknownHandle` changed nothing. `SandboxCallFailed` is the report of an
/// invocation that is over: by then its window is closed and its handle
/// released.
#[derive(Clone, Copy, Debug, PartialEq, Eq, Structural)]
pub enum BridgeError {
    /// The shared slot holds no capability: no window is open.
    NoActiveWindow,
    /// The handle names no live proxy: it was never allocated, or it was
    /// released already.
    UnknownHandle,
    /// The extension's entry point trapped or returned an error.
    SandboxCallFailed,
}

impl BridgeError {
    /// The text of [`BridgeError::as_str`].
    pub open spec fn text(self) -> Seq<char> {
        match self {
            BridgeError::NoActiveWindow => "no active window"@,
            BridgeError::UnknownHandle => "unknown handle"@,
            BridgeError::SandboxCallFailed => "sandbox call failed"@,
        }
    }

    /// A short description, for logs.
    pub fn as_str(&self) -> (s: &'static str)
        ensures
            s@ == self.text(),
    {
        match self {
            BridgeError::NoActiveWindow => "no active window",
            BridgeError::UnknownHandle => "unknown handle",
            BridgeError::SandboxCallFailed => "sandbox call failed",
        }
    }
}

} // verus!
