//! A capability bridge between a host and its sandboxed extensions.
//!
//! The host owns a queue of [`Commands`]. For the length of one call into an
//! extension it lends that queue out through a single shared slot, the
//! [`RefMutMutex`]; the extension reaches it only through an integer
//! [`Handle`] that the extension's [`HandleTable`] resolves. When the call
//! returns the slot is cleared and the handle released, and its number is
//! never given out again, so nothing the extension kept can reach the queue
//! afterwards.
//!
//! [`StartupMods`] drives one such invocation per loaded extension and tick.
//! It makes every decision and performs no call itself: it tells its driver
//! which extension to call next and is told how the call ended.

pub mod commands;
pub mod error;
pub mod handle_table;
pub mod laws;
pub mod ref_mutex;
pub mod startup_mod;
pub mod startup_mods;

pub use commands::{Commands, Mutation};
pub use error::BridgeError;
pub use handle_table::{Handle, HandleTable, ImplCommands};
pub use ref_mutex::{RefMutMutex, RefMutMutexGuard};
pub use startup_mod::{Outcome, Phase, StartupMod};
pub use startup_mods::{Action, Completion, HostCall, StartupMods};
