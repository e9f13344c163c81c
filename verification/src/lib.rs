//! Core logic of a small terminal task dashboard: the panel navigation state
//! machine, the modal overlay flag, the selection cursor over the task list,
//! and the key dispatcher that drives them.

pub mod cursor;
pub mod dispatch;
pub mod events;
pub mod layout;
pub mod menu;
pub mod tasks;

use vstd::prelude::*;

verus! {

/// Errors surfaced by the dispatcher and the task-list operations.
#[derive(Clone, Copy, Debug, PartialEq, Eq, Structural)]
pub enum LocalError {
    /// An unspecified failure.
    Generic,
    /// The task store could not be read (or written back).
    CannotReadFromFile,
    /// A popup interaction reached a panel that defines no modal handler.
    UnsupportedModal,
}

} // verus!
