//! A single global keyboard shortcut for a desktop application.
//!
//! The library holds the one currently registered shortcut (as its textual
//! form) and decides every step of the register, unregister and query
//! operations: which old registration to clean up, whether a new text is
//! accepted by the OS shortcut subsystem's parser, which error message each
//! failure produces, and which application event a press or release
//! notification turns into.  The host performs the OS-side calls the
//! decisions ask for and feeds their outcomes back.

pub mod error;
pub mod event;
pub mod manager;
pub mod model;
