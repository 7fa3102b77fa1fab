//! A memory-safe model of the callback boundary between a host application
//! and a native GUI toolkit.
//!
//! The heart of the crate is the callback registry: user closures are moved
//! into an arena of slots and addressed through generation-tagged handles, so
//! that invoking a handle whose slot was freed or replaced is a detectable,
//! recoverable condition instead of silent memory corruption. Around it stand
//! an explicit process-wide toolkit guard (a single live initialization per
//! process), the line-ending codec that every text field crosses the boundary
//! through, and value models of the controls whose documented behaviour is
//! worth stating precisely: numeric entries, text entries, tab groups,
//! comboboxes and tables.
//!
//! Callback registrations are intentionally kept for the whole life of the
//! process unless they are freed explicitly when the owning widget goes away:
//! the number of registrations is bounded by the number of controls a human
//! builds, so the leak-for-process-lifetime policy trades a small, bounded
//! amount of memory for simplicity.

pub mod controls;
mod error;
pub mod menus;
pub mod registry;
pub mod str_tools;
mod ui;

pub use crate::error::UIError;
pub use crate::ui::{Toolkit, UI};
