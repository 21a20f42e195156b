//! Jot: a minimal note-taking system.
//!
//! The library holds the rules shared by the two Jot programs: the note model and
//! its priorities, the inbox ordering, session cookies and registration checks of the
//! web inbox, and the input state machine and layout of the scratchpad.
use vstd::prelude::*;

pub mod auth;
pub mod decimal;
pub mod geometry;
pub mod inbox;
pub mod note;
pub mod scratchpad;
