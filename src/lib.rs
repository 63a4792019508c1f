//! Mirror and control of a compositor's windows, outputs, workspaces and
//! workspace groups.
//!
//! `cosmic` holds the mirror and applies server events to it; `convergence`
//! decides when the mirror is complete enough for a command; `output`,
//! `toplevel` and `workspace` resolve what the user names and turn intents
//! into protocol requests; `print` renders listings as text or JSON.

pub mod args;
pub mod convergence;
pub mod cosmic;
pub mod error;
pub mod output;
pub mod print;
pub mod toplevel;
pub mod workspace;
