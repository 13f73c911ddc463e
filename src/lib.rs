//! Decision logic of a git convenience front-end: which operation may run,
//! which error it reports, which branches a pattern removes, and how
//! commits and branches are shown.

pub mod branch;
pub mod cli;
pub mod error;
pub mod history;
pub mod pattern;
pub mod workflow;
