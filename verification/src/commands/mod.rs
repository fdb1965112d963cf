//! What the command-line verbs decide, apart from the files and processes
//! they touch.
pub mod install;
pub mod list;
pub mod pipeline;
pub mod remove;
pub mod set;
