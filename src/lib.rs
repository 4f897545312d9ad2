//! A keyboard-driven command picker: candidates are filtered by what is typed,
//! ranked shortest first, completed and cycled through, and the chosen text is
//! turned into a command to launch.

pub mod candidates;
pub mod command;
pub mod matcher;
pub mod present;
pub mod ranker;
pub mod selected;
pub mod session;
pub mod style;
