//! Prints the log of a GitLab CI job with its sections: reads the section
//! markers of the log, keeps track of the sections that are open, shows the
//! lines that the caller asks for and a banner for each section that opens.
//! Also words the short messages about projects, pipelines, jobs and
//! protected tags.
//!
//! Nothing here writes to a terminal: what is printed is added, message by
//! message, to a list that the caller writes out.

pub mod ansi;
pub mod args;
pub mod cmd;
pub mod color;
pub mod fmt;
pub mod lines;
pub mod machine;
pub mod section;
pub mod text;
pub mod types;
pub mod utils;
