//! Verified core of the Project Sunrise launcher: the CrossOver bottle rules on macOS, the
//! parsing of CrossOver's files, the argument lists handed to its tools, and the decisions the
//! launcher's commands take between their reads and writes.

pub mod text;
pub mod error;
pub mod models;
pub mod paths;
pub mod crossover;
pub mod commands;
