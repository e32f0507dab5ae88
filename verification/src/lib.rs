//! Finds the process that owns a TCP or UDP port in the table that the
//! platform's connection-listing tool prints.
//!
//! The crate runs nothing itself. The caller asks [`get_cmd`] which command
//! lists the connections on its platform, runs it, and hands how it ended to
//! [`pid_from_port`], which searches what the command printed for the first
//! row about the port and reads the process identifier from it.
//!
//! Every function is verified against a statement over sequences of
//! characters: `row` says what a row of the table means, `text` what lines
//! and tokens are, `lookup` which row decides, and `laws` what follows for
//! every input.

pub mod chars;
pub mod error;
pub mod laws;
pub mod lookup;
pub mod number;
pub mod platform;
pub mod row;
pub mod text;

pub use error::LookupError;
pub use lookup::{find_pid, pid_from_port, CommandOutcome};
pub use platform::{column_layout, get_cmd, ColumnLayout, CommandSpec, Platform};
pub use row::{evaluate_row, extract_port, is_protocol_line, parse_pid};
