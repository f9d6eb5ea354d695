//! Time-tracking log: argument handling, path resolution and record
//! formatting for a command line tool that appends `start` / `stop` lines
//! to a plain-text log file.
//!
//! Everything here is pure logic over plain values, apart from two small
//! trusted wrappers (the local clock and the home directory lookup). Reading
//! the environment and appending to the log file are left to the caller.

pub mod args;
pub mod command;
pub mod error;
pub mod laws;
pub mod paths;
pub mod record;

pub use args::scan_arguments;
pub use error::TrackError;
pub use paths::{default_log_path, parse_arguments, resolve_file_path};
pub use record::{help_text, start_record, stop_record};
pub use command::{execute, handle_start_command, handle_stop_command, Action, AppendRequest};
pub use laws::{
    law_appends_accumulate, law_handler_records_accumulate, law_last_flag_value_wins,
};
