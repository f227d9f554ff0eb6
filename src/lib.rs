//! Lists the files and directories of a tree whose size reaches a threshold.
//!
//! The library holds the logic: how sizes are written for people, how the
//! command line is resolved into a configuration, and how a directory tree,
//! once read, is summed and turned into a stream of reports and diagnostics.
mod config;
mod format;
mod laws;
mod scan;

pub use config::{
    process_arguments, process_measure, process_size, size_in_bytes, unit_multiplier, ArgError,
    Unit, DEFAULT_THRESHOLD,
};
pub use format::{decimal_string, format_size, report_line, GB, KB, MB, TB};
pub use laws::{
    file_reported_from_threshold, small_directory_not_reported, symlink_ignored,
    total_is_sum_of_file_sizes, unreadable_directory_skipped,
};
pub use scan::{checked_total, compute_and_report, Configuration, Entry, Listing, Problem, Record};
