//! The reference configuration of the log generator.

use crate::text::views;
use vstd::prelude::*;

verus! {

/// Size the generated file has to reach: one gibibyte.
pub const TARGET_SIZE: u64 = 1024 * 1024 * 1024;

/// Number of lines gathered before they are written out.
pub const BUFFER_LINES: usize = 10_000;

/// The severity labels of the reference configuration.
pub fn log_levels() -> (levels: Vec<&'static str>)
    ensures
        views(levels@) == seq!["INFO"@, "DEBUG"@, "WARN"@, "ERROR"@],
{
    vec!["INFO", "DEBUG", "WARN", "ERROR"]
}

/// The messages of the reference configuration.
pub fn messages() -> (messages: Vec<&'static str>)
    ensures
        views(messages@) == seq![
            "User login successful"@,
            "Database connection timeout"@,
            "File uploaded successfully"@,
            "Payment processing error: insufficient funds"@,
            "Cache refreshed"@,
            "API request received from 192.168.1.1"@,
        ],
{
    vec![
        "User login successful",
        "Database connection timeout",
        "File uploaded successfully",
        "Payment processing error: insufficient funds",
        "Cache refreshed",
        "API request received from 192.168.1.1",
    ]
}

} // verus!
