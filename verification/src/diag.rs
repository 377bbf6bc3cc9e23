//! Classification with a diagnostic: what to log when an operation fails.
//!
//! Nothing here writes a log. The caller gets the record back beside the
//! classification and hands it to whichever sink it has; the classification
//! is the same with and without a record.

use crate::codes::{to_unsigned, unsigned_of};
use crate::digits::{append_decimal, decimal_digits};
use crate::error::{classify, is_success, outcome, render, BLEError};
use vstd::prelude::*;
use vstd::string::StringExecFns;

verus! {

/// The module identifier that every record carries.
pub const LOG_TARGET: &'static str = "esp32_nimble";

/// Whether failures are reported. A program chooses once, when it is set up.
#[derive(Copy, Clone, PartialEq, Eq, Debug, Structural)]
pub enum Reporting {
    /// Failures are classified and nothing more.
    Plain,
    /// Each failure comes with a record for the log.
    Diagnostic,
}

/// How much a record matters.
#[derive(Copy, Clone, PartialEq, Eq, Debug, Structural)]
pub enum Severity {
    Error,
    Warn,
    Info,
    Debug,
    Trace,
}

/// The place in the source where an operation was checked.
#[derive(Copy, Clone, Debug)]
pub struct Location<'a> {
    pub file: &'a str,
    pub line: u32,
}

/// One record for the log.
#[derive(Debug)]
pub struct LogRecord {
    pub severity: Severity,
    pub target: &'static str,
    pub message: String,
}

/// The message that reports the failure with the signed code `rc`, checked at
/// line `line` of `file`: the file, the line in square brackets, a colon, a
/// space and the text of the error.
pub open spec fn failure_message(file: Seq<char>, line: u32, rc: i32) -> Seq<char> {
    file + "["@ + decimal_digits(line as nat) + "]: "@ + render(rc)
}

/// The record that `ble` hands back for `err`, if any: none unless failures
/// are reported and `err` is one.
pub open spec fn report(reporting: Reporting, err: i32, file: Seq<char>, line: u32) -> Option<
    (Severity, Seq<char>, Seq<char>),
> {
    if reporting == Reporting::Diagnostic && !is_success(to_unsigned(err)) {
        Some((Severity::Warn, LOG_TARGET@, failure_message(file, line, err)))
    } else {
        None
    }
}

/// A record taken by the views of its texts.
pub open spec fn record_view(record: Option<LogRecord>) -> Option<(Severity, Seq<char>, Seq<char>)> {
    match record {
        Some(r) => Some((r.severity, r.target@, r.message@)),
        None => None,
    }
}

/// Writes the message of `failure_message` for `error`.
pub fn format_failure(at: Location<'_>, error: BLEError) -> (message: String)
    ensures
        message@ == failure_message(at.file@, at.line, error@),
{
    let mut message = String::from_str(at.file);
    message.append("[");
    append_decimal(&mut message, at.line);
    message.append("]: ");
    let text = error.to_string();
    message.append(text.as_str());
    message
}

/// Classifies the status code `err` of an operation that was checked at `at`.
/// The classification does not depend on `reporting`. A record comes with it
/// only for a failure, and only where failures are reported.
pub fn ble(reporting: Reporting, err: i32, at: Location<'_>) -> (r: (
    Result<(), BLEError>,
    Option<LogRecord>,
))
    ensures
        outcome(r.0) == classify(to_unsigned(err), ()),
        record_view(r.1) == report(reporting, err, at.file@, at.line),
{
    let rc = BLEError::convert(unsigned_of(err));
    let record = match (reporting, &rc) {
        (Reporting::Diagnostic, Err(error)) => Some(
            LogRecord {
                severity: Severity::Warn,
                target: LOG_TARGET,
                message: format_failure(at, *error),
            },
        ),
        _ => None,
    };
    (rc, record)
}

} // verus!
