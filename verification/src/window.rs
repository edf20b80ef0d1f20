//! The window locator's answers. The operating system is asked twice by the
//! program around this library: for the list of running applications, and
//! for a JSON report on the target's front window. This module reads both.

use crate::geometry::{WindowBounds, DEFAULT_RESOLUTION_SCALE};
use vstd::prelude::*;

verus! {

/// What the window report says.
#[derive(Debug, PartialEq, Eq)]
pub enum WindowReport {
    /// Position and size of the front window.
    Found { bounds: WindowBounds },
    /// The report carries an error message, and perhaps an error number.
    Failed { message: String, code: Option<i64> },
    /// The report is no JSON, or lacks a measure, or one does not fit 32 bits.
    Malformed,
}

/// The mathematical content of a `WindowReport`.
pub enum WindowReportView {
    Found { bounds: WindowBounds },
    Failed { message: Seq<char>, code: Option<i64> },
    Malformed,
}

impl View for WindowReport {
    type V = WindowReportView;

    open spec fn view(&self) -> WindowReportView {
        match *self {
            WindowReport::Found { bounds } => WindowReportView::Found { bounds },
            WindowReport::Failed { message, code } => WindowReportView::Failed {
                message: message@,
                code,
            },
            WindowReport::Malformed => WindowReportView::Malformed,
        }
    }
}

/// What `serde_json` finds in `text` as element `index` of the array under
/// `key` of the top-level object, read as an unsigned integer; `None` where
/// the text is no JSON or holds no such number.
pub uninterp spec fn json_number(text: Seq<char>, key: Seq<char>, index: int) -> Option<u64>;

/// What `serde_json` finds in `text` as the string under `key` of the
/// top-level object.
pub uninterp spec fn json_string(text: Seq<char>, key: Seq<char>) -> Option<Seq<char>>;

/// What `serde_json` finds in `text` as the signed integer under `key` of
/// the top-level object.
pub uninterp spec fn json_integer(text: Seq<char>, key: Seq<char>) -> Option<i64>;

/// Calls `serde_json::from_str` for a `serde_json::Value`, then
/// `Value::get` with the key, `Value::as_array`, the slice's `get` and
/// `Value::as_u64`. Nothing is proved of the parser: the contract only
/// gives the result its name, as a function of the three arguments.
#[verifier::external_body]
fn read_json_number(text: &str, key: &str, index: usize) -> (r: Option<u64>)
    ensures
        r == json_number(text@, key@, index as int),
{
    let root: serde_json::Value = serde_json::from_str(text).ok()?;
    root.get(key)?.as_array()?.get(index)?.as_u64()
}

/// Calls `serde_json::from_str` for a `serde_json::Value`, then
/// `Value::get` with the key and `Value::as_str`. The contract only gives
/// the result its name.
#[verifier::external_body]
fn read_json_string(text: &str, key: &str) -> (r: Option<String>)
    ensures
        match r {
            Some(s) => json_string(text@, key@) == Some(s@),
            None => json_string(text@, key@).is_none(),
        },
{
    let root: serde_json::Value = serde_json::from_str(text).ok()?;
    Some(root.get(key)?.as_str()?.to_string())
}

/// Calls `serde_json::from_str` for a `serde_json::Value`, then
/// `Value::get` with the key and `Value::as_i64`. The contract only gives
/// the result its name.
#[verifier::external_body]
fn read_json_integer(text: &str, key: &str) -> (r: Option<i64>)
    ensures
        r == json_integer(text@, key@),
{
    let root: serde_json::Value = serde_json::from_str(text).ok()?;
    root.get(key)?.as_i64()
}

/// `needle` occurs in `text` as a run of consecutive characters.
pub open spec fn occurs_in(text: Seq<char>, needle: Seq<char>) -> bool {
    exists|at: int|
        0 <= at && at + needle.len() <= text.len() && #[trigger] text.subrange(
            at,
            at + needle.len(),
        ) == needle
}

/// Calls `str::contains` with a string pattern, which is documented to
/// tell whether the pattern matches a sub-slice of the text.
#[verifier::external_body]
fn contains_text(text: &str, needle: &str) -> (r: bool)
    ensures
        r <==> occurs_in(text@, needle@),
{
    text.contains(needle)
}

/// Whether the target application is among the running ones: its name
/// occurs in the list of process names.
pub fn target_is_running(process_list: &str) -> (r: bool)
    ensures
        r <==> occurs_in(process_list@, "Telegram"@),
{
    contains_text(process_list, "Telegram")
}

/// Whether all four measures are there and fit 32 bits.
pub open spec fn measures_fit(
    x: Option<u64>,
    y: Option<u64>,
    width: Option<u64>,
    height: Option<u64>,
) -> bool {
    &&& x.is_some() && x.unwrap() <= u32::MAX
    &&& y.is_some() && y.unwrap() <= u32::MAX
    &&& width.is_some() && width.unwrap() <= u32::MAX
    &&& height.is_some() && height.unwrap() <= u32::MAX
}

/// The report that the fields of the JSON text amount to. An error message
/// wins over everything else; without one, the four measures give the
/// bounds at the default resolution scale; with a measure missing or too
/// large the report is malformed.
pub open spec fn report_spec(
    error: Option<Seq<char>>,
    code: Option<i64>,
    x: Option<u64>,
    y: Option<u64>,
    width: Option<u64>,
    height: Option<u64>,
) -> WindowReportView {
    if error.is_some() {
        WindowReportView::Failed { message: error.unwrap(), code }
    } else if measures_fit(x, y, width, height) {
        WindowReportView::Found {
            bounds: WindowBounds {
                x: x.unwrap() as u32,
                y: y.unwrap() as u32,
                width: width.unwrap() as u32,
                height: height.unwrap() as u32,
                resolution_scale: DEFAULT_RESOLUTION_SCALE,
            },
        }
    } else {
        WindowReportView::Malformed
    }
}

pub open spec fn text_view(text: Option<String>) -> Option<Seq<char>> {
    match text {
        Some(s) => Some(s@),
        None => None,
    }
}

fn narrow(value: Option<u64>) -> (r: Option<u32>)
    ensures
        r.is_some() <==> value.is_some() && value.unwrap() <= u32::MAX,
        r.is_some() ==> r.unwrap() == value.unwrap(),
{
    match value {
        Some(v) => if v <= 0xffff_ffff {
            Some(v as u32)
        } else {
            None
        },
        None => None,
    }
}

/// Builds the report from the fields read out of the JSON text.
pub fn interpret_report(
    error: Option<String>,
    code: Option<i64>,
    x: Option<u64>,
    y: Option<u64>,
    width: Option<u64>,
    height: Option<u64>,
) -> (r: WindowReport)
    ensures
        r@ == report_spec(text_view(error), code, x, y, width, height),
        r matches WindowReport::Found { bounds } ==> bounds.well_formed(),
{
    match error {
        Some(message) => WindowReport::Failed { message, code },
        None => match (narrow(x), narrow(y), narrow(width), narrow(height)) {
            (Some(x), Some(y), Some(width), Some(height)) => WindowReport::Found {
                bounds: WindowBounds::new(x, y, width, height),
            },
            _ => WindowReport::Malformed,
        },
    }
}

/// Reads the window report: the string under `error` and the integer under
/// `errorNumber`, if any, and the two entries each of the arrays under
/// `windowPosition` and `windowSize`.
pub fn parse_window_report(text: &str) -> (r: WindowReport)
    ensures
        r@ == report_spec(
            json_string(text@, "error"@),
            json_integer(text@, "errorNumber"@),
            json_number(text@, "windowPosition"@, 0),
            json_number(text@, "windowPosition"@, 1),
            json_number(text@, "windowSize"@, 0),
            json_number(text@, "windowSize"@, 1),
        ),
        r matches WindowReport::Found { bounds } ==> bounds.well_formed(),
{
    let error: Option<String> = read_json_string(text, "error");
    let code: Option<i64> = read_json_integer(text, "errorNumber");
    let x: Option<u64> = read_json_number(text, "windowPosition", 0);
    let y: Option<u64> = read_json_number(text, "windowPosition", 1);
    let width: Option<u64> = read_json_number(text, "windowSize", 0);
    let height: Option<u64> = read_json_number(text, "windowSize", 1);
    interpret_report(error, code, x, y, width, height)
}

/// An error message in the report always surfaces, whatever else the
/// report holds.
pub proof fn error_wins(
    message: Seq<char>,
    code: Option<i64>,
    x: Option<u64>,
    y: Option<u64>,
    width: Option<u64>,
    height: Option<u64>,
)
    ensures
        report_spec(Some(message), code, x, y, width, height) == (WindowReportView::Failed {
            message,
            code,
        }),
{
}

} // verus!
