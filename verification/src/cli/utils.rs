//! CLI output formatting.
//!
//! The formatters compute the exact text of each message; writing it to a
//! terminal, and any color escapes around it, are the caller's concern.

use vstd::prelude::*;
use vstd::string::StringExecFns;
use crate::strutil::{spec_dec, u64_to_string};

verus! {

/// The text of a status line: empty when quiet, a JSON object when JSON
/// output is selected, otherwise the label followed by the message.
pub open spec fn spec_status_line(
    quiet: bool,
    json: bool,
    json_prefix: Seq<char>,
    label: Seq<char>,
    message: Seq<char>,
) -> Seq<char> {
    if quiet {
        Seq::<char>::empty()
    } else if json {
        json_prefix + message + "\"}"@
    } else {
        label + message
    }
}

/// CLI output formatting utilities.
#[derive(Debug)]
pub struct OutputFormatter {
    /// Whether color output is enabled.
    pub color_enabled: bool,
    /// Whether messages are rendered as JSON objects.
    pub json_output: bool,
    /// Whether output is suppressed entirely.
    pub quiet: bool,
}

impl OutputFormatter {
    /// Create a new formatter.
    pub fn new(json_output: bool, color_enabled: bool, quiet: bool) -> (r: Self)
        ensures
            r.color_enabled == color_enabled,
            r.json_output == json_output,
            r.quiet == quiet,
    {
        OutputFormatter { color_enabled, json_output, quiet }
    }

    /// The text of a success message.
    pub fn success(&self, message: &str) -> (r: String)
        ensures
            r@ == spec_status_line(
                self.quiet,
                self.json_output,
                "{\"status\":\"success\",\"message\":\""@,
                "SUCCESS: "@,
                message@,
            ),
    {
        if self.quiet {
            String::new()
        } else if self.json_output {
            String::from_str("{\"status\":\"success\",\"message\":\"").concat(message).concat(
                "\"}",
            )
        } else {
            String::from_str("SUCCESS: ").concat(message)
        }
    }

    /// The text of an error message.
    pub fn error(&self, message: &str) -> (r: String)
        ensures
            r@ == spec_status_line(self.quiet, self.json_output, "{\"status\":\"error\",\"message\":\""@, "ERROR: "@, message@),
    {
        if self.quiet {
            String::new()
        } else if self.json_output {
            String::from_str("{\"status\":\"error\",\"message\":\"").concat(message).concat("\"}")
        } else {
            String::from_str("ERROR: ").concat(message)
        }
    }

    /// The text of an informational message.
    pub fn info(&self, message: &str) -> (r: String)
        ensures
            r@ == spec_status_line(self.quiet, self.json_output, "{\"status\":\"info\",\"message\":\""@, "INFO: "@, message@),
    {
        if self.quiet {
            String::new()
        } else if self.json_output {
            String::from_str("{\"status\":\"info\",\"message\":\"").concat(message).concat("\"}")
        } else {
            String::from_str("INFO: ").concat(message)
        }
    }

    /// The text of a warning message.
    pub fn warning(&self, message: &str) -> (r: String)
        ensures
            r@ == spec_status_line(
                self.quiet,
                self.json_output,
                "{\"status\":\"warning\",\"message\":\""@,
                "WARNING: "@,
                message@,
            ),
    {
        if self.quiet {
            String::new()
        } else if self.json_output {
            String::from_str("{\"status\":\"warning\",\"message\":\"").concat(message).concat(
                "\"}",
            )
        } else {
            String::from_str("WARNING: ").concat(message)
        }
    }

    /// The text of an operation-success message.
    pub fn output_success(&self, message: &str) -> (r: String)
        ensures
            r@ == spec_status_line(
                self.quiet,
                self.json_output,
                "{\"status\":\"success\",\"message\":\""@,
                "SUCCESS: "@,
                message@,
            ),
    {
        self.success(message)
    }
}

/// Convert borrowed cell texts into owned ones, preserving each cell.
#[verifier::loop_isolation(false)]
fn own_cells(values: Vec<&str>) -> (r: Vec<String>)
    ensures
        r@.map_values(|x: String| x@) == values@.map_values(|x: &str| x@),
{
    let n = values.len();
    let mut out: Vec<String> = Vec::new();
    let mut i: usize = 0;
    while i < n
        invariant
            n == values@.len(),
            i <= n,
            out@.len() == i,
            forall|j: int| 0 <= j < i ==> (#[trigger] out@[j])@ == values@[j]@,
        decreases n - i,
    {
        out.push(values[i].to_owned());
        i = i + 1;
    }
    proof {
        assert(out@.map_values(|x: String| x@) =~= values@.map_values(|x: &str| x@));
    }
    out
}

/// Table builder for formatting tabular data.
#[derive(Debug)]
pub struct TableBuilder {
    /// The column headers.
    pub headers: Vec<String>,
    /// The data rows, in insertion order.
    pub rows: Vec<Vec<String>>,
}

impl TableBuilder {
    /// Create a new table builder with the given column headers.
    pub fn new(headers: Vec<&str>) -> (r: Self)
        ensures
            r.headers@.map_values(|x: String| x@) == headers@.map_values(|x: &str| x@),
            r.rows@.len() == 0,
    {
        TableBuilder { headers: own_cells(headers), rows: Vec::new() }
    }

    /// Append a row to the table.
    pub fn add_row(&mut self, values: Vec<&str>) -> (r: ())
        ensures
            final(self).headers == old(self).headers,
            final(self).rows@.len() == old(self).rows@.len() + 1,
            final(self).rows@.subrange(0, old(self).rows@.len() as int) == old(self).rows@,
            final(self).rows@.last()@.map_values(|x: String| x@) == values@.map_values(
                |x: &str| x@,
            ),
    {
        self.rows.push(own_cells(values));
        proof {
            assert(self.rows@.subrange(0, old(self).rows@.len() as int) =~= old(self).rows@);
        }
    }
}

/// The rendered duration: the leading unit whose count is non-zero, from
/// seconds through minutes and hours up to days.
pub open spec fn spec_format_duration(seconds: int) -> Seq<char> {
    if seconds < 60 {
        spec_dec(seconds) + " seconds"@
    } else if seconds / 60 < 60 {
        spec_dec(seconds / 60) + " minutes"@
    } else if (seconds / 60) / 60 < 24 {
        spec_dec((seconds / 60) / 60) + " hours"@
    } else {
        spec_dec(((seconds / 60) / 60) / 24) + " days"@
    }
}

/// Format a duration in seconds to a human-readable unit count.
pub fn format_duration(seconds: u64) -> (r: String)
    ensures
        r@ == spec_format_duration(seconds as int),
{
    if seconds < 60 {
        return u64_to_string(seconds).concat(" seconds");
    }
    let minutes = seconds / 60;
    if minutes < 60 {
        return u64_to_string(minutes).concat(" minutes");
    }
    let hours = minutes / 60;
    if hours < 24 {
        return u64_to_string(hours).concat(" hours");
    }
    let days = hours / 24;
    u64_to_string(days).concat(" days")
}

} // verus!
