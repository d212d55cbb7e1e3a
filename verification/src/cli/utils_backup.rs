//! Earlier generation of the CLI output formatting utilities, kept for
//! callers that still build against it.

use vstd::prelude::*;
use vstd::string::StringExecFns;
use crate::cli::utils::spec_status_line;

verus! {

/// CLI output formatting utilities.
#[derive(Debug)]
pub struct OutputFormatter {
    /// Whether color output is enabled.
    pub color_enabled: bool,
    /// Whether messages are rendered as JSON objects.
    pub json_output: bool,
    /// Whether output is suppressed entirely.
    pub quiet: bool,
}

impl OutputFormatter {
    /// Create a new formatter.
    pub fn new(json_output: bool, color_enabled: bool, quiet: bool) -> (r: Self)
        ensures
            r.color_enabled == color_enabled,
            r.json_output == json_output,
            r.quiet == quiet,
    {
        OutputFormatter { color_enabled, json_output, quiet }
    }

    /// The text of a success message.
    pub fn success(&self, message: &str) -> (r: String)
        ensures
            r@ == spec_status_line(
                self.quiet,
                self.json_output,
                "{\"status\":\"success\",\"message\":\""@,
                "SUCCESS: "@,
                message@,
            ),
    {
        if self.quiet {
            String::new()
        } else if self.json_output {
            String::from_str("{\"status\":\"success\",\"message\":\"").concat(message).concat(
                "\"}",
            )
        } else {
            String::from_str("SUCCESS: ").concat(message)
        }
    }

    /// The text of an error message.
    pub fn error(&self, message: &str) -> (r: String)
        ensures
            r@ == spec_status_line(self.quiet, self.json_output, "{\"status\":\"error\",\"message\":\""@, "ERROR: "@, message@),
    {
        if self.quiet {
            String::new()
        } else if self.json_output {
            String::from_str("{\"status\":\"error\",\"message\":\"").concat(message).concat("\"}")
        } else {
            String::from_str("ERROR: ").concat(message)
        }
    }
}

/// Convert borrowed cell texts into owned ones, preserving each cell.
#[verifier::loop_isolation(false)]
fn own_cells(values: Vec<&str>) -> (r: Vec<String>)
    ensures
        r@.map_values(|x: String| x@) == values@.map_values(|x: &str| x@),
{
    let n = values.len();
    let mut out: Vec<String> = Vec::new();
    let mut i: usize = 0;
    while i < n
        invariant
            n == values@.len(),
            i <= n,
            out@.len() == i,
            forall|j: int| 0 <= j < i ==> (#[trigger] out@[j])@ == values@[j]@,
        decreases n - i,
    {
        out.push(values[i].to_owned());
        i = i + 1;
    }
    proof {
        assert(out@.map_values(|x: String| x@) =~= values@.map_values(|x: &str| x@));
    }
    out
}

/// Table builder for formatting tabular data.
#[derive(Debug)]
pub struct TableBuilder {
    /// The column headers.
    pub headers: Vec<String>,
    /// The data rows, in insertion order.
    pub rows: Vec<Vec<String>>,
}

impl TableBuilder {
    /// Create a new table builder with the given column headers.
    pub fn new(headers: Vec<&str>) -> (r: Self)
        ensures
            r.headers@.map_values(|x: String| x@) == headers@.map_values(|x: &str| x@),
            r.rows@.len() == 0,
    {
        TableBuilder { headers: own_cells(headers), rows: Vec::new() }
    }

    /// Append a row to the table.
    pub fn add_row(&mut self, values: Vec<&str>) -> (r: ())
        ensures
            final(self).headers == old(self).headers,
            final(self).rows@.len() == old(self).rows@.len() + 1,
            final(self).rows@.subrange(0, old(self).rows@.len() as int) == old(self).rows@,
            final(self).rows@.last()@.map_values(|x: String| x@) == values@.map_values(
                |x: &str| x@,
            ),
    {
        self.rows.push(own_cells(values));
        proof {
            assert(self.rows@.subrange(0, old(self).rows@.len() as int) =~= old(self).rows@);
        }
    }
}

} // verus!
