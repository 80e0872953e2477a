//! What a run tells the pipeline that hosts it.

use vstd::prelude::*;
use vstd::string::StringExecFns;

verus! {

/// The line that sets the output `key` of the hosting pipeline to `value`:
/// `::set-output name=<key>::<value>`.
pub open spec fn output_line(key: Seq<char>, value: Seq<char>) -> Seq<char> {
    "::set-output name="@ + key + "::"@ + value
}

/// Commands to the hosting pipeline.
#[derive(Debug)]
pub struct Action;

impl Action {
    /// Makes the line that sets the output `key` to `value`. The caller
    /// prints it on a line of its own.
    pub fn set_output(key: &str, value: &str) -> (line: String)
        ensures
            line@ == output_line(key@, value@),
    {
        let mut line = String::from_str("::set-output name=");
        line.append(key);
        line.append("::");
        line.append(value);
        line
    }
}

} // verus!
