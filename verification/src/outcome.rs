//! Per-file conversion outcomes and their aggregation into batch results.

use vstd::prelude::*;
use vstd::string::StringExecFns;

use crate::paths::file_name_part;
use crate::paths::spec_file_name;

verus! {

/// Why a single conversion failed: the input could not be read or decoded,
/// or the output could not be encoded or written.
pub enum ConversionError {
    Decode(String),
    Encode(String),
}

/// The rendered description of a conversion error.
pub open spec fn spec_error_description(e: ConversionError) -> Seq<char> {
    match e {
        ConversionError::Decode(m) => "decode error: "@ + m@,
        ConversionError::Encode(m) => "encode error: "@ + m@,
    }
}

impl ConversionError {
    /// A human-readable description of the error.
    pub fn description(&self) -> (r: String)
        ensures
            r@ == spec_error_description(*self),
    {
        match self {
            ConversionError::Decode(m) => {
                let mut r = String::from_str("decode error: ");
                r.append(m.as_str());
                r
            },
            ConversionError::Encode(m) => {
                let mut r = String::from_str("encode error: ");
                r.append(m.as_str());
                r
            },
        }
    }

    /// Whether this is a decode error.
    pub fn is_decode(&self) -> (r: bool)
        ensures
            r == (self is Decode),
    {
        match self {
            ConversionError::Decode(_) => true,
            ConversionError::Encode(_) => false,
        }
    }
}

/// What one file's conversion came to: the output path written, or the
/// input path together with an error description.
pub enum ConversionOutcome {
    Success(String),
    Failure(String, String),
}

/// The error line recorded for a failed file: its file name, a separator,
/// and the error description.
pub open spec fn spec_failure_line(input: Seq<char>, desc: Seq<char>) -> Seq<char> {
    spec_file_name(input) + ": "@ + desc
}

/// Renders the error line recorded for a failed file.
pub fn failure_line(input_path: &str, desc: &str) -> (r: String)
    ensures
        r@ == spec_failure_line(input_path@, desc@),
{
    let name = file_name_part(input_path);
    let mut r = String::from_str(name);
    r.append(": ");
    r.append(desc);
    r
}

/// How many of the outcomes are successes.
pub open spec fn count_successes(s: Seq<ConversionOutcome>) -> nat
    decreases s.len(),
{
    if s.len() == 0 {
        0
    } else {
        count_successes(s.drop_last()) + if s.last() is Success {
            1nat
        } else {
            0nat
        }
    }
}

/// How many of the outcomes are failures.
pub open spec fn count_failures(s: Seq<ConversionOutcome>) -> nat
    decreases s.len(),
{
    if s.len() == 0 {
        0
    } else {
        count_failures(s.drop_last()) + if s.last() is Failure {
            1nat
        } else {
            0nat
        }
    }
}

/// The error lines of the failed outcomes, in order.
pub open spec fn failure_messages(s: Seq<ConversionOutcome>) -> Seq<Seq<char>>
    decreases s.len(),
{
    if s.len() == 0 {
        Seq::empty()
    } else {
        failure_messages(s.drop_last()) + match s.last() {
            ConversionOutcome::Failure(input, desc) => seq![spec_failure_line(input@, desc@)],
            ConversionOutcome::Success(_) => Seq::empty(),
        }
    }
}

/// Every file yields exactly one outcome, so successes and failures
/// partition any outcome sequence, and there is exactly one error line per
/// failure.
pub proof fn lemma_outcome_counts(s: Seq<ConversionOutcome>)
    ensures
        count_successes(s) + count_failures(s) == s.len(),
        failure_messages(s).len() == count_failures(s),
    decreases s.len(),
{
    if s.len() > 0 {
        lemma_outcome_counts(s.drop_last());
    }
}

/// The finished aggregate of a batch run.
pub struct BatchResult {
    /// How many files converted successfully.
    pub success_count: usize,
    /// How many files failed.
    pub failure_count: usize,
    /// One rendered error line per failed file, in completion order.
    pub errors: Vec<String>,
}

} // verus!
