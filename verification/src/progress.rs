//! The progress-reporting capability: callers inject an implementation to
//! receive each streamed output line, so execution stays agnostic of how
//! progress is shown. Implementations must be safe under concurrent use;
//! each unit of work holds its own reporter handle.

use vstd::prelude::*;

verus! {

/// Receives each line of streamed output, tagged with the command it came
/// from. A no-op implementation is used in non-interactive contexts.
pub trait ProgressReporter {
    fn report_output(&self, message: &str);
}

/// A reporter that discards everything; for non-interactive runs.
pub struct SilentProgressReporter {}

impl ProgressReporter for SilentProgressReporter {
    fn report_output(&self, _message: &str) {
    }
}

} // verus!
