//! What the runner processes hand back, and where their logs go.
use vstd::prelude::*;
use crate::path::{join_path, path_join};
use crate::text::{owned, push_str};

verus! {

/// Result of a completed pipeline step.
#[derive(Debug)]
pub struct PipelineStepResult {
    /// Captured stdout, trimmed of leading and trailing whitespace.
    pub stdout: String,
    /// Exit code of the process (-1 when it was killed without one).
    pub exit_code: i32,
}

/// The log file of a run: `<run_id>.log` in `log_dir`.
pub fn log_path(run_id: &str, log_dir: &str) -> (r: String)
    ensures
        r@ == path_join(log_dir@, run_id@ + ".log"@),
{
    let mut file = owned(run_id);
    push_str(&mut file, ".log");
    join_path(log_dir, file.as_str())
}

} // verus!
