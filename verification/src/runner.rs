//! Classification of a finished subprocess: success keeps the captured
//! standard output, failure keeps the captured standard error for the
//! report. Spawning the process and deciding to terminate stay with the
//! caller.

use vstd::prelude::*;

verus! {

/// Turns a finished command's exit status and captured streams into the
/// run's result: the output text on success, the error text on failure.
pub fn run_outcome(success: bool, stdout: String, stderr: String) -> (r: Result<String, String>)
    ensures
        match r {
            Ok(o) => success && o@ == stdout@,
            Err(e) => !success && e@ == stderr@,
        },
{
    if success {
        Ok(stdout)
    } else {
        Err(stderr)
    }
}

} // verus!
