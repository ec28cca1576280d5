//! The immutable record of one finished subprocess: its exit status and the
//! captured output byte streams.
use vstd::prelude::*;

verus! {

/// What a finished subprocess left behind: a success flag, an exit code when
/// the process exited normally (`None` means it was terminated by a signal or
/// otherwise interrupted), and the captured stdout and stderr bytes.
#[derive(Debug)]
pub struct ProcessResult {
    pub success: bool,
    pub code: Option<i32>,
    pub stdout: Vec<u8>,
    pub stderr: Vec<u8>,
}

impl ProcessResult {
    /// Whether the process terminated without yielding an exit code.
    pub open spec fn spec_interrupted(&self) -> bool {
        self.code is None
    }

    /// Records a finished process.
    pub fn new(success: bool, code: Option<i32>, stdout: Vec<u8>, stderr: Vec<u8>) -> (r: Self)
        ensures
            r.success == success,
            r.code == code,
            r.stdout == stdout,
            r.stderr == stderr,
    {
        ProcessResult { success, code, stdout, stderr }
    }
}

} // verus!
