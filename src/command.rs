//! The value handed back for a shell command.
use vstd::prelude::*;
use vstd::utf8::encode_utf8;
use crate::text::utf8_bytes;

verus! {

/// Exit code reported when the shell could not be started at all.
pub const SPAWN_FAILURE_CODE: i32 = 999999;

/// What `stdout` holds when the shell could not be started.
pub open spec fn spawn_failure_text() -> Seq<char> {
    "Fail to execute command!"@
}

/// Outcome of one shell command: its exit code and both output streams.
pub struct CommandResult {
    pub code: i32,
    pub stdout: Vec<u8>,
    pub stderr: Vec<u8>,
}

impl CommandResult {
    /// The result of a process that ran to its end. A process that ended
    /// without an exit code (killed by a signal) reports 0.
    pub fn exited(code: Option<i32>, stdout: Vec<u8>, stderr: Vec<u8>) -> (r: CommandResult)
        ensures
            r.code == (match code {
                Some(c) => c,
                None => 0,
            }),
            r.stdout@ == stdout@,
            r.stderr@ == stderr@,
    {
        let code = match code {
            Some(c) => c,
            None => 0,
        };
        CommandResult { code, stdout, stderr }
    }

    /// The result when the shell could not be started: the sentinel code,
    /// a fixed text on `stdout` and the reason on `stderr`.
    pub fn spawn_failed(reason: &str) -> (r: CommandResult)
        ensures
            r.code == SPAWN_FAILURE_CODE,
            r.stdout@ == encode_utf8(spawn_failure_text()),
            r.stderr@ == encode_utf8(reason@),
    {
        CommandResult {
            code: SPAWN_FAILURE_CODE,
            stdout: utf8_bytes("Fail to execute command!"),
            stderr: utf8_bytes(reason),
        }
    }
}

} // verus!
