//! Terminal outcomes of a request: the response record handed back for every
//! request, and the in-band messages of each failure.

use vstd::prelude::*;
use vstd::string::StringExecFns;
use crate::text::spec_u64_string;
use crate::text::u64_to_string;

verus! {

/// The outcome of a request, without the time stamp: what the service
/// answers is decided before the clock is read.
pub struct ResponseBody {
    pub stdout: String,
    pub stderr: String,
    pub exit_code: i32,
}

/// The full response record. Every terminal outcome carries all four fields;
/// in-band failures are signalled by `exit_code` and `stderr`, never by a
/// missing field.
pub struct ExecuteResponse {
    pub stdout: String,
    pub stderr: String,
    pub exit_code: i32,
    /// Wall-clock milliseconds from request acceptance to just before the
    /// response is emitted, compile time included.
    pub execution_time_ms: u64,
}

/// The stderr body for a tag outside the enumeration.
pub open spec fn spec_unsupported_message(tag: Seq<char>) -> Seq<char> {
    "Unsupported language: "@ + tag
}

/// The stderr body for a run that outlived its deadline of `t` seconds.
pub open spec fn spec_timeout_message(t: u64) -> Seq<char> {
    "Execution timeout ("@ + spec_u64_string(t as nat) + "s)"@
}

/// The stderr body for a compiler that exited with an error, carrying the
/// compiler's own stderr below the marker line.
pub open spec fn spec_compile_error_message(compiler_stderr: Seq<char>) -> Seq<char> {
    "Compilation error:\n"@ + compiler_stderr
}

/// The stderr body when the workspace directory cannot be created.
pub open spec fn spec_workspace_error_message(reason: Seq<char>) -> Seq<char> {
    "Failed to create temp dir: "@ + reason
}

/// The stderr body when the source file cannot be written.
pub open spec fn spec_write_error_message(reason: Seq<char>) -> Seq<char> {
    "Failed to write source: "@ + reason
}

/// The stderr body when the compiler cannot be started.
pub open spec fn spec_compiler_missing_message(reason: Seq<char>) -> Seq<char> {
    "Compiler not available: "@ + reason
}

/// The stderr body when the run command cannot be started.
pub open spec fn spec_spawn_error_message(reason: Seq<char>) -> Seq<char> {
    "Failed to execute: "@ + reason
}

/// An in-band failure body: empty stdout, the given stderr, exit code 1.
pub open spec fn spec_failure_body(b: ResponseBody, stderr: Seq<char>) -> bool {
    &&& b.stdout@ == Seq::<char>::empty()
    &&& b.stderr@ == stderr
    &&& b.exit_code == 1
}

fn failure_body(stderr: String) -> (b: ResponseBody)
    ensures
        spec_failure_body(b, stderr@),
{
    ResponseBody { stdout: String::new(), stderr, exit_code: 1 }
}

/// The response for a tag outside the enumeration.
pub fn unsupported_body(tag: &str) -> (b: ResponseBody)
    ensures
        spec_failure_body(b, spec_unsupported_message(tag@)),
{
    let msg = String::from_str("Unsupported language: ").concat(tag);
    failure_body(msg)
}

/// The response for a run that outlived its deadline of `t` seconds.
pub fn timeout_body(t: u64) -> (b: ResponseBody)
    ensures
        spec_failure_body(b, spec_timeout_message(t)),
{
    let msg = String::from_str("Execution timeout (").concat(u64_to_string(t).as_str()).concat(
        "s)",
    );
    proof {
        assert(msg@ =~= spec_timeout_message(t));
    }
    failure_body(msg)
}

/// The response for a compiler that exited with an error.
pub fn compile_error_body(compiler_stderr: &str) -> (b: ResponseBody)
    ensures
        spec_failure_body(b, spec_compile_error_message(compiler_stderr@)),
{
    let msg = String::from_str("Compilation error:\n").concat(compiler_stderr);
    failure_body(msg)
}

/// The response when the workspace directory cannot be created.
pub fn workspace_error_body(reason: &str) -> (b: ResponseBody)
    ensures
        spec_failure_body(b, spec_workspace_error_message(reason@)),
{
    failure_body(String::from_str("Failed to create temp dir: ").concat(reason))
}

/// The response when the source file cannot be written.
pub fn write_error_body(reason: &str) -> (b: ResponseBody)
    ensures
        spec_failure_body(b, spec_write_error_message(reason@)),
{
    failure_body(String::from_str("Failed to write source: ").concat(reason))
}

/// The response when the compiler cannot be started.
pub fn compiler_missing_body(reason: &str) -> (b: ResponseBody)
    ensures
        spec_failure_body(b, spec_compiler_missing_message(reason@)),
{
    failure_body(String::from_str("Compiler not available: ").concat(reason))
}

/// The response when the run command cannot be started.
pub fn spawn_error_body(reason: &str) -> (b: ResponseBody)
    ensures
        spec_failure_body(b, spec_spawn_error_message(reason@)),
{
    failure_body(String::from_str("Failed to execute: ").concat(reason))
}

/// Stamps the elapsed wall-clock time onto a finished body. Every field of
/// the body is carried over unchanged, and the time is the caller's
/// measurement, a non-negative number of milliseconds.
pub fn stamp(body: ResponseBody, elapsed_ms: u64) -> (r: ExecuteResponse)
    ensures
        r.stdout@ == body.stdout@,
        r.stderr@ == body.stderr@,
        r.exit_code == body.exit_code,
        r.execution_time_ms == elapsed_ms,
        r.execution_time_ms >= 0,
{
    ExecuteResponse {
        stdout: body.stdout,
        stderr: body.stderr,
        exit_code: body.exit_code,
        execution_time_ms: elapsed_ms,
    }
}

} // verus!
