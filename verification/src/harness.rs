//! Backend and engine selection flags for the test harness, and the
//! classification of a finished artifact run.
//!
//! The harness itself spawns compiled artifacts as subprocesses and captures
//! their output; that part lives outside this crate. What is decided here:
//! which command-line flag selects each compiler backend and each execution
//! strategy, and how a finished run is judged — a non-zero exit status is a
//! failure whose report surfaces both captured output streams verbatim,
//! never only one.

use vstd::prelude::*;

verus! {

/// One of the three alternative code-generation backends.
#[derive(Debug, Copy, Clone, PartialEq, Eq, Structural)]
pub enum Compiler {
    /// The optimizing backend.
    Cranelift,
    /// The ahead-of-time baseline backend.
    LLVM,
    /// The single-pass backend.
    Singlepass,
}

/// The command-line flag selecting each compiler backend.
pub open spec fn compiler_flag_spec(c: Compiler) -> Seq<char> {
    match c {
        Compiler::Cranelift => "--cranelift"@,
        Compiler::LLVM => "--llvm"@,
        Compiler::Singlepass => "--singlepass"@,
    }
}

impl Compiler {
    /// The command-line flag that selects this backend.
    pub fn to_flag(self) -> (r: &'static str)
        ensures
            r@ == compiler_flag_spec(self),
    {
        match self {
            Compiler::Cranelift => "--cranelift",
            Compiler::LLVM => "--llvm",
            Compiler::Singlepass => "--singlepass",
        }
    }
}

/// One of the three alternative execution strategies.
#[derive(Debug, Copy, Clone, PartialEq, Eq, Structural)]
pub enum Engine {
    /// Just-in-time execution.
    Jit,
    /// Ahead-of-time native execution.
    Native,
    /// Execution from a persisted object artifact.
    ObjectFile,
}

/// The command-line flag selecting each execution strategy.
pub open spec fn engine_flag_spec(e: Engine) -> Seq<char> {
    match e {
        Engine::Jit => "--jit"@,
        Engine::Native => "--native"@,
        Engine::ObjectFile => "--object-file"@,
    }
}

impl Engine {
    /// The command-line flag that selects this execution strategy.
    pub fn to_flag(self) -> (r: &'static str)
        ensures
            r@ == engine_flag_spec(self),
    {
        match self {
            Engine::Jit => "--jit",
            Engine::Native => "--native",
            Engine::ObjectFile => "--object-file",
        }
    }
}

/// The report text of a failed run: both captured streams, whole, behind
/// fixed markers.
pub open spec fn failure_report_spec(out: Seq<char>, err: Seq<char>) -> Seq<char> {
    "running executable failed: stdout: "@ + out + "\n\nstderr: "@ + err
}

/// A sequence occurs contiguously and whole inside another.
pub open spec fn contains_seq(hay: Seq<char>, needle: Seq<char>) -> bool {
    exists|i: int|
        0 <= i && i + needle.len() <= hay.len() && #[trigger] hay.subrange(i, i + needle.len())
            == needle
}

/// Judge a finished artifact run from its exit status and captured streams:
/// success hands back standard output verbatim; failure yields a report
/// surfacing both standard output and standard error.
pub fn run_outcome(success: bool, stdout: String, stderr: String) -> (r: Result<String, String>)
    ensures
        success ==> (r matches Ok(out) && out@ == stdout@),
        !success ==> (r matches Err(report) && report@ == failure_report_spec(stdout@, stderr@)),
{
    if success {
        Ok(stdout)
    } else {
        let mut report = "running executable failed: stdout: ".to_owned();
        report.append(stdout.as_str());
        report.append("\n\nstderr: ");
        report.append(stderr.as_str());
        Err(report)
    }
}

/// A failure report never drops a stream: it contains the whole captured
/// standard output and the whole captured standard error.
pub proof fn lemma_failure_report_surfaces_both(out: Seq<char>, err: Seq<char>)
    ensures
        contains_seq(failure_report_spec(out, err), out),
        contains_seq(failure_report_spec(out, err), err),
{
    let h = "running executable failed: stdout: "@;
    let m = "\n\nstderr: "@;
    let full = failure_report_spec(out, err);
    assert(full.subrange(h.len() as int, h.len() as int + out.len() as int) =~= out);
    assert(full.subrange(full.len() as int - err.len() as int, full.len() as int) =~= err);
}

} // verus!
