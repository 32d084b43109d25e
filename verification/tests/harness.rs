use trap_core::Compiler;
use trap_core::Engine;
use trap_core::harness::run_outcome;

#[test]
fn backend_and_engine_flags() {
    assert_eq!(Compiler::Cranelift.to_flag(), "--cranelift");
    assert_eq!(Compiler::LLVM.to_flag(), "--llvm");
    assert_eq!(Compiler::Singlepass.to_flag(), "--singlepass");
    assert_eq!(Engine::Jit.to_flag(), "--jit");
    assert_eq!(Engine::Native.to_flag(), "--native");
    assert_eq!(Engine::ObjectFile.to_flag(), "--object-file");
}

#[test]
fn successful_run_hands_back_stdout_verbatim() {
    let r = run_outcome(true, String::from("42\n"), String::from("warning: noisy"));
    assert_eq!(r, Ok(String::from("42\n")));
}

#[test]
fn failed_run_surfaces_both_streams() {
    // An artifact built with the optimizing backend under the just-in-time
    // strategy divides by zero: it exits non-zero, and the harness report
    // must include both captured streams, never only one.
    let flags = vec![
        Compiler::Cranelift.to_flag().to_string(),
        Engine::Jit.to_flag().to_string(),
    ];
    assert_eq!(flags, vec!["--cranelift".to_string(), "--jit".to_string()]);

    let stdout = String::from("starting guest\n");
    let stderr = String::from("integer divide by zero\n");
    let r = run_outcome(false, stdout.clone(), stderr.clone());
    let report = r.expect_err("a non-zero exit status is a failure");
    assert!(report.contains(&stdout));
    assert!(report.contains(&stderr));
    assert_eq!(
        report,
        "running executable failed: stdout: starting guest\n\n\nstderr: integer divide by zero\n"
    );
}

#[test]
fn failed_run_with_one_empty_stream_still_shows_the_other() {
    let r = run_outcome(false, String::new(), String::from("trap: unreachable"));
    let report = r.expect_err("failure expected");
    assert!(report.contains("trap: unreachable"));
    assert!(report.contains("stdout: "));
    assert!(report.contains("stderr: "));
}
