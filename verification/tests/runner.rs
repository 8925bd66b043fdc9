use std::cell::Cell;

use phys_rs::runner::{
    output_filename, psp_filename, run_tests, PspTestContext, PspTestRunner, TestEntry,
};

fn noop() {}

fn boom() {
    panic!("must not run");
}

#[test]
fn crate_success_1() {
    let mut ctx = PspTestContext::new();
    ctx.execute("success_1", noop, None, None);
    assert_eq!(ctx.output, "test success_1 ... ok\n");
}

#[test]
fn crate_success_2() {
    let mut ctx = PspTestContext::new();
    ctx.execute("success_2", || {}, None, None);
    assert_eq!(ctx.output, "test success_2 ... ok\n");
}

#[test]
fn failure_1() {
    // A registration that never resolves contributes no entry: an empty
    // registry reports only its zero count.
    let tests: Vec<TestEntry<fn()>> = Vec::new();
    let report = run_tests(&tests);
    assert_eq!(report, "running 0 tests\n");
}

#[test]
fn ignore_fail_1() {
    // An entry carrying an ignore flag is reported, never run: a run would
    // panic here and fail this test.
    let mut ctx = PspTestContext::new();
    ctx.execute("fail_1", boom, None, Some(None));
    assert_eq!(ctx.output, "test fail_1 ... ignored\n");
}

#[test]
fn ignore_fail_3() {
    let mut tests: Vec<TestEntry<fn()>> = Vec::new();
    tests.push(TestEntry {
        name: String::from("fail_3"),
        should_panic: None,
        ignore: Some(Some("test")),
        function: boom,
    });
    let report = run_tests(&tests);
    assert_eq!(report, "running 1 test\ntest fail_3 ... ignored\n");
}

#[test]
fn should_panic_fail_1() {
    // A should-panic entry is likewise only reported, never run.
    let mut ctx = PspTestContext::new();
    ctx.execute("fail_1", boom, Some(None), None);
    assert_eq!(ctx.output, "test fail_1 ... ignored\n");
}

#[test]
fn should_panic_fail_3() {
    let mut tests: Vec<TestEntry<fn()>> = Vec::new();
    tests.push(TestEntry {
        name: String::from("fail_3"),
        should_panic: Some(Some("test")),
        ignore: None,
        function: boom,
    });
    let report = run_tests(&tests);
    assert_eq!(report, "running 1 test\ntest fail_3 ... ignored\n");
}

#[test]
fn test_execute_runs_function() {
    let ran = Cell::new(false);
    let mut ctx = PspTestContext::new();
    ctx.execute("observed", || ran.set(true), None, None);
    assert!(ran.get());
    assert_eq!(ctx.output, "test observed ... ok\n");
}

#[test]
fn test_runner_full_report() {
    let mut tests: Vec<TestEntry<fn()>> = Vec::new();
    tests.push(TestEntry {
        name: String::from("alpha"),
        should_panic: None,
        ignore: None,
        function: noop,
    });
    tests.push(TestEntry {
        name: String::from("beta"),
        should_panic: None,
        ignore: Some(None),
        function: boom,
    });
    let report = run_tests(&tests);
    assert_eq!(
        report,
        "running 2 tests\ntest alpha ... ok\ntest beta ... ignored\n"
    );
}

#[test]
fn test_runner_reuses_context() {
    let mut runner = PspTestRunner::new();
    let tests: Vec<TestEntry<fn()>> = Vec::new();
    runner.run(&tests);
    assert_eq!(runner.context.output, "running 0 tests\n");
}

#[test]
fn test_psp_filename() {
    assert_eq!(psp_filename("psp_output_file.log"), "host0:/psp_output_file.log\0");
    assert_eq!(psp_filename(""), "host0:/\0");
}

#[test]
fn test_output_filename() {
    assert_eq!(output_filename(), "psp_output_file.log");
}
