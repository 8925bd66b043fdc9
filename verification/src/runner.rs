//! The embedded test-runner protocol.
//!
//! On the device the runner writes its report to a host-side file as it
//! goes; here the report is a `String` the context accumulates, with its
//! exact content pinned lane by lane — opening, writing and closing the file
//! are left to the thin I/O shell around the library. Each registered test
//! is one entry: its full name, its registration flags, and the function to
//! call. A test carrying a `should_panic` or an `ignore` flag is not run,
//! only reported as ignored, which is how the device runner treats both.

use vstd::prelude::*;

use crate::text::dec_digits;

verus! {

/// The name of the host-side file the report is written to.
pub fn output_filename() -> (r: &'static str)
    ensures
        r@ == "psp_output_file.log"@,
{
    "psp_output_file.log"
}

/// The device path for a host-side file: the host pseudo-drive prefix, the
/// file name, and the terminating NUL that the device expects.
pub fn psp_filename(filename: &str) -> (r: String)
    ensures
        r@ == "host0:/"@ + filename@ + "\0"@,
{
    let mut s = String::from_str("host0:/");
    s.append(filename);
    s.append("\0");
    s
}

/// One line of the report: `test <name> ... ok` for a test that ran,
/// `test <name> ... ignored` for one that was skipped.
pub open spec fn test_line(name: Seq<char>, skipped: bool) -> Seq<char> {
    "test "@ + name + " ... "@ + (if skipped {
        "ignored\n"@
    } else {
        "ok\n"@
    })
}

/// The report's opening line: `running <count> test(s)`, with the singular
/// noun exactly for a count of one.
pub open spec fn header_line(count: nat) -> Seq<char> {
    "running "@ + dec_digits(count) + " "@ + (if count == 1 {
        "test"@
    } else {
        "tests"@
    }) + "\n"@
}

/// One registered test: its full name, its registration flags (each with an
/// optional message, as registered), and the function to call.
pub struct TestEntry<F> {
    pub name: String,
    pub should_panic: Option<Option<&'static str>>,
    pub ignore: Option<Option<&'static str>>,
    pub function: F,
}

/// Whether an entry is only reported, not run.
pub open spec fn entry_skipped<F>(e: TestEntry<F>) -> bool {
    e.should_panic is Some || e.ignore is Some
}

/// The report line of one entry.
pub open spec fn entry_line<F>(e: TestEntry<F>) -> Seq<char> {
    test_line(e.name@, entry_skipped(e))
}

/// The body of the report: the line of every entry, in registration order.
pub open spec fn transcript<F>(entries: Seq<TestEntry<F>>) -> Seq<char>
    decreases entries.len(),
{
    if entries.len() == 0 {
        Seq::<char>::empty()
    } else {
        transcript(entries.drop_last()) + entry_line(entries.last())
    }
}

/// The report a test execution accumulates.
pub struct PspTestContext {
    pub output: String,
}

impl PspTestContext {
    /// A context with an empty report.
    pub fn new() -> (r: Self)
        ensures
            r.output@ == Seq::<char>::empty(),
    {
        PspTestContext { output: String::new() }
    }

    /// Appends one message to the report.
    fn log(&mut self, msg: &str)
        ensures
            final(self).output@ == old(self).output@ + msg@,
    {
        self.output.append(msg);
    }

    /// Reports on one test: logs its name, then either runs it and logs
    /// `ok`, or — when a `should_panic` or `ignore` flag was registered —
    /// logs `ignored` without running it.
    pub fn execute<F: Fn()>(
        &mut self,
        name: &str,
        function: F,
        should_panic: Option<Option<&'static str>>,
        ignore: Option<Option<&'static str>>,
    )
        requires
            call_requires(function, ()),
        ensures
            final(self).output@ == old(self).output@ + test_line(
                name@,
                should_panic is Some || ignore is Some,
            ),
    {
        self.log("test ");
        self.log(name);
        self.log(" ... ");
        if !should_panic.is_some() && !ignore.is_some() {
            (function)();
            self.log("ok\n");
        } else {
            self.log("ignored\n");
        }
        proof {
            assert(self.output@ =~= old(self).output@ + test_line(
                name@,
                should_panic is Some || ignore is Some,
            ));
        }
    }
}

/// Drives one execution of every registered test through a context.
pub struct PspTestRunner {
    pub context: PspTestContext,
}

impl PspTestRunner {
    /// A runner over a fresh context.
    pub fn new() -> (r: Self)
        ensures
            r.context.output@ == Seq::<char>::empty(),
    {
        PspTestRunner { context: PspTestContext::new() }
    }

    /// Logs the opening count line, then reports on every entry in order.
    pub fn run<F: Fn() + Copy>(&mut self, tests: &Vec<TestEntry<F>>)
        requires
            forall|i: int|
                0 <= i < tests@.len() ==> call_requires(#[trigger] tests@[i].function, ()),
        ensures
            final(self).context.output@ == old(self).context.output@ + header_line(
                tests@.len() as nat,
            ) + transcript(tests@),
    {
        let count = tests.len();
        self.context.log("running ");
        let num = crate::text::usize_to_string(count);
        self.context.log(num.as_str());
        self.context.log(" ");
        if count == 1 {
            self.context.log("test");
        } else {
            self.context.log("tests");
        }
        self.context.log("\n");
        proof {
            assert(self.context.output@ =~= old(self).context.output@ + header_line(
                tests@.len() as nat,
            ));
        }
        let mut idx: usize = 0;
        while idx < count
            invariant
                idx <= count,
                count == tests@.len(),
                forall|i: int|
                    0 <= i < tests@.len() ==> call_requires(#[trigger] tests@[i].function, ()),
                self.context.output@ == old(self).context.output@ + header_line(
                    tests@.len() as nat,
                ) + transcript(tests@.subrange(0, idx as int)),
            decreases count - idx,
        {
            let entry = &tests[idx];
            let f = entry.function;
            self.context.execute(entry.name.as_str(), f, entry.should_panic, entry.ignore);
            proof {
                assert(tests@.subrange(0, idx + 1 as int).drop_last() =~= tests@.subrange(
                    0,
                    idx as int,
                ));
                assert(self.context.output@ =~= old(self).context.output@ + header_line(
                    tests@.len() as nat,
                ) + transcript(tests@.subrange(0, idx + 1 as int)));
            }
            idx = idx + 1;
        }
        proof {
            assert(tests@.subrange(0, tests@.len() as int) =~= tests@);
        }
    }
}

/// Runs every registered test through a fresh runner and returns the full
/// report, opening line included.
pub fn run_tests<F: Fn() + Copy>(tests: &Vec<TestEntry<F>>) -> (r: String)
    requires
        forall|i: int| 0 <= i < tests@.len() ==> call_requires(#[trigger] tests@[i].function, ()),
    ensures
        r@ == header_line(tests@.len() as nat) + transcript(tests@),
{
    let mut runner = PspTestRunner::new();
    runner.run(tests);
    proof {
        assert(runner.context.output@ =~= header_line(tests@.len() as nat) + transcript(tests@));
    }
    runner.context.output
}

} // verus!
