//! The status lines that on-device test programs print and the test runner reads.
//!
//! A test program prints `::test:status=run` when it starts and `::test:status=done`,
//! `::test:status=error` or `::test:status=panic` when it ends; every other line is ordinary
//! output.

use vstd::prelude::*;
use vstd::string::*;

use crate::text::{spec_trim, str_eq};

verus! {

/// The state a test program reports.
#[derive(Debug, Clone, Copy, PartialEq, Eq, Structural)]
pub enum TestStatus {
    /// The test started.
    Run,
    /// The test succeeded.
    Done,
    /// The test returned an error.
    Error,
    /// The test panicked.
    Panic,
}

/// What a line of test output is.
#[derive(Debug, Clone, Copy, PartialEq, Eq, Structural)]
pub enum TestLine {
    /// A status report.
    Status(TestStatus),
    /// A status directive with a value the runner does not know; it is ignored.
    UnknownStatus,
    /// Ordinary output.
    Output,
}

/// The word of each status.
pub open spec fn spec_status_word(status: TestStatus) -> Seq<char> {
    match status {
        TestStatus::Run => "run"@,
        TestStatus::Done => "done"@,
        TestStatus::Error => "error"@,
        TestStatus::Panic => "panic"@,
    }
}

/// The prefix of every test directive.
pub open spec fn spec_directive_prefix() -> Seq<char> {
    "::test:"@
}

/// Calls `str::trim`, which removes leading and trailing whitespace (`char::is_whitespace`).
#[verifier::external_body]
fn trim(s: &str) -> (r: &str)
    ensures
        r@ == spec_trim(s@),
{
    s.trim()
}

/// How a trimmed line is read: `::test:` followed by `name=value` is a directive; a `status`
/// directive with a known value is a status report, one with another value is ignored; every
/// other line is output.
pub open spec fn spec_classify_trimmed(t: Seq<char>) -> TestLine {
    let p = spec_directive_prefix();
    if t.len() >= p.len() && t.subrange(0, p.len() as int) == p {
        let rest = t.subrange(p.len() as int, t.len() as int);
        if exists|k: int| 0 <= k < rest.len() && rest[k] == '=' {
            let k = choose|k: int| 0 <= k < rest.len() && rest[k] == '=' && forall|j: int| 0 <= j < k ==> rest[j] != '=';
            let cmd = rest.subrange(0, k);
            let arg = rest.subrange(k + 1, rest.len() as int);
            if cmd == "status"@ {
                if arg == "run"@ {
                    TestLine::Status(TestStatus::Run)
                } else if arg == "done"@ {
                    TestLine::Status(TestStatus::Done)
                } else if arg == "error"@ {
                    TestLine::Status(TestStatus::Error)
                } else if arg == "panic"@ {
                    TestLine::Status(TestStatus::Panic)
                } else {
                    TestLine::UnknownStatus
                }
            } else {
                TestLine::Output
            }
        } else {
            TestLine::Output
        }
    } else {
        TestLine::Output
    }
}

/// Reads a trimmed line of test output.
pub fn classify_trimmed(t: &str) -> (r: TestLine)
    ensures
        r == spec_classify_trimmed(t@),
{
    let prefix = "::test:";
    let n = t.unicode_len();
    let plen = prefix.unicode_len();
    if n < plen {
        return TestLine::Output;
    }
    let head = t.substring_char(0, plen);
    if !str_eq(head, prefix) {
        return TestLine::Output;
    }
    let rest = t.substring_char(plen, n);
    let rlen = rest.unicode_len();
    let mut k: usize = 0;
    while k < rlen
        invariant
            rlen == rest@.len(),
            k <= rlen,
            forall|j: int| 0 <= j < k ==> rest@[j] != '=',
        ensures
            k <= rlen,
            forall|j: int| 0 <= j < k ==> rest@[j] != '=',
            k < rlen ==> rest@[k as int] == '=',
        decreases rlen - k,
    {
        if rest.get_char(k) == '=' {
            break;
        }
        k = k + 1;
    }
    if k == rlen {
        return TestLine::Output;
    }
    let ghost kk = k as int;
    proof {
        assert(rest@[kk] == '=');
        let c = choose|c: int| 0 <= c < rest@.len() && rest@[c] == '=' && forall|j: int| 0 <= j < c ==> rest@[j] != '=';
        assert(c == kk) by {
            if c < kk {
                assert(rest@[c] != '=');
            } else if c > kk {
                assert(rest@[kk] != '=');
            }
        }
    }
    let cmd = rest.substring_char(0, k);
    let arg = rest.substring_char(k + 1, rlen);
    if !str_eq(cmd, "status") {
        return TestLine::Output;
    }
    if str_eq(arg, "run") {
        TestLine::Status(TestStatus::Run)
    } else if str_eq(arg, "done") {
        TestLine::Status(TestStatus::Done)
    } else if str_eq(arg, "error") {
        TestLine::Status(TestStatus::Error)
    } else if str_eq(arg, "panic") {
        TestLine::Status(TestStatus::Panic)
    } else {
        TestLine::UnknownStatus
    }
}

/// Reads a line of test output (surrounding whitespace is ignored).
pub fn classify_line(line: &str) -> (r: TestLine)
    ensures
        r == spec_classify_trimmed(spec_trim(line@)),
{
    classify_trimmed(trim(line))
}

/// What the test runner does with a line of a test program's output.
#[derive(Debug, Clone, Copy, PartialEq, Eq, Structural)]
pub enum RunnerStep {
    /// Show that the test is running and read on.
    Running,
    /// Show the test's final state and stop reading; the test passed when it is `Done`.
    Finished(TestStatus),
    /// Print the line and read on.
    Print,
    /// Read on.
    Skip,
}

/// The runner's step for a line of a given kind: a start report shows the test as running, an
/// end report finishes it, an unknown status is skipped and any other line is printed.
pub open spec fn spec_runner_step(line: TestLine) -> RunnerStep {
    match line {
        TestLine::Status(TestStatus::Run) => RunnerStep::Running,
        TestLine::Status(status) => RunnerStep::Finished(status),
        TestLine::UnknownStatus => RunnerStep::Skip,
        TestLine::Output => RunnerStep::Print,
    }
}

/// Decides what the test runner does with a line of test output.
pub fn runner_step(line: &str) -> (r: RunnerStep)
    ensures
        r == spec_runner_step(spec_classify_trimmed(spec_trim(line@))),
{
    match classify_line(line) {
        TestLine::Status(TestStatus::Run) => RunnerStep::Running,
        TestLine::Status(status) => RunnerStep::Finished(status),
        TestLine::UnknownStatus => RunnerStep::Skip,
        TestLine::Output => RunnerStep::Print,
    }
}

/// Whether a test that finished with `status` passed.
pub fn test_passed(status: TestStatus) -> (r: bool)
    ensures
        r == (status == TestStatus::Done),
{
    match status {
        TestStatus::Done => true,
        _ => false,
    }
}

/// The word the runner's progress display uses for a status.
pub open spec fn spec_progress_word(status: TestStatus) -> Seq<char> {
    match status {
        TestStatus::Run => "running"@,
        TestStatus::Done => "succeeded"@,
        TestStatus::Error => "errored"@,
        TestStatus::Panic => "panicked"@,
    }
}

/// Returns the word the runner's progress display uses for a status.
pub fn progress_word(status: TestStatus) -> (r: &'static str)
    ensures
        r@ == spec_progress_word(status),
{
    match status {
        TestStatus::Run => "running",
        TestStatus::Done => "succeeded",
        TestStatus::Error => "errored",
        TestStatus::Panic => "panicked",
    }
}

/// The status line a test program prints for `status`.
pub fn status_line(status: TestStatus) -> (r: String)
    ensures
        r@ == spec_directive_prefix() + "status="@ + spec_status_word(status),
{
    let mut s = String::from_str("::test:");
    s.append("status=");
    let word = match status {
        TestStatus::Run => "run",
        TestStatus::Done => "done",
        TestStatus::Error => "error",
        TestStatus::Panic => "panic",
    };
    s.append(word);
    s
}

/// A printed status line is read back as the same status.
pub proof fn lemma_status_line_roundtrip(status: TestStatus)
    ensures
        spec_classify_trimmed(spec_directive_prefix() + "status="@ + spec_status_word(status)) == TestLine::Status(
            status,
        ),
{
    reveal_strlit("::test:");
    reveal_strlit("status=");
    reveal_strlit("status");
    reveal_strlit("run");
    reveal_strlit("done");
    reveal_strlit("error");
    reveal_strlit("panic");
    let t = spec_directive_prefix() + "status="@ + spec_status_word(status);
    let p = spec_directive_prefix();
    assert(t.subrange(0, p.len() as int) =~= p);
    let rest = t.subrange(p.len() as int, t.len() as int);
    assert(rest =~= "status="@ + spec_status_word(status));
    assert(rest[6] == '=');
    let k = choose|k: int| 0 <= k < rest.len() && rest[k] == '=' && forall|j: int| 0 <= j < k ==> rest[j] != '=';
    assert(k == 6) by {
        if k < 6 {
            assert(rest[k] != '=');
        } else if k > 6 {
            assert(rest[6] != '=');
        }
    }
    assert(rest.subrange(0, 6) =~= "status"@);
    assert(rest.subrange(7, rest.len() as int) =~= spec_status_word(status));
    match status {
        TestStatus::Run => {},
        TestStatus::Done => {
            assert(spec_status_word(status) != "run"@) by {
                assert(spec_status_word(status).len() != "run"@.len());
            }
        },
        TestStatus::Error => {
            assert(spec_status_word(status) != "run"@) by {
                assert(spec_status_word(status).len() != "run"@.len());
            }
            assert(spec_status_word(status) != "done"@) by {
                assert(spec_status_word(status).len() != "done"@.len());
            }
        },
        TestStatus::Panic => {
            assert(spec_status_word(status) != "run"@) by {
                assert(spec_status_word(status).len() != "run"@.len());
            }
            assert(spec_status_word(status) != "done"@) by {
                assert(spec_status_word(status).len() != "done"@.len());
            }
            assert(spec_status_word(status) != "error"@) by {
                assert(spec_status_word(status)[0] != "error"@[0]);
            }
        },
    }
}

/// The status lines are `::test:status=run`, `::test:status=done`, `::test:status=error` and
/// `::test:status=panic`. The runner shows the test as running on the first, finishes it with its
/// status on the others, skips a status directive it does not know and prints any other line.
/// Its progress display says `running`, `succeeded`, `errored` and `panicked`.
pub proof fn lemma_status_words()
    ensures
        spec_directive_prefix() + "status="@ + spec_status_word(TestStatus::Run) == "::test:status=run"@,
        spec_directive_prefix() + "status="@ + spec_status_word(TestStatus::Done) == "::test:status=done"@,
        spec_directive_prefix() + "status="@ + spec_status_word(TestStatus::Error) == "::test:status=error"@,
        spec_directive_prefix() + "status="@ + spec_status_word(TestStatus::Panic) == "::test:status=panic"@,
        spec_classify_trimmed("::test:status=run"@) == TestLine::Status(TestStatus::Run),
        spec_classify_trimmed("::test:status=done"@) == TestLine::Status(TestStatus::Done),
        spec_classify_trimmed("::test:status=error"@) == TestLine::Status(TestStatus::Error),
        spec_classify_trimmed("::test:status=panic"@) == TestLine::Status(TestStatus::Panic),
        spec_runner_step(TestLine::Status(TestStatus::Run)) == RunnerStep::Running,
        spec_runner_step(TestLine::Status(TestStatus::Done)) == RunnerStep::Finished(TestStatus::Done),
        spec_runner_step(TestLine::Status(TestStatus::Error)) == RunnerStep::Finished(TestStatus::Error),
        spec_runner_step(TestLine::Status(TestStatus::Panic)) == RunnerStep::Finished(TestStatus::Panic),
        spec_runner_step(TestLine::UnknownStatus) == RunnerStep::Skip,
        spec_runner_step(TestLine::Output) == RunnerStep::Print,
        spec_progress_word(TestStatus::Run) == "running"@,
        spec_progress_word(TestStatus::Done) == "succeeded"@,
        spec_progress_word(TestStatus::Error) == "errored"@,
        spec_progress_word(TestStatus::Panic) == "panicked"@,
{
    reveal_strlit("::test:");
    reveal_strlit("status=");
    reveal_strlit("run");
    reveal_strlit("done");
    reveal_strlit("error");
    reveal_strlit("panic");
    reveal_strlit("::test:status=run");
    reveal_strlit("::test:status=done");
    reveal_strlit("::test:status=error");
    reveal_strlit("::test:status=panic");
    assert(spec_directive_prefix() + "status="@ + spec_status_word(TestStatus::Run) =~= "::test:status=run"@);
    assert(spec_directive_prefix() + "status="@ + spec_status_word(TestStatus::Done) =~= "::test:status=done"@);
    assert(spec_directive_prefix() + "status="@ + spec_status_word(TestStatus::Error) =~= "::test:status=error"@);
    assert(spec_directive_prefix() + "status="@ + spec_status_word(TestStatus::Panic) =~= "::test:status=panic"@);
    lemma_status_line_roundtrip(TestStatus::Run);
    lemma_status_line_roundtrip(TestStatus::Done);
    lemma_status_line_roundtrip(TestStatus::Error);
    lemma_status_line_roundtrip(TestStatus::Panic);
}

} // verus!
