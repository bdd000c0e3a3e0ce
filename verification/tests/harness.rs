use v5gdb::harness::{
    classify_line, progress_word, runner_step, status_line, test_passed, RunnerStep, TestLine, TestStatus,
};

#[test]
fn status_lines_roundtrip() {
    for status in [TestStatus::Run, TestStatus::Done, TestStatus::Error, TestStatus::Panic] {
        assert_eq!(classify_line(&status_line(status)), TestLine::Status(status));
    }
    assert_eq!(status_line(TestStatus::Done), "::test:status=done");
}

#[test]
fn classifies_output_lines() {
    assert_eq!(classify_line("  ::test:status=run \n"), TestLine::Status(TestStatus::Run));
    assert_eq!(classify_line("::test:status=skipped"), TestLine::UnknownStatus);
    assert_eq!(classify_line("::test:other=run"), TestLine::Output);
    assert_eq!(classify_line("::test:status"), TestLine::Output);
    assert_eq!(classify_line("hello world"), TestLine::Output);
    assert_eq!(classify_line("::test:status=done=1"), TestLine::UnknownStatus);
    assert_eq!(classify_line(""), TestLine::Output);
}

#[test]
fn runner_steps() {
    assert_eq!(runner_step("::test:status=run"), RunnerStep::Running);
    assert_eq!(runner_step(" ::test:status=done"), RunnerStep::Finished(TestStatus::Done));
    assert_eq!(runner_step("::test:status=error"), RunnerStep::Finished(TestStatus::Error));
    assert_eq!(runner_step("::test:status=panic\r"), RunnerStep::Finished(TestStatus::Panic));
    assert_eq!(runner_step("::test:status=later"), RunnerStep::Skip);
    assert_eq!(runner_step("motor 1 ok"), RunnerStep::Print);
    assert!(test_passed(TestStatus::Done));
    assert!(!test_passed(TestStatus::Error));
    assert!(!test_passed(TestStatus::Panic));
    assert_eq!(progress_word(TestStatus::Done), "succeeded");
    assert_eq!(progress_word(TestStatus::Panic), "panicked");
}

#[test]
fn unicode_whitespace_is_trimmed() {
    assert_eq!(classify_line("\u{3000}::test:status=done\u{85}"), TestLine::Status(TestStatus::Done));
    assert_eq!(classify_line("\u{a0}\t::test:status=run\u{2029}"), TestLine::Status(TestStatus::Run));
}
