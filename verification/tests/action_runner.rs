use std::time::Duration;
use unilii::action_runner::{ActionRunner, BoundedOutput, CommandEnd, OutputCapture, DEFAULT_OUTPUT_LIMIT_BYTES};

#[test]
fn runners_start_with_default_limits() {
    let runner = ActionRunner::new("menu".to_string(), "act".to_string());
    assert_eq!(runner.menu, "menu");
    assert_eq!(runner.action, "act");
    assert_eq!(runner.timeout(), Duration::from_secs(30));
    assert_eq!(runner.output_limit_bytes(), DEFAULT_OUTPUT_LIMIT_BYTES);
    assert_eq!(DEFAULT_OUTPUT_LIMIT_BYTES, 64 * 1024);
    let limited = runner.clone().with_output_limit(0);
    assert_eq!(limited.output_limit_bytes(), 1);
    assert_eq!(runner.with_output_limit(1024).output_limit_bytes(), 1024);
}

#[test]
fn capture_keeps_first_bytes_and_counts_all() {
    let mut capture = OutputCapture::new(4);
    capture.push_chunk(b"ab");
    capture.push_chunk(b"cdef");
    capture.push_chunk(b"");
    capture.push_chunk(b"gh");
    let out = capture.finish();
    assert_eq!(out, BoundedOutput { text: "abcd".to_string(), truncated: true, total_bytes: 8 });

    let mut small = OutputCapture::new(16);
    small.push_chunk("héllo\n".as_bytes());
    let out = small.finish();
    assert_eq!(out.text, "héllo\n");
    assert!(!out.truncated);
    assert_eq!(out.total_bytes, 7);
}

#[test]
fn capture_replaces_invalid_utf8() {
    let mut capture = OutputCapture::new(8);
    capture.push_chunk(&[0x61, 0xff, 0x62]);
    assert_eq!(capture.finish().text, "a\u{fffd}b");
}

fn output(text: &str) -> BoundedOutput {
    BoundedOutput { text: text.to_string(), truncated: false, total_bytes: text.len() as u64 }
}

#[test]
fn command_outcomes_classify_how_commands_end() {
    let runner = ActionRunner::with_timeout("menu-c".to_string(), "action-failure".to_string(), Duration::from_secs(1));

    let ok = runner.command_outcome(CommandEnd::Exited { code: Some(0), success: true }, output("hi\n"), output(""), 12);
    assert_eq!(ok.result, Ok(()));
    assert_eq!(ok.exit_code, Some(0));
    assert_eq!(ok.error_class, None);
    assert_eq!(ok.stdout, "hi\n");
    assert_eq!(ok.duration_ms, 12);

    let failed = runner.command_outcome(CommandEnd::Exited { code: Some(23), success: false }, output(""), output("failure details\n"), 5);
    assert_eq!(failed.menu, "menu-c");
    assert_eq!(failed.action, "action-failure");
    assert_eq!(failed.exit_code, Some(23));
    assert_eq!(failed.error_class.as_deref(), Some("non_zero_exit"));
    assert_eq!(failed.stderr, "failure details\n");
    assert_eq!(failed.result, Err("action `action-failure` for menu `menu-c` exited with status Some(23)".to_string()));

    let killed = runner.command_outcome(CommandEnd::Exited { code: None, success: false }, output(""), output(""), 5);
    assert_eq!(killed.result, Err("action `action-failure` for menu `menu-c` exited with status None".to_string()));

    let timed_out = runner.command_outcome(CommandEnd::TimedOut, output("partial"), output(""), 1000);
    assert_eq!(timed_out.exit_code, None);
    assert_eq!(timed_out.error_class.as_deref(), Some("timeout"));
    assert_eq!(timed_out.result, Err("action `action-failure` for menu `menu-c` timed out after 1s".to_string()));
    assert_eq!(timed_out.stdout, "partial");

    let wait = runner.command_outcome(CommandEnd::WaitFailed("no child".to_string()), output(""), output(""), 1);
    assert_eq!(wait.error_class.as_deref(), Some("wait"));
    assert_eq!(wait.result, Err("failed to wait for action `action-failure` in menu `menu-c`: no child".to_string()));

    let spawn = runner.spawn_failure_outcome("/bin/missing", "No such file or directory (os error 2)", 0);
    assert_eq!(spawn.error_class.as_deref(), Some("spawn"));
    assert_eq!(
        spawn.result,
        Err("failed to spawn action `/bin/missing` for menu `menu-c` action `action-failure`: No such file or directory (os error 2)".to_string())
    );
}

#[test]
fn generic_work_outcomes() {
    let runner = ActionRunner::with_timeout("menu-generic".to_string(), "slow-work".to_string(), Duration::from_millis(25));
    let late = runner.work_outcome::<()>(None, 25);
    assert_eq!(late.error_class.as_deref(), Some("timeout"));
    assert_eq!(late.result, Err("action `slow-work` for menu `menu-generic` timed out after 25ms".to_string()));
    let done = runner.work_outcome(Some(Ok(7u32)), 3);
    assert_eq!(done.result, Ok(7));
    assert_eq!(done.error_class, None);
    let failed = runner.work_outcome::<u32>(Some(Err("boom".to_string())), 3);
    assert_eq!(failed.error_class.as_deref(), Some("error"));
    assert_eq!(failed.result, Err("boom".to_string()));
    assert_eq!(failed.clone(), failed);
}
