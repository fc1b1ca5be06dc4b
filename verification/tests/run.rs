use kapow::run::{exit_status, pager_command, push_decimal, run_report, Failure, RunReport};
use kapow::wrap::wrap_output;

fn decimal(n: i32) -> String {
    let mut out = Vec::new();
    push_decimal(&mut out, n);
    out.into_iter().collect()
}

#[test]
fn decimal_numbers() {
    for n in [0, 1, 9, 10, 104, -1, -10, 255, i32::MAX, i32::MIN] {
        assert_eq!(decimal(n), n.to_string());
    }
}

#[test]
fn report_of_a_command_that_succeeded() {
    assert_eq!(
        run_report("ls", "warn\n", "out\n", Some(0), &Some("```".to_string()), false),
        RunReport { output: "warn\nout\n".to_string(), failure: None }
    );
}

#[test]
fn report_of_a_command_that_failed() {
    let report = run_report("false", "", "", Some(1), &None, false);
    assert_eq!(report.output, "");
    assert_eq!(
        report.failure,
        Some("\n---\n\nERROR: Command `false` exited with error code `Some(1)`\n\n".to_string())
    );
    assert_eq!(report.failure, Some(format!("\n---\n\nERROR: Command `{}` exited with error code `{:?}`\n\n", "false", Some(1))));
}

#[test]
fn failure_closes_the_open_fence() {
    let report = run_report("exit 3", "e", "o", Some(3), &Some("  ~~~~".to_string()), false);
    assert_eq!(report.output, "eo");
    assert_eq!(
        report.failure,
        Some("  ~~~~\n\n---\n\nERROR: Command `exit 3` exited with error code `Some(3)`\n\n".to_string())
    );
}

#[test]
fn command_ended_by_a_signal_has_failed() {
    let report = run_report("kill -9 $$", "", "", None, &None, false);
    assert_eq!(
        report.failure,
        Some("\n---\n\nERROR: Command `kill -9 $$` exited with error code `None`\n\n".to_string())
    );
    let negative = run_report("x", "", "", Some(-2), &None, false);
    assert_eq!(
        negative.failure,
        Some("\n---\n\nERROR: Command `x` exited with error code `Some(-2)`\n\n".to_string())
    );
}

#[test]
fn ignored_failure_is_not_reported() {
    let report = run_report("false", "e", "o", Some(1), &Some("```".to_string()), true);
    assert_eq!(report, RunReport { output: "eo".to_string(), failure: None });
    assert_eq!(run_report("x", "", "", None, &None, true).failure, None);
}

#[test]
fn exit_statuses() {
    assert_eq!(exit_status(Failure::Input), 101);
    assert_eq!(exit_status(Failure::Included), 102);
    assert_eq!(exit_status(Failure::Directory), 103);
    assert_eq!(exit_status(Failure::Command), 104);
    assert_eq!(exit_status(Failure::Highlighter), 105);
}

#[test]
fn pager_command_lines() {
    assert_eq!(pager_command(false, false, false, "md"), "bat -pPl md");
    assert_eq!(pager_command(false, true, false, "md"), "bat -pl md");
    assert_eq!(pager_command(true, false, false, "md"), "bat -pl md");
    assert_eq!(pager_command(true, true, false, "md"), "bat -pPl md");
    assert_eq!(pager_command(false, false, true, "md"), "bat -pP");
    assert_eq!(pager_command(true, false, false, ""), "bat -p");
    assert_eq!(pager_command(false, false, false, "rust"), "bat -pPl rust");
}

#[test]
fn wrap_at_five_columns() {
    assert_eq!(wrap_output("abcdefgh\n", 5, "\\"), Some("abcd\\\nefgh\n".to_string()));
    assert_eq!(wrap_output("abcdefgh", 5, "\\"), Some("abcd\\\nefgh".to_string()));
}

#[test]
fn wrap_keeps_short_lines() {
    assert_eq!(wrap_output("abc\nde\n", 5, "\\"), Some("abc\nde\n".to_string()));
    assert_eq!(wrap_output("", 5, "\\"), Some(String::new()));
    assert_eq!(wrap_output("abcde\n", 5, "\\"), Some("abcde\n".to_string()));
    assert_eq!(wrap_output("abcdef\n", 5, "\\"), Some("abcd\\\nef\n".to_string()));
}

#[test]
fn width_zero_leaves_the_text() {
    assert_eq!(wrap_output("abcdefgh\n", 0, "\\"), Some("abcdefgh\n".to_string()));
    assert_eq!(wrap_output("\u{1b}[33ma\tb", 0, ""), Some("\u{1b}[33ma\tb".to_string()));
}

#[test]
fn text_that_the_wrapper_cannot_take() {
    assert_eq!(wrap_output("abcdefgh", 5, ""), None);
    assert_eq!(wrap_output("abcdefgh", 1, "\\"), None);
    assert_eq!(wrap_output("abcdefgh", 2, "\\\\"), None);
    assert_eq!(wrap_output("\u{1b}[33mabcdefgh\u{1b}[0m", 5, "\\"), None);
    assert_eq!(wrap_output("a\tb", 5, "\\"), None);
    assert_eq!(wrap_output("a\u{85}b", 5, "\\"), None);
}

#[test]
fn wrap_counts_clusters() {
    assert_eq!(wrap_output("e\u{301}e\u{301}e\u{301}e\u{301}e\u{301}e\u{301}\n", 5, "\\"), Some("e\u{301}e\u{301}e\u{301}e\u{301}\\\ne\u{301}e\u{301}\n".to_string()));
    assert_eq!(wrap_output("abcdefgh\n", 5, "->"), Some("abc->\ndef->\ngh\n".to_string()));
}

#[test]
fn wrapped_text_without_its_breaks_is_the_text() {
    let text = "The quick brown fox jumps over the lazy dog and keeps on running.\nshort\n\nend\n";
    for width in [3, 5, 8, 13, 40, 200] {
        let wrapped = wrap_output(text, width, "\\").unwrap();
        assert_eq!(wrapped.replace("\\\n", ""), text, "{width}");
        for line in wrapped.lines() {
            assert!(line.chars().count() <= width, "{width}: {line:?}");
        }
    }
}
