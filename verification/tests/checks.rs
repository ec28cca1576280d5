use assert_cmd::assertion::Assert;
use assert_cmd::assertion::FailureKind;
use assert_cmd::code_pred::EqCodePredicate;
use assert_cmd::process_result::ProcessResult;
use assert_cmd::render::dump_buffer;
use assert_cmd::tree::CaseTree;

fn finished(success: bool, code: Option<i32>, stdout: &[u8], stderr: &[u8]) -> ProcessResult {
    ProcessResult::new(success, code, stdout.to_vec(), stderr.to_vec())
}

#[test]
fn success_on_code_zero_chains() {
    let a = Assert::new(finished(true, Some(0), b"", b""));
    let a = a.success().unwrap();
    assert_eq!(a.get_output().code, Some(0));
    let a = a.code(0).unwrap();
    assert_eq!(a.get_output().code, Some(0));
}

#[test]
fn code_accepts_literal_collection_and_rejects_predicate() {
    let a = Assert::new(finished(false, Some(42), b"", b"boom\n"));
    let a = a.code(42).unwrap();
    let a = a.code(&[2, 42] as &[i32]).unwrap();
    let e = a.code(EqCodePredicate::new(7)).unwrap_err();
    assert!(matches!(e.kind, FailureKind::Mismatch));
    assert!(e.message.contains("Unexpected return code, failed"));
    assert!(e.message.contains("code == 7"));
    assert!(e.message.contains("  actual: 42"));
    assert!(e.message.contains("stderr=```boom\n```"));
}

#[test]
fn stdout_and_stderr_chain_on_match() {
    let a = Assert::new(finished(true, Some(0), b"hello\n", b"world\n"));
    let a = a.stdout("hello\n").unwrap().stderr("world\n").unwrap();
    assert_eq!(a.get_output().stdout, b"hello\n".to_vec());
}

#[test]
fn interrupted_process_fails_code_check_distinctly() {
    let a = Assert::new(finished(false, None, b"", b""));
    let e = a.code(0).unwrap_err();
    assert!(matches!(e.kind, FailureKind::MissingCode));
    assert_eq!(
        e.message,
        "Command interrupted\ncode=<interrupted>\nstdout=``````\nstderr=``````\n"
    );

    let a = Assert::new(finished(false, None, b"", b""));
    let a = a.interrupted().unwrap();
    assert!(a.get_output().code.is_none());
}

#[test]
fn completed_process_fails_interrupted_check() {
    let a = Assert::new(finished(true, Some(0), b"", b""));
    let e = a.interrupted().unwrap_err();
    assert!(matches!(e.kind, FailureKind::Mismatch));
    assert!(e.message.contains("Unexpected completion"));
}

#[test]
fn failure_check_rejects_success() {
    let a = Assert::new(finished(true, Some(0), b"", b""));
    let e = a.failure().unwrap_err();
    assert!(matches!(e.kind, FailureKind::Mismatch));
    assert!(e.message.contains("Unexpected success"));
}

#[test]
fn failure_check_accepts_nonzero_exit() {
    let a = Assert::new(finished(false, Some(3), b"", b""));
    let a = a.failure().unwrap();
    assert_eq!(a.get_output().code, Some(3));
}

#[test]
fn success_failure_reports_code_and_stderr() {
    let a = Assert::new(finished(false, Some(101), b"", b"died\n"));
    let e = a.success().unwrap_err();
    assert!(matches!(e.kind, FailureKind::Mismatch));
    assert!(e.message.contains("Unexpected failure"));
    assert!(e.message.contains("code=101"));
    assert!(e.message.contains("stderr=```died\n```"));
}

#[test]
fn success_failure_marks_interrupted_process() {
    let a = Assert::new(finished(false, None, b"", b""));
    let e = a.success().unwrap_err();
    assert!(matches!(e.kind, FailureKind::Mismatch));
    assert!(e.message.contains("code=<interrupted>"));
}

#[test]
fn stdout_mismatch_renders_both_sides() {
    let a = Assert::new(finished(true, Some(0), b"hello\n", b""));
    let e = a.stdout("goodbye\n").unwrap_err();
    assert!(matches!(e.kind, FailureKind::Mismatch));
    assert!(e.message.contains("Unexpected stdout, failed"));
    assert!(e.message.contains("output == ```goodbye\n```"));
    assert!(e.message.contains("  actual: ```hello\n```"));
}

#[test]
fn stderr_mismatch_is_reported() {
    let a = Assert::new(finished(true, Some(0), b"", b"warn\n"));
    let e = a.stderr(b"fail\n" as &[u8]).unwrap_err();
    assert!(matches!(e.kind, FailureKind::Mismatch));
    assert!(e.message.contains("Unexpected stderr, failed"));
    assert!(e.message.contains("  actual: ```warn\n```"));
}

#[test]
fn invalid_utf8_stdout_fails_text_check_with_escapes() {
    let a = Assert::new(finished(true, Some(0), b"ok\xff", b""));
    let e = a.stdout("ok").unwrap_err();
    assert!(matches!(e.kind, FailureKind::Mismatch));
    assert!(e.message.contains("  actual: ```ok\\xff```"));
}

#[test]
fn negative_code_is_rendered_in_decimal() {
    let a = Assert::new(finished(false, Some(-5), b"", b""));
    let e = a.code(0).unwrap_err();
    assert!(matches!(e.kind, FailureKind::Mismatch));
    assert!(e.message.contains("code == 0"));
    assert!(e.message.contains("  actual: -5"));
    assert!(e.message.contains("code=-5"));
}

#[test]
fn context_entries_appear_in_insertion_order() {
    let a = Assert::new(finished(false, Some(1), b"", b""));
    let a = a
        .append_context("command", String::from("demo --flag"))
        .append_context("cwd", String::from("/tmp"));
    let e = a.success().unwrap_err();
    let first = e.message.find("command=`demo --flag`").unwrap();
    let second = e.message.find("cwd=`/tmp`").unwrap();
    assert!(first < second);
}

#[test]
fn passing_check_keeps_earlier_context() {
    let a = Assert::new(finished(true, Some(0), b"", b""));
    let a = a.append_context("step", String::from("one"));
    let a = a.success().unwrap();
    let a = a.append_context("step", String::from("two"));
    let e = a.failure().unwrap_err();
    let first = e.message.find("step=`one`").unwrap();
    let second = e.message.find("step=`two`").unwrap();
    assert!(first < second);
}

#[test]
fn dump_renders_valid_utf8_as_text() {
    assert_eq!(dump_buffer(b"hello"), "hello");
    assert_eq!(dump_buffer(b""), "");
    assert_eq!(dump_buffer("caf\u{e9}".as_bytes()), "caf\u{e9}");
}

#[test]
fn dump_escapes_invalid_utf8_bytewise() {
    assert_eq!(dump_buffer(b"ab\xffcd"), "ab\\xffcd");
    assert_eq!(dump_buffer(b"\x00\xfe"), "\\x00\\xfe");
    assert_eq!(dump_buffer(b"\x1b[0m\xc3("), "\\x1b[0m\\xc3(");
}

#[test]
fn case_tree_renders_label_then_children() {
    let leaf = CaseTree::leaf(String::from("  actual: 1"));
    let tree = CaseTree::node_with_child(String::from("code == 2"), leaf);
    assert_eq!(tree.render(), "code == 2\n  actual: 1\n");
}
