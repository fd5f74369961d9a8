use flips_wrapper::{map_result, try_map_result, Captured};
use flips_wrapper::{FlipsError, FlipsWrapper, PatchType};

fn strings(items: &[&str]) -> Vec<String> {
    items.iter().map(|s| s.to_string()).collect()
}

fn captured(stdout: &str, stderr: &str, exit_code: Option<i32>) -> Captured {
    Captured { stdout: stdout.as_bytes().to_vec(), stderr: stderr.as_bytes().to_vec(), exit_code }
}

#[test]
fn exit_zero_is_success_with_the_lines() {
    let result = map_result(Some(captured("Creating patch\nDone\n", "warning: big\n", Some(0))));
    let output = result.unwrap();
    assert_eq!(output.stdout, strings(&["Creating patch", "Done"]));
    assert_eq!(output.stderr, strings(&["warning: big"]));
}

#[test]
fn exit_zero_with_crlf_output() {
    let output = map_result(Some(captured("a\r\nb\r\n", "", Some(0)))).unwrap();
    assert_eq!(output.stdout, strings(&["a", "b"]));
    assert_eq!(output.stderr, Vec::<String>::new());
}

#[test]
fn silent_tool_that_exits_zero_gives_empty_output() {
    let w = FlipsWrapper::new("/bin/true".to_string(), "clean.smc".to_string());
    let plan = w
        .plan_create_patch(
            Some(true),
            "hack.smc",
            Some("hack.bps"),
            Some(true),
            Some(PatchType::Bps),
        )
        .unwrap();
    assert_eq!(plan.program, "/bin/true");
    let output = map_result(Some(captured("", "", Some(0)))).unwrap();
    assert!(output.stdout.is_empty());
    assert!(output.stderr.is_empty());
}

#[test]
fn nonzero_exit_is_operation_failed_with_code_and_output() {
    let result = map_result(Some(captured("reading\n", "error: not a patch\nabort\n", Some(2))));
    match result {
        Err(FlipsError::OperationFailed { output: Some(output), exit_code }) => {
            assert_eq!(exit_code, Some(2));
            assert_eq!(output.stdout, strings(&["reading"]));
            assert_eq!(output.stderr, strings(&["error: not a patch", "abort"]));
        }
        other => panic!("expected OperationFailed with output, got {:?}", other),
    }
}

#[test]
fn exit_codes_are_passed_on_as_they_are() {
    for code in [1, -1, 255, 256, i32::MAX, i32::MIN] {
        match map_result(Some(captured("", "", Some(code)))) {
            Err(FlipsError::OperationFailed { output: Some(output), exit_code }) => {
                assert_eq!(exit_code, Some(code));
                assert!(output.stdout.is_empty());
                assert!(output.stderr.is_empty());
            }
            other => panic!("expected OperationFailed, got {:?}", other),
        }
    }
}

#[test]
fn process_without_exit_code_is_operation_failed() {
    match map_result(Some(captured("partial", "", None))) {
        Err(FlipsError::OperationFailed { output: Some(output), exit_code }) => {
            assert_eq!(exit_code, None);
            assert_eq!(output.stdout, strings(&["partial"]));
            assert!(output.stderr.is_empty());
        }
        other => panic!("expected OperationFailed, got {:?}", other),
    }
}

#[test]
fn process_that_never_ran_is_operation_failed_with_nothing() {
    match map_result(None) {
        Err(FlipsError::OperationFailed { output, exit_code }) => {
            assert!(output.is_none());
            assert_eq!(exit_code, None);
        }
        other => panic!("expected OperationFailed, got {:?}", other),
    }
}

#[test]
fn missing_tool_is_told_apart_from_a_failed_run() {
    let w = FlipsWrapper::new("/no/such/flips".to_string(), "clean.smc".to_string());
    let missing = w.plan_apply_patch(Some(false), "hack.bps", None, None, None);
    assert!(matches!(missing, Err(FlipsError::FlipsMissing { .. })));
    let failed = map_result(None);
    assert!(matches!(failed, Err(FlipsError::OperationFailed { .. })));
}

#[test]
fn try_map_result_agrees_on_text() {
    let output = try_map_result(Some(captured("a\nb\n", "c\n", Some(0)))).unwrap().unwrap();
    assert_eq!(output.stdout, strings(&["a", "b"]));
    assert_eq!(output.stderr, strings(&["c"]));
    match try_map_result(Some(captured("a\n", "", Some(7)))) {
        Some(Err(FlipsError::OperationFailed { output: Some(output), exit_code })) => {
            assert_eq!(exit_code, Some(7));
            assert_eq!(output.stdout, strings(&["a"]));
            assert!(output.stderr.is_empty());
        }
        other => panic!("expected OperationFailed, got {:?}", other),
    }
    match try_map_result(None) {
        Some(Err(FlipsError::OperationFailed { output: None, exit_code: None })) => {}
        other => panic!("expected OperationFailed with nothing, got {:?}", other),
    }
}

#[test]
fn try_map_result_refuses_what_is_not_utf8() {
    let bad_stdout =
        Captured { stdout: vec![0x66, 0xff, 0x0a], stderr: vec![], exit_code: Some(0) };
    assert!(try_map_result(Some(bad_stdout)).is_none());
    let bad_stderr = Captured { stdout: vec![], stderr: vec![0xc3], exit_code: Some(1) };
    assert!(try_map_result(Some(bad_stderr)).is_none());
    let overlong = Captured { stdout: vec![0xc0, 0x8a], stderr: vec![], exit_code: Some(0) };
    assert!(try_map_result(Some(overlong)).is_none());
    let surrogate = Captured { stdout: vec![0xed, 0xa0, 0x80], stderr: vec![], exit_code: None };
    assert!(try_map_result(Some(surrogate)).is_none());
}
