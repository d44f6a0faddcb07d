use bc::{classify_output, BCError, CapturedOutput};

fn chars(s: &str) -> Vec<char> {
    s.chars().collect()
}

#[test]
fn empty_streams_classify_as_no_result() {
    let run = CapturedOutput { status_code: Some(0), stdout: Vec::new(), stderr: Vec::new() };
    assert!(matches!(classify_output(run, false), Err(BCError::NoResult)));
}

#[test]
fn stderr_wins_over_stdout() {
    let run = CapturedOutput {
        status_code: Some(0),
        stdout: chars("partial\n"),
        stderr: chars("error text\n"),
    };
    match classify_output(run, false) {
        Err(BCError::Error(text)) => assert_eq!(text, "error text"),
        other => panic!("expected a tool-reported error, got {:?}", other),
    }
}

#[test]
fn timeout_status_wins_over_all_content() {
    let run = CapturedOutput {
        status_code: Some(124),
        stdout: chars("partial\n"),
        stderr: chars("noise\n"),
    };
    assert!(matches!(classify_output(run, true), Err(BCError::Timeout)));
}

#[test]
fn timeout_status_ignored_without_supervisor() {
    let run = CapturedOutput { status_code: Some(124), stdout: chars("8\n"), stderr: Vec::new() };
    match classify_output(run, false) {
        Ok(s) => assert_eq!(s, "8"),
        other => panic!("expected a success, got {:?}", other),
    }
}

#[test]
fn success_normalizes_stdout() {
    let run = CapturedOutput {
        status_code: Some(0),
        stdout: chars("123\\\n456\n"),
        stderr: Vec::new(),
    };
    assert_eq!(classify_output(run, true).unwrap(), "123456");
}

#[test]
fn error_payload_is_normalized() {
    let run = CapturedOutput {
        status_code: Some(1),
        stdout: Vec::new(),
        stderr: chars("broken\\\nstatement\n"),
    };
    match classify_output(run, false) {
        Err(BCError::Error(text)) => assert_eq!(text, "brokenstatement"),
        other => panic!("expected a tool-reported error, got {:?}", other),
    }
}

#[test]
fn failure_messages() {
    assert_eq!(BCError::NoResult.message(), "There is no result of BC.");
    assert_eq!(BCError::Timeout.message(), "The BC calculation has timed out.");
    assert_eq!(BCError::Error("oops".to_string()).message(), "oops");
}
