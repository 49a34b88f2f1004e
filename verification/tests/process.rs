use rust_core::extract_midi_via_tool;
use rust_core::outcome_envelope;
use rust_core::process::classify_run;
use rust_core::process::exit_failure_message;
use rust_core::process::key_value_argument;
use rust_core::process::plan_invocation;
use rust_core::process::ProcessOutcome;
use rust_core::process::ToolLocation;
use rust_core::process::ToolRun;
use rust_core::relay_tool_run;
use rust_core::separate_stems_via_tool;
use rust_core::status::StatusCode;
use rust_core::ToolStep;

fn location(tool_exists: bool, script_exists: bool) -> ToolLocation {
    ToolLocation {
        tool_path: "/opt/tools/python3".to_string(),
        tool_exists,
        script_path: "/opt/tools/stems.py".to_string(),
        script_exists,
    }
}

#[test]
fn key_and_value_make_one_argument() {
    assert_eq!(key_value_argument("input_path", "/a b/c.wav"), "input_path=/a b/c.wav");
    assert_eq!(key_value_argument("k", ""), "k=");
}

#[test]
fn invocation_is_script_subcommand_then_pairs() {
    let pairs = vec![
        ("input_path".to_string(), "in.wav".to_string()),
        ("output_dir".to_string(), "out dir; rm -rf /".to_string()),
    ];
    match plan_invocation(&location(true, true), "separate_stems", &pairs) {
        Ok(command) => {
            assert_eq!(command.program, "/opt/tools/python3");
            assert_eq!(
                command.arguments,
                vec![
                    "/opt/tools/stems.py",
                    "separate_stems",
                    "input_path=in.wav",
                    "output_dir=out dir; rm -rf /",
                ]
            );
        }
        Err(_) => panic!("a present tool was not planned"),
    }
}

#[test]
fn invocation_without_pairs_has_two_arguments() {
    match plan_invocation(&location(true, true), "version", &Vec::new()) {
        Ok(command) => assert_eq!(command.arguments, vec!["/opt/tools/stems.py", "version"]),
        Err(_) => panic!("a present tool was not planned"),
    }
}

#[test]
fn a_missing_tool_is_a_missing_file() {
    match plan_invocation(&location(false, true), "separate_stems", &Vec::new()) {
        Err(ProcessOutcome::Failed { status, message }) => {
            assert_eq!(status, StatusCode::FileNotFound);
            assert_eq!(message, "External tool not found: /opt/tools/python3");
        }
        _ => panic!("a missing tool was planned"),
    }
}

#[test]
fn a_missing_script_is_a_missing_file() {
    match plan_invocation(&location(true, false), "separate_stems", &Vec::new()) {
        Err(ProcessOutcome::Failed { status, message }) => {
            assert_eq!(status, StatusCode::FileNotFound);
            assert_eq!(message, "Tool script not found: /opt/tools/stems.py");
        }
        _ => panic!("a missing script was planned"),
    }
}

#[test]
fn the_tool_is_looked_for_before_the_script() {
    match plan_invocation(&location(false, false), "separate_stems", &Vec::new()) {
        Err(ProcessOutcome::Failed { message, .. }) => {
            assert_eq!(message, "External tool not found: /opt/tools/python3");
        }
        _ => panic!("a missing tool was planned"),
    }
}

#[test]
fn exit_failure_message_names_exit_and_both_streams() {
    assert_eq!(
        exit_failure_message(Some(2), "partial", "Traceback"),
        "External tool failed with exit code 2. stdout: partial stderr: Traceback"
    );
    assert_eq!(
        exit_failure_message(Some(-1), "", ""),
        "External tool failed with exit code -1. stdout:  stderr: "
    );
    assert_eq!(
        exit_failure_message(None, "o", "e"),
        "External tool failed with no exit code. stdout: o stderr: e"
    );
}

#[test]
fn a_spawn_failure_is_a_processing_failure() {
    match classify_run(ToolRun::SpawnFailed("permission denied".to_string())) {
        ProcessOutcome::Failed { status, message } => {
            assert_eq!(status, StatusCode::ProcessingFailed);
            assert_eq!(message, "Failed to start external tool: permission denied");
        }
        ProcessOutcome::Completed(_) => panic!("a spawn failure completed"),
    }
}

#[test]
fn a_nonzero_exit_is_a_processing_failure() {
    let run = ToolRun::Exited {
        code: Some(3),
        stdout: b"{\"status\":\"ok\"}".to_vec(),
        stderr: b"boom".to_vec(),
    };
    match classify_run(run) {
        ProcessOutcome::Failed { status, message } => {
            assert_eq!(status, StatusCode::ProcessingFailed);
            assert_eq!(
                message,
                "External tool failed with exit code 3. stdout: {\"status\":\"ok\"} stderr: boom"
            );
        }
        ProcessOutcome::Completed(_) => panic!("a failed exit completed"),
    }
}

#[test]
fn an_exit_without_code_is_a_processing_failure() {
    let run = ToolRun::Exited { code: None, stdout: Vec::new(), stderr: Vec::new() };
    match classify_run(run) {
        ProcessOutcome::Failed { status, message } => {
            assert_eq!(status, StatusCode::ProcessingFailed);
            assert_eq!(message, "External tool failed with no exit code. stdout:  stderr: ");
        }
        ProcessOutcome::Completed(_) => panic!("a killed process completed"),
    }
}

#[test]
fn ill_formed_output_is_read_with_replacements() {
    let run = ToolRun::Exited { code: Some(1), stdout: vec![0x61, 0xff, 0x62], stderr: Vec::new() };
    match classify_run(run) {
        ProcessOutcome::Failed { message, .. } => {
            assert_eq!(
                message,
                "External tool failed with exit code 1. stdout: a\u{fffd}b stderr: "
            );
        }
        ProcessOutcome::Completed(_) => panic!("a failed exit completed"),
    }
}

#[test]
fn a_zero_exit_completes_with_the_output_untouched() {
    let run = ToolRun::Exited {
        code: Some(0),
        stdout: vec![0x7b, 0xff, 0x7d, 0x0a],
        stderr: b"warnings are ignored".to_vec(),
    };
    match classify_run(run) {
        ProcessOutcome::Completed(payload) => assert_eq!(payload, vec![0x7b, 0xff, 0x7d, 0x0a]),
        ProcessOutcome::Failed { .. } => panic!("a zero exit failed"),
    }
}

#[test]
fn an_error_payload_of_a_zero_exit_is_relayed_verbatim() {
    let payload = b"{\"status\":\"error\",\"error\":\"x\"}";
    let run = ToolRun::Exited { code: Some(0), stdout: payload.to_vec(), stderr: Vec::new() };
    assert_eq!(relay_tool_run(run).as_bytes(), payload);
}

#[test]
fn a_failed_run_is_relayed_as_a_failure_envelope() {
    let run = ToolRun::Exited { code: Some(1), stdout: b"out".to_vec(), stderr: b"\"err\"".to_vec() };
    assert_eq!(
        relay_tool_run(run).as_bytes(),
        &b"{\"status\":\"error\",\"error\":\"External tool failed with exit code 1. stdout: out stderr: \\\"err\\\"\",\"result\":null}"[..]
    );
    let run = ToolRun::SpawnFailed("No such file or directory (os error 2)".to_string());
    assert_eq!(
        relay_tool_run(run).as_bytes(),
        &b"{\"status\":\"error\",\"error\":\"Failed to start external tool: No such file or directory (os error 2)\",\"result\":null}"[..]
    );
}

#[test]
fn a_payload_with_a_terminator_gives_the_fallback_envelope() {
    let outcome = ProcessOutcome::Completed(b"{\"a\":\"\0\"}".to_vec());
    assert_eq!(
        outcome_envelope(&outcome).as_bytes(),
        &b"{\"status\":\"error\",\"error\":\"Internal error: envelope could not be encoded.\",\"result\":null}"[..]
    );
}

#[test]
fn a_missing_tool_is_answered_with_an_error_envelope() {
    let step = separate_stems_via_tool(&location(false, true), Some(b"in.wav"), Some(b"out"));
    match step {
        ToolStep::Reply(envelope) => {
            let text = String::from_utf8(envelope.as_bytes().to_vec()).unwrap();
            assert_eq!(
                text,
                "{\"status\":\"error\",\"error\":\"External tool not found: /opt/tools/python3\",\"result\":null}"
            );
            assert!(text.contains("\"status\":\"error\""));
            assert!(text.contains("/opt/tools/python3"));
            assert!(!text.contains("\"status\":\"ok\""));
        }
        ToolStep::Run(_) => panic!("a missing tool was to be run"),
    }
}

#[test]
fn a_missing_script_is_answered_with_an_error_envelope() {
    let step = extract_midi_via_tool(&location(true, false), Some(b"in.wav"), Some(b"out.mid"));
    match step {
        ToolStep::Reply(envelope) => assert_eq!(
            envelope.as_bytes(),
            &b"{\"status\":\"error\",\"error\":\"Tool script not found: /opt/tools/stems.py\",\"result\":null}"[..]
        ),
        ToolStep::Run(_) => panic!("a missing script was to be run"),
    }
}

#[test]
fn stem_separation_runs_the_tool_with_input_and_output_dir() {
    let step = separate_stems_via_tool(&location(true, true), Some(b"song.wav"), Some(b"stems"));
    match step {
        ToolStep::Run(command) => {
            assert_eq!(command.program, "/opt/tools/python3");
            assert_eq!(
                command.arguments,
                vec![
                    "/opt/tools/stems.py",
                    "separate_stems",
                    "input_path=song.wav",
                    "output_dir=stems",
                ]
            );
        }
        ToolStep::Reply(_) => panic!("a valid request was answered at once"),
    }
}

#[test]
fn midi_extraction_runs_the_tool_with_input_and_output_path() {
    let step = extract_midi_via_tool(&location(true, true), Some(b"song.wav"), Some(b"song.mid"));
    match step {
        ToolStep::Run(command) => {
            assert_eq!(
                command.arguments,
                vec![
                    "/opt/tools/stems.py",
                    "extract_midi",
                    "input_path=song.wav",
                    "output_path=song.mid",
                ]
            );
        }
        ToolStep::Reply(_) => panic!("a valid request was answered at once"),
    }
}

#[test]
fn an_absent_argument_is_answered_with_an_error_envelope() {
    let step = separate_stems_via_tool(&location(true, true), None, Some(b"stems"));
    match step {
        ToolStep::Reply(envelope) => assert_eq!(
            envelope.as_bytes(),
            &b"{\"status\":\"error\",\"error\":\"Argument input_path was null.\",\"result\":null}"[..]
        ),
        ToolStep::Run(_) => panic!("an absent argument was accepted"),
    }
    let step = extract_midi_via_tool(&location(true, true), Some(b"a.wav"), None);
    match step {
        ToolStep::Reply(envelope) => assert_eq!(
            envelope.as_bytes(),
            &b"{\"status\":\"error\",\"error\":\"Argument output_path was null.\",\"result\":null}"[..]
        ),
        ToolStep::Run(_) => panic!("an absent argument was accepted"),
    }
}

#[test]
fn an_argument_that_is_not_text_is_answered_with_an_error_envelope() {
    let step = separate_stems_via_tool(&location(true, true), Some(b"a.wav"), Some(&[0xc3, 0x28]));
    match step {
        ToolStep::Reply(envelope) => assert_eq!(
            envelope.as_bytes(),
            &b"{\"status\":\"error\",\"error\":\"Failed to convert argument output_dir to a valid UTF-8 string.\",\"result\":null}"[..]
        ),
        ToolStep::Run(_) => panic!("ill-formed text was accepted"),
    }
}

#[test]
fn arguments_are_checked_before_the_tool_is_looked_for() {
    let step = separate_stems_via_tool(&location(false, false), None, None);
    match step {
        ToolStep::Reply(envelope) => assert_eq!(
            envelope.as_bytes(),
            &b"{\"status\":\"error\",\"error\":\"Argument input_path was null.\",\"result\":null}"[..]
        ),
        ToolStep::Run(_) => panic!("an absent argument was accepted"),
    }
}
