use wazuh_agent_installer::command::Platform;
use wazuh_agent_installer::enroll::{
    enroll_command, enroll_input, enroll_line, enroll_spawned, enroll_stdout_line, enroll_waited,
    input_flushed, input_written, is_code_prompt, is_failure_report, EnrollSession, EnrollStep,
    InputSlot, InputStep,
};
use wazuh_agent_installer::outcome::{Emission, ExitReport};
use wazuh_agent_installer::LogLine;

const CLIENT: &str = "/var/ossec/bin/wazuh-cert-oauth2-client";
const PROMPTS: [&str; 4] = [
    "Please open this URL in your browser: https://idp",
    ">> Please copy this code",
    "and paste it into your application.",
    "Enter the code:",
];

fn log(line: &str, level: &str) -> Emission {
    Emission::EnrollLog(LogLine { line: line.to_string(), level: level.to_string() })
}

#[test]
fn unix_runs_the_client_through_sudo() {
    let command =
        enroll_command(Platform::Unix, "https://i".to_string(), "https://e".to_string(), true);
    assert_eq!(command.program, "sudo");
    assert_eq!(
        command.args,
        vec![
            CLIENT, "o-auth2", "--issuer", "https://i", "--endpoint", "https://e", "--overwrite"
        ]
    );
    assert!(command.env.is_empty());
    assert!(command.pipe_stdin);
}

#[test]
fn windows_runs_the_client_itself() {
    let command =
        enroll_command(Platform::Windows, "https://i".to_string(), "https://e".to_string(), false);
    assert_eq!(command.program, CLIENT);
    assert_eq!(command.args, vec!["o-auth2", "--issuer", "https://i", "--endpoint", "https://e"]);
    assert!(command.env.is_empty());
    assert!(command.pipe_stdin);
}

#[test]
fn failures_of_the_client_are_reported() {
    assert_eq!(enroll_spawned(Ok(())), EnrollStep::Stream);
    assert_eq!(
        enroll_spawned(Err("not found".to_string())),
        EnrollStep::Fail("Failed to start enrollment: not found".to_string())
    );
    let report = ExitReport { code: None, success: false };
    assert_eq!(enroll_waited(Ok(report)), EnrollStep::Drain(report));
    assert_eq!(
        enroll_waited(Err("no child".to_string())),
        EnrollStep::Fail("Enrollment process error: no child".to_string())
    );
}

#[test]
fn prompts_ask_for_the_code() {
    for line in PROMPTS {
        assert!(is_code_prompt(line));
        let expected = vec![log(line, "success"), Emission::EnrollNeedsCode(true)];
        assert_eq!(enroll_stdout_line(line.to_string()), expected);
        assert_eq!(EnrollSession::new().stderr_line(line.to_string()), expected);
    }
    assert!(!is_code_prompt("enter the code"));
    assert!(!is_code_prompt(""));
    assert_eq!(log("", "info").event(), "enroll-log");
    assert_eq!(Emission::EnrollNeedsCode(true).event(), "enroll-needs-code");
}

#[test]
fn other_lines_are_shown_with_their_level() {
    assert_eq!(
        enroll_stdout_line("Registration COMPLETED".to_string()),
        vec![log("Registration COMPLETED", "success")]
    );
    assert_eq!(enroll_stdout_line("hello".to_string()), vec![log("hello", "info")]);
    assert_eq!(enroll_line("hello".to_string(), "error"), vec![log("hello", "error")]);
    assert_eq!(
        EnrollSession::new().stderr_line("Registration COMPLETED".to_string()),
        vec![log("Registration COMPLETED", "error")]
    );
}

#[test]
fn prompt_that_tells_of_an_error_is_both() {
    let mut session = EnrollSession::new();
    let shown = session.stderr_line("Error. Enter the code".to_string());
    assert_eq!(
        shown,
        vec![log("Error. Enter the code", "success"), Emission::EnrollNeedsCode(true)]
    );
    assert!(session.had_error);
}

#[test]
fn failure_on_the_error_stream_is_remembered() {
    for line in ["ERROR timeout", "an Error", "invalid_grant"] {
        let mut session = EnrollSession::new();
        session.stderr_line("starting".to_string());
        assert!(!session.had_error);
        session.stderr_line(line.to_string());
        assert!(session.had_error);
        session.stderr_line("goodbye".to_string());
        assert!(session.had_error);
        let result = session.finished(ExitReport { code: Some(0), success: true });
        assert!(!result.success);
    }
    let mut session = EnrollSession::new();
    session.stderr_line("INVALID_GRANT".to_string());
    assert!(!session.had_error);
}

#[test]
fn failure_reports_look_at_both_forms() {
    assert!(is_failure_report("ERROR", "error"));
    assert!(!is_failure_report("ERROR", "ERROR"));
    assert!(is_failure_report("invalid_grant", ""));
    assert!(!is_failure_report("", "invalid_grant"));
}

#[test]
fn enrollment_ends_well() {
    let mut session = EnrollSession::new();
    session.stderr_line("warning: slow".to_string());
    let result = session.finished(ExitReport { code: Some(0), success: true });
    assert!(result.success);
    assert_eq!(result.exit_code, 0);
    assert_eq!(result.message, "Agent enrolled successfully!");
}

#[test]
fn enrollment_ends_badly() {
    let result = EnrollSession::new().finished(ExitReport { code: Some(3), success: false });
    assert!(!result.success);
    assert_eq!(result.exit_code, 3);
    assert_eq!(result.message, "Enrollment failed — check the log above for details");
    let result = EnrollSession::new().finished(ExitReport { code: None, success: false });
    assert_eq!(result.exit_code, -1);
}

fn held() -> InputSlot<u8> {
    let mut slot: InputSlot<u8> = InputSlot::new();
    slot.keep(Some(7));
    slot
}

fn refused() -> InputStep {
    InputStep::Fail("No active enrollment process".to_string())
}

#[test]
fn code_is_sent_as_a_line() {
    let slot = held();
    assert_eq!(enroll_input(&slot, "abc"), InputStep::Write("abc\n".to_string()));
    assert_eq!(enroll_input(&slot, " \tab c\r\n"), InputStep::Write("ab c\n".to_string()));
    assert_eq!(enroll_input(&slot, "\u{2003}abc\u{3000}"), InputStep::Write("abc\n".to_string()));
    assert_eq!(enroll_input(&slot, "  "), InputStep::Write("\n".to_string()));
}

#[test]
fn code_needs_a_client() {
    let mut slot: InputSlot<u8> = InputSlot::new();
    assert!(!slot.is_held());
    assert_eq!(enroll_input(&slot, "abc"), refused());
    assert_eq!(enroll_input(&slot, ""), refused());
    slot.keep(Some(7));
    assert!(slot.is_held());
    assert_eq!(slot.stream, Some(7));
    assert_eq!(enroll_input(&slot, "abc"), InputStep::Write("abc\n".to_string()));
    slot.empty();
    assert!(!slot.is_held());
    assert_eq!(enroll_input(&slot, "abc"), refused());
    slot.keep(None);
    assert_eq!(enroll_input(&slot, "abc"), refused());
}

#[test]
fn both_streams_emit_in_order() {
    let mut session = EnrollSession::new();
    let mut emitted: Vec<Emission> = vec![];
    emitted.extend(enroll_stdout_line("hello".to_string()));
    emitted.extend(session.stderr_line("Enter the code".to_string()));
    emitted.extend(enroll_stdout_line("Please copy this code".to_string()));
    emitted.extend(session.stderr_line("error".to_string()));
    assert_eq!(
        emitted,
        vec![
            log("hello", "info"),
            log("Enter the code", "success"),
            Emission::EnrollNeedsCode(true),
            log("Please copy this code", "success"),
            Emission::EnrollNeedsCode(true),
            log("error", "error"),
        ]
    );
    assert!(session.had_error);
}

#[test]
fn failures_to_send_are_reported() {
    assert_eq!(input_written(Ok(())), InputStep::Flush);
    assert_eq!(
        input_written(Err("broken pipe".to_string())),
        InputStep::Fail("Failed to send code: broken pipe".to_string())
    );
    assert_eq!(input_flushed(Ok(())), Ok(()));
    assert_eq!(
        input_flushed(Err("broken pipe".to_string())),
        Err("Failed to flush stdin: broken pipe".to_string())
    );
}
