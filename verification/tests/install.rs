use wazuh_agent_installer::command::{CommandLine, Platform};
use wazuh_agent_installer::install::{
    install_begun, install_command, install_finished, install_result, install_spawned,
    install_stderr_line, install_stdout_line, install_waited, script_args, script_resolved,
    InstallStep,
};
use wazuh_agent_installer::outcome::{Emission, ExitReport};
use wazuh_agent_installer::{InstallConfig, InstallResult, LogLine};

fn config() -> InstallConfig {
    InstallConfig {
        wazuh_manager: "wazuh.example.com".to_string(),
        wazuh_agent_version: "4.12.0-1".to_string(),
        wazuh_agent_name: "laptop".to_string(),
        ids_engine: "suricata".to_string(),
        suricata_mode: "ips".to_string(),
        install_trivy: true,
        log_level: "DEBUG".to_string(),
    }
}

fn strings(texts: &[&str]) -> Vec<String> {
    texts.iter().map(|text| text.to_string()).collect()
}

fn unix_command(script: &str) -> CommandLine {
    CommandLine {
        program: "pkexec".to_string(),
        args: strings(&[
            "env",
            "WAZUH_MANAGER=wazuh.example.com",
            "WAZUH_AGENT_VERSION=4.12.0-1",
            "WAZUH_AGENT_NAME=laptop",
            "LOG_LEVEL=DEBUG",
            "bash",
            script,
            "-s",
            "ips",
            "-t",
        ]),
        env: vec![],
        pipe_stdin: false,
    }
}

#[test]
fn options_follow_the_configuration() {
    assert_eq!(script_args(&config()), strings(&["-s", "ips", "-t"]));
    let no_mode = InstallConfig { suricata_mode: String::new(), install_trivy: false, ..config() };
    assert_eq!(script_args(&no_mode), strings(&["-s", "ids"]));
    let snort = InstallConfig { ids_engine: "snort".to_string(), ..config() };
    assert_eq!(script_args(&snort), strings(&["-n", "-t"]));
    let none = InstallConfig { ids_engine: "zeek".to_string(), install_trivy: false, ..config() };
    assert_eq!(script_args(&none), strings(&[]));
}

#[test]
fn unix_runs_the_script_through_pkexec() {
    let command = install_command(Platform::Unix, &config(), "/opt/setup-agent.sh".to_string());
    assert_eq!(command, unix_command("/opt/setup-agent.sh"));
}

#[test]
fn windows_runs_the_script_through_bash() {
    let command = install_command(Platform::Windows, &config(), "setup-agent.sh".to_string());
    assert_eq!(command.program, "bash");
    assert_eq!(command.args, strings(&["setup-agent.sh", "-s", "ips", "-t"]));
    let env: Vec<(&str, &str)> =
        command.env.iter().map(|(name, value)| (name.as_str(), value.as_str())).collect();
    assert_eq!(
        env,
        vec![
            ("WAZUH_MANAGER", "wazuh.example.com"),
            ("WAZUH_AGENT_VERSION", "4.12.0-1"),
            ("WAZUH_AGENT_NAME", "laptop"),
            ("LOG_LEVEL", "DEBUG"),
        ]
    );
    assert!(!command.pipe_stdin);
}

#[test]
fn platforms_hand_over_the_same() {
    let unix = install_command(Platform::Unix, &config(), "s.sh".to_string());
    let windows = install_command(Platform::Windows, &config(), "s.sh".to_string());
    let mut expected: Vec<String> = strings(&["env"]);
    for (name, value) in &windows.env {
        expected.push(format!("{name}={value}"));
    }
    expected.push(windows.program);
    expected.extend(windows.args);
    assert_eq!(unix.args, expected);
}

#[test]
fn named_script_is_run() {
    let step = install_begun(Platform::Unix, &config(), Some("/home/me/own.sh".to_string()));
    assert_eq!(step, InstallStep::Spawn(unix_command("/home/me/own.sh")));
}

#[test]
fn bundled_script_is_looked_for_without_a_name() {
    assert_eq!(install_begun(Platform::Unix, &config(), None), InstallStep::ResolveScript);
    assert_eq!(
        install_begun(Platform::Unix, &config(), Some(String::new())),
        InstallStep::ResolveScript
    );
}

#[test]
fn bundled_script_is_run() {
    let step = script_resolved(Platform::Unix, &config(), Ok("/usr/lib/setup-agent.sh".to_string()));
    assert_eq!(step, InstallStep::Spawn(unix_command("/usr/lib/setup-agent.sh")));
    let step = script_resolved(Platform::Unix, &config(), Err("no script".to_string()));
    assert_eq!(step, InstallStep::Fail("no script".to_string()));
}

#[test]
fn failures_of_the_process_are_reported() {
    assert_eq!(install_spawned(Ok(())), InstallStep::Stream);
    assert_eq!(
        install_spawned(Err("not found".to_string())),
        InstallStep::Fail("Failed to spawn process: not found".to_string())
    );
    let report = ExitReport { code: Some(0), success: true };
    assert_eq!(install_waited(Ok(report)), InstallStep::Drain(report));
    assert_eq!(
        install_waited(Err("no child".to_string())),
        InstallStep::Fail("Failed to wait for process: no child".to_string())
    );
}

#[test]
fn lines_are_shown_with_their_level() {
    let shown = install_stdout_line("[ERROR] Disk full".to_string());
    assert_eq!(shown.event(), "install-log");
    assert_eq!(
        shown,
        Emission::InstallLog(LogLine {
            line: "[ERROR] Disk full".to_string(),
            level: "error".to_string(),
        })
    );
    assert_eq!(
        install_stdout_line("Unpacking".to_string()),
        Emission::InstallLog(LogLine { line: "Unpacking".to_string(), level: "info".to_string() })
    );
    assert_eq!(
        install_stderr_line("completed".to_string()),
        Emission::InstallLog(LogLine { line: "completed".to_string(), level: "error".to_string() })
    );
}

#[test]
fn result_tells_the_end() {
    let result = install_result(ExitReport { code: Some(0), success: true });
    assert!(result.success);
    assert_eq!(result.exit_code, 0);
    assert_eq!(result.message, "Wazuh Agent installed successfully!");
    let result = install_result(ExitReport { code: Some(126), success: false });
    assert!(!result.success);
    assert_eq!(result.exit_code, 126);
    assert_eq!(result.message, "Installation failed with exit code 126");
    let result = install_result(ExitReport { code: None, success: false });
    assert_eq!(result.exit_code, -1);
    assert_eq!(result.message, "Installation failed with exit code -1");
}

#[test]
fn end_is_announced_and_returned() {
    let (announced, returned) = install_finished(ExitReport { code: Some(2), success: false });
    assert_eq!(
        returned,
        InstallResult {
            success: false,
            exit_code: 2,
            message: "Installation failed with exit code 2".to_string(),
        }
    );
    assert_eq!(announced.event(), "install-done");
    assert_eq!(announced, Emission::InstallDone(returned));
}

/// A course whose script prints one line to each stream: what it emits and what it returns.
fn course(
    spawned: Result<(), String>,
    waited: Result<ExitReport, String>,
) -> (Vec<Emission>, Result<InstallResult, String>) {
    let mut emitted: Vec<Emission> = vec![];
    let mut spawned = Some(spawned);
    let mut waited = Some(waited);
    let mut step = install_begun(Platform::Unix, &config(), Some("s.sh".to_string()));
    loop {
        step = match step {
            InstallStep::ResolveScript => unreachable!(),
            InstallStep::Spawn(_) => install_spawned(spawned.take().unwrap()),
            InstallStep::Stream => {
                emitted.push(install_stdout_line("Unpacking".to_string()));
                install_waited(waited.take().unwrap())
            }
            InstallStep::Drain(report) => {
                emitted.push(install_stderr_line("late".to_string()));
                let (announced, returned) = install_finished(report);
                emitted.push(announced);
                return (emitted, Ok(returned));
            }
            InstallStep::Fail(error) => return (emitted, Err(error)),
        };
    }
}

#[test]
fn end_is_announced_once_behind_the_lines() {
    let (emitted, returned) = course(Ok(()), Ok(ExitReport { code: Some(0), success: true }));
    let events: Vec<&str> = emitted.iter().map(|emission| emission.event()).collect();
    assert_eq!(events, vec!["install-log", "install-log", "install-done"]);
    assert_eq!(emitted[2], Emission::InstallDone(returned.unwrap()));
}

#[test]
fn failed_course_announces_nothing() {
    let (emitted, returned) = course(Ok(()), Err("no child".to_string()));
    let events: Vec<&str> = emitted.iter().map(|emission| emission.event()).collect();
    assert_eq!(events, vec!["install-log"]);
    assert_eq!(returned, Err("Failed to wait for process: no child".to_string()));
    let report = ExitReport { code: Some(0), success: true };
    let (emitted, returned) = course(Err("not found".to_string()), Ok(report));
    assert!(emitted.is_empty());
    assert_eq!(returned, Err("Failed to spawn process: not found".to_string()));
}
