//! The course of an installation: which script runs, under which command, what is shown of its
//! output and what its end means.
//!
//! The outside work (finding the bundled script, starting the process, waiting for it) is done
//! by the caller, one [`InstallStep`] at a time, and its outcome handed back here.

use crate::command::{CommandLine, CommandLineView, Platform};
use crate::config::{self, InstallConfig};
use crate::log::{self, LogLine, LogLineView, OutputLine};
use crate::outcome::{self, Emission, EmissionView, ExitReport, InstallResult, InstallResultView};
use crate::script::{self, ScriptReplies};
use crate::text;
use vstd::prelude::*;

verus! {

/// The options that pick the intrusion detection engine. Suricata runs in mode "ids" where no
/// mode is given.
pub open spec fn engine_args_of(config: InstallConfig) -> Seq<Seq<char>> {
    if config.ids_engine@ == "suricata"@ {
        seq![
            "-s"@,
            if config.suricata_mode@.len() == 0 {
                "ids"@
            } else {
                config.suricata_mode@
            },
        ]
    } else if config.ids_engine@ == "snort"@ {
        seq!["-n"@]
    } else {
        seq![]
    }
}

/// The options that the setup script is run with.
pub open spec fn script_args_of(config: InstallConfig) -> Seq<Seq<char>> {
    engine_args_of(config) + if config.install_trivy {
        seq!["-t"@]
    } else {
        seq![]
    }
}

/// The options that the setup script is run with.
pub fn script_args(config: &InstallConfig) -> (args: Vec<String>)
    ensures
        args.deep_view() == script_args_of(*config),
{
    let mut args: Vec<String> = Vec::new();
    if text::same(config.ids_engine.as_str(), "suricata") {
        args.push("-s".to_string());
        let mode: String = if config.suricata_mode.as_str().is_empty() {
            "ids".to_string()
        } else {
            config.suricata_mode.clone()
        };
        args.push(mode);
    } else if text::same(config.ids_engine.as_str(), "snort") {
        args.push("-n".to_string());
    }
    assert(args.deep_view() =~= engine_args_of(*config));
    if config.install_trivy {
        args.push("-t".to_string());
    }
    assert(args.deep_view() =~= script_args_of(*config));
    args
}

/// The variables through which the setup script learns of the configuration.
pub open spec fn env_of(config: InstallConfig) -> Seq<(Seq<char>, Seq<char>)> {
    seq![
        ("WAZUH_MANAGER"@, config.wazuh_manager@),
        ("WAZUH_AGENT_VERSION"@, config.wazuh_agent_version@),
        ("WAZUH_AGENT_NAME"@, config.wazuh_agent_name@),
        ("LOG_LEVEL"@, config.log_level@),
    ]
}

fn script_env(config: &InstallConfig) -> (env: Vec<(String, String)>)
    ensures
        env.deep_view() == env_of(*config),
{
    let mut env: Vec<(String, String)> = Vec::new();
    env.push(("WAZUH_MANAGER".to_string(), config.wazuh_manager.clone()));
    env.push(("WAZUH_AGENT_VERSION".to_string(), config.wazuh_agent_version.clone()));
    env.push(("WAZUH_AGENT_NAME".to_string(), config.wazuh_agent_name.clone()));
    env.push(("LOG_LEVEL".to_string(), config.log_level.clone()));
    assert(env.deep_view() =~= env_of(*config));
    env
}

/// A variable and its value, as the program `env` takes them.
pub open spec fn assignment(variable: (Seq<char>, Seq<char>)) -> Seq<char> {
    variable.0 + "="@ + variable.1
}

/// Variables and their values, as the program `env` takes them.
pub open spec fn assignments(env: Seq<(Seq<char>, Seq<char>)>) -> Seq<Seq<char>> {
    env.map_values(|variable: (Seq<char>, Seq<char>)| assignment(variable))
}

fn assignment_texts(env: &Vec<(String, String)>) -> (texts: Vec<String>)
    ensures
        texts.deep_view() == assignments(env.deep_view()),
{
    let mut texts: Vec<String> = Vec::new();
    let mut k: usize = 0;
    while k < env.len()
        invariant
            k <= env@.len(),
            texts@.len() == k,
            forall|j: int|
                0 <= j < k ==> #[trigger] texts@[j]@ == assignment(env.deep_view()[j]),
        decreases env@.len() - k,
    {
        let name: String = text::joined(env[k].0.as_str(), "=");
        texts.push(text::joined(name.as_str(), env[k].1.as_str()));
        k += 1;
    }
    assert(texts.deep_view() =~= assignments(env.deep_view()));
    texts
}

/// The command that runs the setup script. On Unix it asks for privileges through `pkexec`, and
/// the variables are set behind it, by `env`; on Windows the script asks for itself.
pub open spec fn command_of(
    platform: Platform,
    config: InstallConfig,
    script: Seq<char>,
) -> CommandLineView {
    match platform {
        Platform::Unix => CommandLineView {
            program: "pkexec"@,
            args: seq!["env"@] + assignments(env_of(config)) + seq!["bash"@, script]
                + script_args_of(config),
            env: seq![],
            pipe_stdin: false,
        },
        Platform::Windows => CommandLineView {
            program: "bash"@,
            args: seq![script] + script_args_of(config),
            env: env_of(config),
            pipe_stdin: false,
        },
    }
}

/// The command that runs the setup script.
pub fn install_command(platform: Platform, config: &InstallConfig, script: String) -> (command:
    CommandLine)
    ensures
        command@ == command_of(platform, *config, script@),
{
    let mut args: Vec<String> = Vec::new();
    let env: Vec<(String, String)> = script_env(config);
    let mut options: Vec<String> = script_args(config);
    let ghost script_text = script@;
    match platform {
        Platform::Unix => {
            let mut variables: Vec<String> = assignment_texts(&env);
            args.push("env".to_string());
            args.append(&mut variables);
            args.push("bash".to_string());
            args.push(script);
            let ghost head = args.deep_view();
            assert(head =~= seq!["env"@] + assignments(env_of(*config)) + seq![
                "bash"@,
                script_text,
            ]);
            args.append(&mut options);
            assert(args.deep_view() =~= head + script_args_of(*config));
            CommandLine {
                program: "pkexec".to_string(),
                args,
                env: Vec::new(),
                pipe_stdin: false,
            }
        },
        Platform::Windows => {
            args.push(script);
            args.append(&mut options);
            assert(args.deep_view() =~= seq![script_text] + script_args_of(*config));
            CommandLine { program: "bash".to_string(), args, env, pipe_stdin: false }
        },
    }
}

/// What the caller does next in an installation.
#[derive(Debug, PartialEq, Eq)]
pub enum InstallStep {
    /// Find the bundled script, then [`script_resolved`].
    ResolveScript,
    /// Start the command, then [`install_spawned`].
    Spawn(CommandLine),
    /// Hand each line of output to [`install_stdout_line`] and each line of errors to
    /// [`install_stderr_line`], and wait for the process, then [`install_waited`].
    Stream,
    /// Hand over the lines that are left, then [`install_finished`].
    Drain(ExitReport),
    /// Give up with this error.
    Fail(String),
}

/// The model of an [`InstallStep`].
#[verifier::ext_equal]
pub enum InstallStepView {
    ResolveScript,
    Spawn(CommandLineView),
    Stream,
    Drain(ExitReport),
    Fail(Seq<char>),
}

impl View for InstallStep {
    type V = InstallStepView;

    open spec fn view(&self) -> InstallStepView {
        match self {
            InstallStep::ResolveScript => InstallStepView::ResolveScript,
            InstallStep::Spawn(command) => InstallStepView::Spawn(command@),
            InstallStep::Stream => InstallStepView::Stream,
            InstallStep::Drain(report) => InstallStepView::Drain(*report),
            InstallStep::Fail(error) => InstallStepView::Fail(error@),
        }
    }
}

/// The first step: a script that the caller names is run; without a name, or with an empty
/// one, the bundled script is looked for.
pub open spec fn first_step(
    platform: Platform,
    config: InstallConfig,
    script_path: Option<Seq<char>>,
) -> InstallStepView {
    match script_path {
        Some(path) if path.len() > 0 => InstallStepView::Spawn(command_of(platform, config, path)),
        _ => InstallStepView::ResolveScript,
    }
}

/// The step after the search for the bundled script.
pub open spec fn step_after_resolve(
    platform: Platform,
    config: InstallConfig,
    resolved: Result<Seq<char>, Seq<char>>,
) -> InstallStepView {
    match resolved {
        Ok(path) => InstallStepView::Spawn(command_of(platform, config, path)),
        Err(error) => InstallStepView::Fail(error),
    }
}

/// The step after the start of the process.
pub open spec fn step_after_spawn(spawned: Result<(), Seq<char>>) -> InstallStepView {
    match spawned {
        Ok(_) => InstallStepView::Stream,
        Err(detail) => InstallStepView::Fail("Failed to spawn process: "@ + detail),
    }
}

/// The step after the wait for the process.
pub open spec fn step_after_wait(waited: Result<ExitReport, Seq<char>>) -> InstallStepView {
    match waited {
        Ok(report) => InstallStepView::Drain(report),
        Err(detail) => InstallStepView::Fail("Failed to wait for process: "@ + detail),
    }
}

/// Begins an installation.
pub fn install_begun(
    platform: Platform,
    config: &InstallConfig,
    script_path: Option<String>,
) -> (step: InstallStep)
    ensures
        step@ == first_step(platform, *config, script_path.deep_view()),
{
    match script_path {
        Some(path) => {
            if path.as_str().is_empty() {
                InstallStep::ResolveScript
            } else {
                InstallStep::Spawn(install_command(platform, config, path))
            }
        },
        None => InstallStep::ResolveScript,
    }
}

/// Goes on with the bundled script, or with why there is none.
pub fn script_resolved(
    platform: Platform,
    config: &InstallConfig,
    resolved: Result<String, String>,
) -> (step: InstallStep)
    ensures
        step@ == step_after_resolve(platform, *config, outcome::text_reply(resolved)),
{
    match resolved {
        Ok(path) => InstallStep::Spawn(install_command(platform, config, path)),
        Err(error) => InstallStep::Fail(error),
    }
}

/// Goes on with the running process, or with why it did not start.
pub fn install_spawned(spawned: Result<(), String>) -> (step: InstallStep)
    ensures
        step@ == step_after_spawn(outcome::reply(spawned)),
{
    match spawned {
        Ok(_) => InstallStep::Stream,
        Err(detail) => InstallStep::Fail(
            text::joined("Failed to spawn process: ", detail.as_str()),
        ),
    }
}

/// Goes on with how the process ended, or with why that is not known.
pub fn install_waited(waited: Result<ExitReport, String>) -> (step: InstallStep)
    ensures
        step@ == step_after_wait(outcome::reply(waited)),
{
    match waited {
        Ok(report) => InstallStep::Drain(report),
        Err(detail) => InstallStep::Fail(
            text::joined("Failed to wait for process: ", detail.as_str()),
        ),
    }
}

/// What is emitted for a line of the script: a line of output is shown at the level that it
/// tells of, a line of errors at level "error".
pub open spec fn shown(line: OutputLine) -> EmissionView {
    match line {
        OutputLine::Output(text) => EmissionView::InstallLog(
            LogLineView { line: text, level: log::level_of(text::lowercase(text)) },
        ),
        OutputLine::Errors(text) => EmissionView::InstallLog(
            LogLineView { line: text, level: "error"@ },
        ),
    }
}

/// Shows a line that the script wrote to its output, at the level that the line tells of.
pub fn install_stdout_line(line: String) -> (emission: Emission)
    ensures
        emission@ == shown(OutputLine::Output(line@)),
        vstd::utf8::is_ascii_chars(line@) ==> emission@ == EmissionView::InstallLog(
            LogLineView { line: line@, level: log::level_of(text::ascii_lowercase(line@)) },
        ),
{
    let level: &'static str = log::classify_line(line.as_str());
    Emission::InstallLog(LogLine { line, level: level.to_string() })
}

/// Shows a line that the script wrote to its error stream, at level "error".
pub fn install_stderr_line(line: String) -> (emission: Emission)
    ensures
        emission@ == shown(OutputLine::Errors(line@)),
{
    Emission::InstallLog(LogLine { line, level: "error".to_string() })
}

/// What the user is told at the end of an installation.
pub open spec fn result_of(report: ExitReport) -> InstallResultView {
    InstallResultView {
        success: report.success,
        exit_code: outcome::shown_code(report),
        message: if report.success {
            "Wazuh Agent installed successfully!"@
        } else {
            "Installation failed with exit code "@ + text::decimal(outcome::shown_code(report))
        },
    }
}

/// What the user is told at the end of an installation.
pub fn install_result(report: ExitReport) -> (result: InstallResult)
    ensures
        result@ == result_of(report),
        result.success == report.success,
        report.code matches Some(code) ==> result.exit_code == code,
        report.code is None ==> result.exit_code == -1,
{
    let exit_code: i32 = report.code.unwrap_or(-1);
    let message: String = if report.success {
        "Wazuh Agent installed successfully!".to_string()
    } else {
        let code: String = text::decimal_text(exit_code);
        text::joined("Installation failed with exit code ", code.as_str())
    };
    InstallResult { success: report.success, exit_code, message }
}

/// What is announced to the user interface at the end of an installation.
pub open spec fn announcement_of(report: ExitReport) -> EmissionView {
    EmissionView::InstallDone(result_of(report))
}

/// Ends an installation: what is announced to the user interface, and what is returned.
pub fn install_finished(report: ExitReport) -> (end: (Emission, InstallResult))
    ensures
        end.0@ == announcement_of(report),
        end.1@ == result_of(report),
        end.0@ == EmissionView::InstallDone(end.1@),
        end.1.success == report.success,
{
    (Emission::InstallDone(install_result(report)), install_result(report))
}

/// What the outside replies in the course of an installation, as far as it is asked, and the
/// lines that it hands over, in their order: those before the end of the process is known, and
/// those after.
pub struct InstallReplies {
    pub resolved: Result<Seq<char>, Seq<char>>,
    pub spawned: Result<(), Seq<char>>,
    pub streamed: Seq<OutputLine>,
    pub waited: Result<ExitReport, Seq<char>>,
    pub drained: Seq<OutputLine>,
}

/// A course of an installation: the command whose start was asked for, if any, what was emitted,
/// and what was returned.
#[verifier::ext_equal]
pub struct InstallRun {
    pub command: Option<CommandLineView>,
    pub emitted: Seq<EmissionView>,
    pub returned: Result<InstallResultView, Seq<char>>,
}

/// What is emitted for lines, in their order.
pub open spec fn all_shown(lines: Seq<OutputLine>) -> Seq<EmissionView> {
    lines.map_values(|line: OutputLine| shown(line))
}

/// How many outside operations may still be asked for.
pub open spec fn steps_left(step: InstallStepView) -> nat {
    match step {
        InstallStepView::ResolveScript => 3,
        InstallStepView::Spawn(_) => 2,
        InstallStepView::Stream => 1,
        InstallStepView::Drain(_) => 0,
        InstallStepView::Fail(_) => 0,
    }
}

/// The course of an installation from a step on, after the start of `command` has been asked for
/// and `emitted` has gone out.
pub open spec fn run_from(
    platform: Platform,
    config: InstallConfig,
    replies: InstallReplies,
    command: Option<CommandLineView>,
    emitted: Seq<EmissionView>,
    step: InstallStepView,
) -> InstallRun
    decreases steps_left(step),
{
    match step {
        InstallStepView::ResolveScript => run_from(
            platform,
            config,
            replies,
            command,
            emitted,
            step_after_resolve(platform, config, replies.resolved),
        ),
        InstallStepView::Spawn(asked) => run_from(
            platform,
            config,
            replies,
            Some(asked),
            emitted,
            step_after_spawn(replies.spawned),
        ),
        InstallStepView::Stream => run_from(
            platform,
            config,
            replies,
            command,
            emitted + all_shown(replies.streamed),
            step_after_wait(replies.waited),
        ),
        InstallStepView::Drain(report) => InstallRun {
            command,
            emitted: emitted + all_shown(replies.drained) + seq![announcement_of(report)],
            returned: Ok(result_of(report)),
        },
        InstallStepView::Fail(error) => InstallRun { command, emitted, returned: Err(error) },
    }
}

/// The course of an installation that is asked for with `script_path`.
pub open spec fn run_of(
    platform: Platform,
    config: InstallConfig,
    script_path: Option<Seq<char>>,
    replies: InstallReplies,
) -> InstallRun {
    run_from(platform, config, replies, None, seq![], first_step(platform, config, script_path))
}

/// A script that the caller names is the one that runs, and the bundled one is not asked for.
pub proof fn law_named_script_runs(
    platform: Platform,
    config: InstallConfig,
    path: Seq<char>,
    replies: InstallReplies,
)
    requires
        path.len() > 0,
    ensures
        run_of(platform, config, Some(path), replies).command == Some(
            command_of(platform, config, path),
        ),
        forall|other: InstallReplies|
            other == (InstallReplies { resolved: other.resolved, ..replies }) ==> #[trigger] run_of(
                platform,
                config,
                Some(path),
                other,
            ) == run_of(platform, config, Some(path), replies),
{
    reveal_with_fuel(run_from, 4);
}

/// Without a name, or with an empty one, the bundled script runs, if there is one.
pub proof fn law_bundled_script_runs(
    platform: Platform,
    config: InstallConfig,
    replies: InstallReplies,
)
    ensures
        run_of(platform, config, None, replies) == run_of(platform, config, Some(seq![]), replies),
        run_of(platform, config, None, replies).command == match replies.resolved {
            Ok(path) => Some(command_of(platform, config, path)),
            Err(_) => None,
        },
{
    reveal_with_fuel(run_from, 5);
}

/// An installation without a named script runs what the course of finding the bundled script
/// ends with, which is the script where it stands or its copy. Where that course
/// fails, nothing is started, and its error is returned.
pub proof fn law_bundled_course(
    platform: Platform,
    config: InstallConfig,
    search: ScriptReplies,
    replies: InstallReplies,
)
    requires
        replies.resolved == script::run_of(platform, search).found,
    ensures
        ({
            let run = run_of(platform, config, None, replies);
            match script::run_of(platform, search).found {
                Ok(path) => {
                    &&& run.command == Some(command_of(platform, config, path))
                    &&& search.located == Ok::<Option<Seq<char>>, Seq<char>>(Some(path))
                        || search.copy_path == Some(path)
                },
                Err(error) => run.command is None && run.returned == Err::<
                    InstallResultView,
                    Seq<char>,
                >(error),
            }
        }),
{
    reveal_with_fuel(run_from, 5);
    reveal_with_fuel(script::run_from, 4);
}

/// An installation returns a result exactly where there is a script, its process starts and its
/// end is known; that result is the one of the process's end. Otherwise it returns the error of
/// the first of these that fails.
pub proof fn law_install_returns(
    platform: Platform,
    config: InstallConfig,
    script_path: Option<Seq<char>>,
    replies: InstallReplies,
)
    ensures
        ({
            let named = script_path matches Some(path) && path.len() > 0;
            let returned = run_of(platform, config, script_path, replies).returned;
            &&& returned is Ok <==> {
                &&& named || replies.resolved is Ok
                &&& replies.spawned is Ok
                &&& replies.waited is Ok
            }
            &&& returned matches Ok(result) ==> result == result_of(replies.waited->Ok_0)
            &&& returned matches Err(error) ==> {
                if !named && replies.resolved is Err {
                    error == replies.resolved->Err_0
                } else if replies.spawned is Err {
                    error == "Failed to spawn process: "@ + replies.spawned->Err_0
                } else {
                    error == "Failed to wait for process: "@ + replies.waited->Err_0
                }
            }
        }),
{
    reveal_with_fuel(run_from, 5);
}

/// An installation that returns a result shows every line, in order, and then announces that
/// result. One that fails announces nothing: it has shown the lines handed over until then, or
/// nothing at all where no process was started.
pub proof fn law_install_emits(
    platform: Platform,
    config: InstallConfig,
    script_path: Option<Seq<char>>,
    replies: InstallReplies,
)
    ensures
        ({
            let run = run_of(platform, config, script_path, replies);
            match run.returned {
                Ok(result) => run.emitted == all_shown(replies.streamed + replies.drained).push(
                    EmissionView::InstallDone(result),
                ),
                Err(_) => run.emitted == if run.command is Some && replies.spawned is Ok {
                    all_shown(replies.streamed)
                } else {
                    seq![]
                },
            }
        }),
{
    reveal_with_fuel(run_from, 5);
    let run = run_of(platform, config, script_path, replies);
    match run.returned {
        Ok(result) => {
            assert(run.emitted =~= all_shown(replies.streamed + replies.drained).push(
                EmissionView::InstallDone(result),
            ));
        },
        Err(_) => {
            assert(seq![] + all_shown(replies.streamed) =~= all_shown(replies.streamed));
        },
    }
}

/// The end of an installation is announced exactly once, behind everything else, where a result
/// is returned, and never where none is. All else that is emitted are log lines.
pub proof fn law_end_announced_once(
    platform: Platform,
    config: InstallConfig,
    script_path: Option<Seq<char>>,
    replies: InstallReplies,
)
    ensures
        ({
            let run = run_of(platform, config, script_path, replies);
            let last = run.emitted.len() - 1;
            &&& run.returned matches Ok(result) ==> last >= 0 && run.emitted[last]
                == EmissionView::InstallDone(result)
            &&& forall|k: int|
                0 <= k <= last ==> if run.returned is Ok && k == last {
                    #[trigger] run.emitted[k] is InstallDone
                } else {
                    run.emitted[k] is InstallLog
                }
        }),
{
    law_install_emits(platform, config, script_path, replies);
}

/// The script sees the same variables, path and options on every platform: what Windows sets in
/// the environment, Unix hands to `env`, and the rest of the command is the same.
pub proof fn law_platforms_agree(config: InstallConfig, script: Seq<char>)
    ensures
        ({
            let unix = command_of(Platform::Unix, config, script);
            let windows = command_of(Platform::Windows, config, script);
            &&& unix.args == seq!["env"@] + assignments(windows.env) + seq![windows.program]
                + windows.args
            &&& unix.env.len() == 0
            &&& windows.env == env_of(config)
        }),
{
    let unix = command_of(Platform::Unix, config, script);
    let windows = command_of(Platform::Windows, config, script);
    assert(unix.args =~= seq!["env"@] + assignments(windows.env) + seq![windows.program]
        + windows.args);
}

/// A valid configuration picks one engine: Snort, or Suricata in the mode that it names.
pub proof fn law_valid_config_picks_engine(config: InstallConfig)
    requires
        config::is_valid(config),
    ensures
        engine_args_of(config) == if config.ids_engine@ == "snort"@ {
            seq!["-n"@]
        } else {
            seq!["-s"@, config.suricata_mode@]
        },
{
    reveal_strlit("suricata");
    reveal_strlit("snort");
    reveal_strlit("ids");
    reveal_strlit("ips");
    assert("suricata"@.len() != "snort"@.len());
    assert("ids"@.len() == 3 && "ips"@.len() == 3);
}

/// A valid configuration asks the script for Trivy exactly where it says so.
pub proof fn law_trivy_on_request(config: InstallConfig)
    requires
        config::is_valid(config),
    ensures
        script_args_of(config).contains("-t"@) <==> config.install_trivy,
{
    law_valid_config_picks_engine(config);
    reveal_strlit("-t");
    reveal_strlit("-s");
    reveal_strlit("-n");
    reveal_strlit("ids");
    reveal_strlit("ips");
    assert("-t"@[1] == 't' && "-s"@[1] == 's' && "-n"@[1] == 'n');
    assert("-t"@.len() == 2 && "ids"@.len() == 3 && "ips"@.len() == 3);
    if config.install_trivy {
        assert(script_args_of(config).last() == "-t"@);
    }
}

/// The message tells the outcome: the message of a success is that of no failure.
pub proof fn law_message_tells_outcome(a: ExitReport, b: ExitReport)
    requires
        result_of(a).message == result_of(b).message,
    ensures
        a.success == b.success,
        !a.success ==> result_of(a).exit_code == result_of(b).exit_code,
{
    reveal_strlit("Wazuh Agent installed successfully!");
    reveal_strlit("Installation failed with exit code ");
    let prefix = "Installation failed with exit code "@;
    assert("Wazuh Agent installed successfully!"@[0] == 'W' && prefix[0] == 'I');
    if !a.success && !b.success {
        let left = text::decimal(outcome::shown_code(a));
        let right = text::decimal(outcome::shown_code(b));
        assert(left =~= (prefix + left).skip(prefix.len() as int));
        assert(right =~= (prefix + right).skip(prefix.len() as int));
        text::lemma_decimal_injective(outcome::shown_code(a), outcome::shown_code(b));
    } else if a.success != b.success {
        assert(result_of(a).message[0] != result_of(b).message[0]);
    }
}

/// The result of an installation counts as a success exactly where the process's end does,
/// whatever its code. The message is that of a success exactly there, and else tells the code
/// that is shown: the process's own, or -1 where it ended with none.
pub proof fn law_result_tells_the_end(report: ExitReport)
    ensures
        ({
            let result = result_of(report);
            let code = match report.code {
                Some(code) => code as int,
                None => -1int,
            };
            &&& result.success <==> report.success
            &&& result.exit_code == code
            &&& result.message == "Wazuh Agent installed successfully!"@ <==> report.success
            &&& !report.success ==> result.message == "Installation failed with exit code "@
                + text::decimal(code)
            &&& announcement_of(report) == EmissionView::InstallDone(result)
        }),
{
    reveal_strlit("Wazuh Agent installed successfully!");
    reveal_strlit("Installation failed with exit code ");
    assert("Wazuh Agent installed successfully!"@[0] == 'W');
    assert("Installation failed with exit code "@[0] == 'I');
    if !report.success {
        assert(result_of(report).message[0] == 'I');
    }
}

/// Two ends that are alike in success and code have the same result.
pub proof fn law_result_depends_on(a: ExitReport, b: ExitReport)
    requires
        a.success == b.success,
        a.code == b.code,
    ensures
        result_of(a) == result_of(b),
{
}

/// The choice of Trivy adds a final "-t" to the options and changes nothing else.
pub proof fn law_trivy_is_the_last_option(without: InstallConfig, with: InstallConfig)
    requires
        without.ids_engine@ == with.ids_engine@,
        without.suricata_mode@ == with.suricata_mode@,
        !without.install_trivy,
        with.install_trivy,
    ensures
        script_args_of(with) == script_args_of(without).push("-t"@),
{
    assert(script_args_of(with) =~= script_args_of(without).push("-t"@));
}

/// The options of a valid configuration are those of its engine, "-n" for Snort and "-s" with the
/// mode that it names for Suricata, and "-t" behind them exactly where Trivy is asked for.
pub proof fn law_options_of_valid_config(config: InstallConfig)
    requires
        config::is_valid(config),
    ensures
        ({
            let args = script_args_of(config);
            let engine = if config.install_trivy {
                args.drop_last()
            } else {
                args
            };
            &&& config.install_trivy ==> args.len() > 0 && args.last() == "-t"@
            &&& config.ids_engine@ == "snort"@ ==> engine == seq!["-n"@]
            &&& config.ids_engine@ == "suricata"@ ==> engine == seq!["-s"@, config.suricata_mode@]
        }),
{
    law_valid_config_picks_engine(config);
    reveal_strlit("suricata");
    reveal_strlit("snort");
    assert("suricata"@.len() != "snort"@.len());
    if config.install_trivy {
        assert(script_args_of(config).drop_last() =~= engine_args_of(config));
    } else {
        assert(script_args_of(config) =~= engine_args_of(config));
    }
}

/// The options of any configuration without Trivy: an engine that there is not has none, Snort
/// has one, and Suricata has two, the second being its mode as it is named, or "ids" where none
/// is named.
pub proof fn law_options_of_engine(config: InstallConfig)
    requires
        !config.install_trivy,
    ensures
        ({
            let args = script_args_of(config);
            &&& config.ids_engine@ == "snort"@ ==> args.len() == 1 && args[0] == "-n"@
            &&& config.ids_engine@ == "suricata"@ ==> args.len() == 2 && args[0] == "-s"@
            &&& config.ids_engine@ == "suricata"@ && config.suricata_mode@.len() > 0 ==> args[1]
                == config.suricata_mode@
            &&& config.ids_engine@ == "suricata"@ && config.suricata_mode@.len() == 0 ==> args[1]
                == "ids"@
            &&& config.ids_engine@ != "snort"@ && config.ids_engine@ != "suricata"@ ==> args.len()
                == 0
        }),
{
    reveal_strlit("suricata");
    reveal_strlit("snort");
    assert("suricata"@.len() != "snort"@.len());
}

/// The options go by the engine, the mode and the choice of Trivy, and by nothing else.
pub proof fn law_options_depend_on(a: InstallConfig, b: InstallConfig)
    requires
        a.ids_engine@ == b.ids_engine@,
        a.suricata_mode@ == b.suricata_mode@,
        a.install_trivy == b.install_trivy,
    ensures
        script_args_of(a) == script_args_of(b),
{
}

/// On Unix the script is run by `bash`, behind `env` with one assignment for each of the four
/// settings, behind `pkexec`. Its path and its options come last.
pub proof fn law_unix_command_reads(config: InstallConfig, script: Seq<char>)
    ensures
        ({
            let command = command_of(Platform::Unix, config, script);
            &&& command.program == "pkexec"@
            &&& command.args.len() == 7 + script_args_of(config).len()
            &&& command.args[0] == "env"@
            &&& command.args[1] == "WAZUH_MANAGER="@ + config.wazuh_manager@
            &&& command.args[2] == "WAZUH_AGENT_VERSION="@ + config.wazuh_agent_version@
            &&& command.args[3] == "WAZUH_AGENT_NAME="@ + config.wazuh_agent_name@
            &&& command.args[4] == "LOG_LEVEL="@ + config.log_level@
            &&& command.args[5] == "bash"@
            &&& command.args[6] == script
            &&& command.args.skip(7) == script_args_of(config)
            &&& command.env.len() == 0
            &&& !command.pipe_stdin
        }),
{
    let command = command_of(Platform::Unix, config, script);
    reveal_strlit("=");
    reveal_strlit("WAZUH_MANAGER");
    reveal_strlit("WAZUH_MANAGER=");
    reveal_strlit("WAZUH_AGENT_VERSION");
    reveal_strlit("WAZUH_AGENT_VERSION=");
    reveal_strlit("WAZUH_AGENT_NAME");
    reveal_strlit("WAZUH_AGENT_NAME=");
    reveal_strlit("LOG_LEVEL");
    reveal_strlit("LOG_LEVEL=");
    assert("WAZUH_MANAGER"@ + "="@ =~= "WAZUH_MANAGER="@);
    assert("WAZUH_AGENT_VERSION"@ + "="@ =~= "WAZUH_AGENT_VERSION="@);
    assert("WAZUH_AGENT_NAME"@ + "="@ =~= "WAZUH_AGENT_NAME="@);
    assert("LOG_LEVEL"@ + "="@ =~= "LOG_LEVEL="@);
    assert(command.args.skip(7) =~= script_args_of(config));
}

/// On Windows the script is run by `bash` itself, with the four settings in its environment.
pub proof fn law_windows_command_reads(config: InstallConfig, script: Seq<char>)
    ensures
        ({
            let command = command_of(Platform::Windows, config, script);
            &&& command.program == "bash"@
            &&& command.args.len() == 1 + script_args_of(config).len()
            &&& command.args[0] == script
            &&& command.args.skip(1) == script_args_of(config)
            &&& command.env.len() == 4
            &&& command.env.contains(("WAZUH_MANAGER"@, config.wazuh_manager@))
            &&& command.env.contains(("WAZUH_AGENT_VERSION"@, config.wazuh_agent_version@))
            &&& command.env.contains(("WAZUH_AGENT_NAME"@, config.wazuh_agent_name@))
            &&& command.env.contains(("LOG_LEVEL"@, config.log_level@))
            &&& !command.pipe_stdin
        }),
{
    let command = command_of(Platform::Windows, config, script);
    assert(command.args.skip(1) =~= script_args_of(config));
    assert(command.env[0] == ("WAZUH_MANAGER"@, config.wazuh_manager@));
    assert(command.env[1] == ("WAZUH_AGENT_VERSION"@, config.wazuh_agent_version@));
    assert(command.env[2] == ("WAZUH_AGENT_NAME"@, config.wazuh_agent_name@));
    assert(command.env[3] == ("LOG_LEVEL"@, config.log_level@));
}

/// An installation begins with the script that the caller names, under the command that runs
/// it; a name that is empty is none.
pub proof fn law_first_step_goes_by_name(
    platform: Platform,
    config: InstallConfig,
    path: Seq<char>,
)
    ensures
        first_step(platform, config, None) == InstallStepView::ResolveScript,
        path.len() == 0 ==> first_step(platform, config, Some(path))
            == InstallStepView::ResolveScript,
        path.len() > 0 ==> first_step(platform, config, Some(path)) == step_after_resolve(
            platform,
            config,
            Ok(path),
        ),
        step_after_resolve(platform, config, Ok(path)) == InstallStepView::Spawn(
            command_of(platform, config, path),
        ),
        step_after_resolve(platform, config, Err(path)) == InstallStepView::Fail(path),
{
}

/// A process that started is read from, and one whose end is known is dealt with by that end;
/// otherwise the installation gives up with what went wrong.
pub proof fn law_process_steps(report: ExitReport, detail: Seq<char>)
    ensures
        step_after_spawn(Ok(())) is Stream,
        step_after_spawn(Err(detail)) == InstallStepView::Fail(
            "Failed to spawn process: "@ + detail,
        ),
        step_after_wait(Ok(report)) == InstallStepView::Drain(report),
        step_after_wait(Err(detail)) == InstallStepView::Fail(
            "Failed to wait for process: "@ + detail,
        ),
{
}

/// Every line is shown as a log entry with its text unchanged. On the error stream the level is
/// "error" whatever the line says; on the output stream it is the level of the line.
pub proof fn law_line_shown_as_it_is(line: Seq<char>)
    ensures
        shown(OutputLine::Errors(line)) matches EmissionView::InstallLog(entry) && entry.line
            == line && entry.level == "error"@,
        shown(OutputLine::Output(line)) matches EmissionView::InstallLog(entry) && entry.line
            == line && entry.level == log::level_of(text::lowercase(line)),
{
}

/// The model of a step is of the same kind and carries the same.
pub proof fn law_step_is_what_it_carries(command: CommandLine, report: ExitReport, error: String)
    ensures
        InstallStep::ResolveScript@ is ResolveScript,
        InstallStep::Spawn(command)@ == InstallStepView::Spawn(command@),
        InstallStep::Stream@ is Stream,
        InstallStep::Drain(report)@ == InstallStepView::Drain(report),
        InstallStep::Fail(error)@ == InstallStepView::Fail(error@),
{
}

} // verus!
