//! The course of an enrollment: the command of the enrollment client, what is shown of its
//! output, the code that the user sends to it and what its end means.
//!
//! The outside work is done by the caller, one [`EnrollStep`] or [`InputStep`] at a time.

use crate::command::{CommandLine, CommandLineView, Platform};
use crate::log::{self, LogLine, LogLineView, OutputLine};
use crate::outcome::{self, Emission, EmissionView, ExitReport, InstallResult, InstallResultView};
use crate::text;
use vstd::prelude::*;

verus! {

/// The options that the enrollment client is run with.
pub open spec fn client_args_of(
    issuer: Seq<char>,
    endpoint: Seq<char>,
    overwrite: bool,
) -> Seq<Seq<char>> {
    seq!["o-auth2"@, "--issuer"@, issuer, "--endpoint"@, endpoint] + if overwrite {
        seq!["--overwrite"@]
    } else {
        seq![]
    }
}

/// The command that runs the enrollment client, on Unix through `sudo`.
pub open spec fn command_of(
    platform: Platform,
    issuer: Seq<char>,
    endpoint: Seq<char>,
    overwrite: bool,
) -> CommandLineView {
    let client = "/var/ossec/bin/wazuh-cert-oauth2-client"@;
    let args = client_args_of(issuer, endpoint, overwrite);
    match platform {
        Platform::Unix => CommandLineView {
            program: "sudo"@,
            args: seq![client] + args,
            env: seq![],
            pipe_stdin: true,
        },
        Platform::Windows => CommandLineView {
            program: client,
            args,
            env: seq![],
            pipe_stdin: true,
        },
    }
}

/// The command that runs the enrollment client.
pub fn enroll_command(
    platform: Platform,
    issuer: String,
    endpoint: String,
    overwrite: bool,
) -> (command: CommandLine)
    ensures
        command@ == command_of(platform, issuer@, endpoint@, overwrite),
{
    let ghost issuer_text = issuer@;
    let ghost endpoint_text = endpoint@;
    let client: String = "/var/ossec/bin/wazuh-cert-oauth2-client".to_string();
    let mut args: Vec<String> = Vec::new();
    let program: String = match platform {
        Platform::Unix => {
            args.push(client);
            "sudo".to_string()
        },
        Platform::Windows => client,
    };
    args.push("o-auth2".to_string());
    args.push("--issuer".to_string());
    args.push(issuer);
    args.push("--endpoint".to_string());
    args.push(endpoint);
    if overwrite {
        args.push("--overwrite".to_string());
    }
    assert(args.deep_view() =~= command_of(
        platform,
        issuer_text,
        endpoint_text,
        overwrite,
    ).args);
    CommandLine { program, args, env: Vec::new(), pipe_stdin: true }
}

/// What the caller does next in an enrollment.
#[derive(Debug, PartialEq, Eq)]
pub enum EnrollStep {
    /// Keep the input stream of the process in the [`InputSlot`], hand each line of output to
    /// [`enroll_stdout_line`] and each line of errors to [`EnrollSession::stderr_line`], and
    /// wait for the process, then [`enroll_waited`].
    Stream,
    /// Hand over the lines that are left and empty the [`InputSlot`], then
    /// [`EnrollSession::finished`].
    Drain(ExitReport),
    /// Give up with this error.
    Fail(String),
}

/// The model of an [`EnrollStep`].
#[verifier::ext_equal]
pub enum EnrollStepView {
    Stream,
    Drain(ExitReport),
    Fail(Seq<char>),
}

impl View for EnrollStep {
    type V = EnrollStepView;

    open spec fn view(&self) -> EnrollStepView {
        match self {
            EnrollStep::Stream => EnrollStepView::Stream,
            EnrollStep::Drain(report) => EnrollStepView::Drain(*report),
            EnrollStep::Fail(error) => EnrollStepView::Fail(error@),
        }
    }
}

/// The step after the start of the client.
pub open spec fn step_after_spawn(spawned: Result<(), Seq<char>>) -> EnrollStepView {
    match spawned {
        Ok(_) => EnrollStepView::Stream,
        Err(detail) => EnrollStepView::Fail("Failed to start enrollment: "@ + detail),
    }
}

/// The step after the wait for the client.
pub open spec fn step_after_wait(waited: Result<ExitReport, Seq<char>>) -> EnrollStepView {
    match waited {
        Ok(report) => EnrollStepView::Drain(report),
        Err(detail) => EnrollStepView::Fail("Enrollment process error: "@ + detail),
    }
}

/// Goes on with the running client, or with why it did not start.
pub fn enroll_spawned(spawned: Result<(), String>) -> (step: EnrollStep)
    ensures
        step@ == step_after_spawn(outcome::reply(spawned)),
{
    match spawned {
        Ok(_) => EnrollStep::Stream,
        Err(detail) => EnrollStep::Fail(
            text::joined("Failed to start enrollment: ", detail.as_str()),
        ),
    }
}

/// Goes on with how the client ended, or with why that is not known.
pub fn enroll_waited(waited: Result<ExitReport, String>) -> (step: EnrollStep)
    ensures
        step@ == step_after_wait(outcome::reply(waited)),
{
    match waited {
        Ok(report) => EnrollStep::Drain(report),
        Err(detail) => EnrollStep::Fail(
            text::joined("Enrollment process error: ", detail.as_str()),
        ),
    }
}

/// With this line the client waits for the user's code.
pub open spec fn asks_for_code(line: Seq<char>) -> bool {
    ||| text::occurs_in("Please open this URL in your browser"@, line)
    ||| text::occurs_in("Please copy this code"@, line)
    ||| text::occurs_in("paste it into your application"@, line)
    ||| text::occurs_in("Enter the code"@, line)
}

/// Whether with this line the client waits for the user's code.
pub fn is_code_prompt(line: &str) -> (res: bool)
    ensures
        res == asks_for_code(line@),
{
    text::contains(line, "Please open this URL in your browser") || text::contains(
        line,
        "Please copy this code",
    ) || text::contains(line, "paste it into your application") || text::contains(
        line,
        "Enter the code",
    )
}

/// What is emitted for a line: a request for the code is shown at level "success" and followed
/// by a call for the code; any other line is shown at `level`.
pub open spec fn emissions_of(line: Seq<char>, level: Seq<char>) -> Seq<EmissionView> {
    if asks_for_code(line) {
        seq![
            EmissionView::EnrollLog(LogLineView { line, level: "success"@ }),
            EmissionView::EnrollNeedsCode(true),
        ]
    } else {
        seq![EmissionView::EnrollLog(LogLineView { line, level })]
    }
}

/// What is emitted for a line of the client: a line of output is shown at the level that it
/// tells of, a line of errors at level "error", and a request for the code as one.
pub open spec fn shown(line: OutputLine) -> Seq<EmissionView> {
    match line {
        OutputLine::Output(text) => emissions_of(text, log::level_of(text::lowercase(text))),
        OutputLine::Errors(text) => emissions_of(text, "error"@),
    }
}

/// What is emitted for lines, in their order.
pub open spec fn all_shown(lines: Seq<OutputLine>) -> Seq<EmissionView>
    decreases lines.len(),
{
    if lines.len() == 0 {
        seq![]
    } else {
        all_shown(lines.drop_last()) + shown(lines.last())
    }
}

/// Shows a line at `level`, or as a request for the code where it is one.
pub fn enroll_line(line: String, level: &str) -> (emissions: Vec<Emission>)
    ensures
        outcome::views(emissions@) == emissions_of(line@, level@),
{
    let ghost line_text = line@;
    let prompt: bool = is_code_prompt(line.as_str());
    let mut emissions: Vec<Emission> = Vec::new();
    if prompt {
        emissions.push(Emission::EnrollLog(LogLine { line, level: "success".to_string() }));
        emissions.push(Emission::EnrollNeedsCode(true));
    } else {
        emissions.push(Emission::EnrollLog(LogLine { line, level: level.to_string() }));
    }
    assert(outcome::views(emissions@) =~= emissions_of(line_text, level@));
    emissions
}

/// Shows a line that the client wrote to its output, at the level that the line tells of.
pub fn enroll_stdout_line(line: String) -> (emissions: Vec<Emission>)
    ensures
        outcome::views(emissions@) == shown(OutputLine::Output(line@)),
        vstd::utf8::is_ascii_chars(line@) ==> outcome::views(emissions@) == emissions_of(
            line@,
            log::level_of(text::ascii_lowercase(line@)),
        ),
{
    let level: &'static str = log::classify_line(line.as_str());
    enroll_line(line, level)
}

/// A line on the error stream, given with its lower case, tells that the enrollment failed.
pub open spec fn tells_failure(line: Seq<char>, lowered: Seq<char>) -> bool {
    text::occurs_in("error"@, lowered) || text::occurs_in("invalid_grant"@, line)
}

/// Whether a line on the error stream, given with its lower case, tells that the enrollment
/// failed.
pub fn is_failure_report(line: &str, lowered: &str) -> (res: bool)
    ensures
        res == tells_failure(line@, lowered@),
{
    text::contains(lowered, "error") || text::contains(line, "invalid_grant")
}

/// What the user is told at the end of an enrollment. The client may end well though it failed,
/// so a failure that it told of counts too.
pub open spec fn result_of(had_error: bool, report: ExitReport) -> InstallResultView {
    let success = report.success && !had_error;
    InstallResultView {
        success,
        exit_code: outcome::shown_code(report),
        message: if success {
            "Agent enrolled successfully!"@
        } else {
            "Enrollment failed — check the log above for details"@
        },
    }
}

/// What is remembered in the course of an enrollment: whether the client told of a failure.
#[derive(Debug, Clone, Copy, PartialEq, Eq)]
pub struct EnrollSession {
    pub had_error: bool,
}

impl EnrollSession {
    /// An enrollment that has just begun.
    pub fn new() -> (session: Self)
        ensures
            !session.had_error,
    {
        EnrollSession { had_error: false }
    }

    /// Shows a line that the client wrote to its error stream, at level "error" unless it asks
    /// for the code, and remembers it where it tells of a failure.
    pub fn stderr_line(&mut self, line: String) -> (emissions: Vec<Emission>)
        ensures
            final(self).had_error == remembered(
                old(self).had_error,
                OutputLine::Errors(line@),
            ),
            vstd::utf8::is_ascii_chars(line@) ==> final(self).had_error == (old(self).had_error
                || tells_failure(line@, text::ascii_lowercase(line@))),
            outcome::views(emissions@) == shown(OutputLine::Errors(line@)),
    {
        let lowered: String = line.as_str().to_lowercase();
        if is_failure_report(line.as_str(), lowered.as_str()) {
            self.had_error = true;
        }
        enroll_line(line, "error")
    }

    /// Ends the enrollment.
    pub fn finished(&self, report: ExitReport) -> (result: InstallResult)
        ensures
            result@ == result_of(self.had_error, report),
            result.success == (report.success && !self.had_error),
            report.code matches Some(code) ==> result.exit_code == code,
            report.code is None ==> result.exit_code == -1,
    {
        let exit_code: i32 = report.code.unwrap_or(-1);
        let success: bool = report.success && !self.had_error;
        let message: String = if success {
            "Agent enrolled successfully!".to_string()
        } else {
            "Enrollment failed — check the log above for details".to_string()
        };
        InstallResult { success, exit_code, message }
    }
}

/// A line tells that the enrollment failed. Only lines on the error stream are asked.
pub open spec fn line_tells_failure(line: OutputLine) -> bool {
    line matches OutputLine::Errors(text) && tells_failure(text, text::lowercase(text))
}

/// What is remembered after one more line.
pub open spec fn remembered(had_error: bool, line: OutputLine) -> bool {
    had_error || line_tells_failure(line)
}

/// What is remembered after lines.
pub open spec fn remembered_all(lines: Seq<OutputLine>) -> bool
    decreases lines.len(),
{
    if lines.len() == 0 {
        false
    } else {
        remembered(remembered_all(lines.drop_last()), lines.last())
    }
}

/// The place where the input stream of the client is kept for the user's code, while there is
/// one.
pub struct InputSlot<S> {
    pub stream: Option<S>,
}

impl<S> InputSlot<S> {
    /// A slot before any enrollment.
    pub fn new() -> (slot: Self)
        ensures
            !slot.held(),
    {
        InputSlot { stream: None }
    }

    /// A client is there to take a code.
    pub open spec fn held(&self) -> bool {
        self.stream is Some
    }

    /// Whether a client is there to take a code.
    pub fn is_held(&self) -> (res: bool)
        ensures
            res == self.held(),
    {
        self.stream.is_some()
    }

    /// Keeps the input stream of a client that has just been started.
    pub fn keep(&mut self, stream: Option<S>)
        ensures
            final(self).stream == stream,
            stream is Some ==> final(self).held() == held_at(
                old(self).held(),
                EnrollStepView::Stream,
            ),
    {
        self.stream = stream;
    }

    /// Empties the slot once the client has ended.
    pub fn empty(&mut self)
        ensures
            !final(self).held(),
            forall|report: ExitReport|
                final(self).held() == #[trigger] held_at(
                    old(self).held(),
                    EnrollStepView::Drain(report),
                ),
    {
        self.stream = None;
    }
}

/// What the client gets when the user sends a code: the code without the white space around it,
/// as a line.
pub open spec fn input_of(code: Seq<char>) -> Seq<char> {
    text::trimmed(code) + "\n"@
}

/// What the caller does next to send the user's code.
#[derive(Debug, PartialEq, Eq)]
pub enum InputStep {
    /// Write this text to the client, then [`input_written`].
    Write(String),
    /// Flush what was written, then [`input_flushed`].
    Flush,
    /// Give up with this error.
    Fail(String),
}

/// The model of an [`InputStep`].
#[verifier::ext_equal]
pub enum InputStepView {
    Write(Seq<char>),
    Flush,
    Fail(Seq<char>),
}

impl View for InputStep {
    type V = InputStepView;

    open spec fn view(&self) -> InputStepView {
        match self {
            InputStep::Write(input) => InputStepView::Write(input@),
            InputStep::Flush => InputStepView::Flush,
            InputStep::Fail(error) => InputStepView::Fail(error@),
        }
    }
}

/// The first step of sending a code, `active` telling whether a client is there to take it.
pub open spec fn first_input_step(active: bool, code: Seq<char>) -> InputStepView {
    if active {
        InputStepView::Write(input_of(code))
    } else {
        InputStepView::Fail("No active enrollment process"@)
    }
}

/// The step after the write.
pub open spec fn step_after_write(written: Result<(), Seq<char>>) -> InputStepView {
    match written {
        Ok(_) => InputStepView::Flush,
        Err(detail) => InputStepView::Fail("Failed to send code: "@ + detail),
    }
}

/// What is returned after the flush.
pub open spec fn sent_after_flush(flushed: Result<(), Seq<char>>) -> Result<(), Seq<char>> {
    match flushed {
        Ok(_) => Ok(()),
        Err(detail) => Err("Failed to flush stdin: "@ + detail),
    }
}

/// Begins to send a code to the client whose input stream is in the slot.
pub fn enroll_input<S>(slot: &InputSlot<S>, code: &str) -> (step: InputStep)
    ensures
        step@ == first_input_step(slot.held(), code@),
{
    if slot.is_held() {
        InputStep::Write(text::joined(text::trim(code), "\n"))
    } else {
        InputStep::Fail("No active enrollment process".to_string())
    }
}

/// Goes on after the write.
pub fn input_written(written: Result<(), String>) -> (step: InputStep)
    ensures
        step@ == step_after_write(outcome::reply(written)),
{
    match written {
        Ok(_) => InputStep::Flush,
        Err(detail) => InputStep::Fail(text::joined("Failed to send code: ", detail.as_str())),
    }
}

/// Ends after the flush.
pub fn input_flushed(flushed: Result<(), String>) -> (sent: Result<(), String>)
    ensures
        outcome::reply(sent) == sent_after_flush(outcome::reply(flushed)),
{
    match flushed {
        Ok(_) => Ok(()),
        Err(detail) => Err(text::joined("Failed to flush stdin: ", detail.as_str())),
    }
}

/// What is remembered is whether any of the lines tells of a failure, whatever their order.
pub proof fn law_failure_is_remembered(lines: Seq<OutputLine>)
    ensures
        remembered_all(lines) <==> exists|k: int|
            0 <= k < lines.len() && line_tells_failure(#[trigger] lines[k]),
    decreases lines.len(),
{
    if lines.len() > 0 {
        let before = lines.drop_last();
        law_failure_is_remembered(before);
        if remembered_all(before) {
            let k = choose|k: int|
                0 <= k < before.len() && line_tells_failure(#[trigger] before[k]);
            assert(lines[k] == before[k]);
        } else if remembered_all(lines) {
            assert(lines[lines.len() - 1] == lines.last());
        } else {
            assert forall|k: int| 0 <= k < lines.len() implies !line_tells_failure(
                #[trigger] lines[k],
            ) by {
                if k < before.len() {
                    assert(before[k] == lines[k]);
                }
            }
        }
    }
}

/// What the outside replies in the course of an enrollment, as far as it is asked, and the
/// lines of both streams that it hands over, in their order: those before the end of the client
/// is known, and those after.
pub struct EnrollReplies {
    pub spawned: Result<(), Seq<char>>,
    pub streamed: Seq<OutputLine>,
    pub waited: Result<ExitReport, Seq<char>>,
    pub drained: Seq<OutputLine>,
}

/// A course of an enrollment: what was emitted, whether the slot then holds an input stream,
/// and what was returned.
#[verifier::ext_equal]
pub struct EnrollRun {
    pub emitted: Seq<EmissionView>,
    pub input_held: bool,
    pub returned: Result<InstallResultView, Seq<char>>,
}

/// How many outside operations may still be asked for.
pub open spec fn steps_left(step: EnrollStepView) -> nat {
    match step {
        EnrollStepView::Stream => 1,
        EnrollStepView::Drain(_) => 0,
        EnrollStepView::Fail(_) => 0,
    }
}

/// Whether the slot holds an input stream once a step has been taken: it is filled at the step
/// that streams, emptied at the one that drains, and left alone by a failure.
pub open spec fn held_at(input_held: bool, step: EnrollStepView) -> bool {
    match step {
        EnrollStepView::Stream => true,
        EnrollStepView::Drain(_) => false,
        EnrollStepView::Fail(_) => input_held,
    }
}

/// The course of an enrollment from a step on, after `emitted` has gone out and with the slot
/// holding an input stream or not.
pub open spec fn run_from(
    replies: EnrollReplies,
    emitted: Seq<EmissionView>,
    input_held: bool,
    step: EnrollStepView,
) -> EnrollRun
    decreases steps_left(step),
{
    match step {
        EnrollStepView::Stream => run_from(
            replies,
            emitted + all_shown(replies.streamed),
            held_at(input_held, step),
            step_after_wait(replies.waited),
        ),
        EnrollStepView::Drain(report) => EnrollRun {
            emitted: emitted + all_shown(replies.drained),
            input_held: held_at(input_held, step),
            returned: Ok(
                result_of(remembered_all(replies.streamed + replies.drained), report),
            ),
        },
        EnrollStepView::Fail(error) => EnrollRun {
            emitted,
            input_held: held_at(input_held, step),
            returned: Err(error),
        },
    }
}

/// The course of an enrollment that begins with the slot holding an input stream or not.
pub open spec fn run_of(input_held: bool, replies: EnrollReplies) -> EnrollRun {
    run_from(replies, seq![], input_held, step_after_spawn(replies.spawned))
}

/// An enrollment returns a result exactly where its client starts and its end is known. The
/// result is a success exactly where the client ended well and told of no failure on its error
/// stream.
pub proof fn law_enroll_returns(input_held: bool, replies: EnrollReplies)
    ensures
        ({
            let returned = run_of(input_held, replies).returned;
            let lines = replies.streamed + replies.drained;
            &&& returned is Ok <==> replies.spawned is Ok && replies.waited is Ok
            &&& returned matches Ok(result) ==> {
                &&& result.exit_code == outcome::shown_code(replies.waited->Ok_0)
                &&& result.success <==> {
                    &&& replies.waited->Ok_0.success
                    &&& forall|k: int|
                        0 <= k < lines.len() ==> !line_tells_failure(#[trigger] lines[k])
                }
            }
            &&& returned matches Err(error) ==> error == match replies.spawned {
                Err(detail) => "Failed to start enrollment: "@ + detail,
                Ok(_) => "Enrollment process error: "@ + replies.waited->Err_0,
            }
        }),
{
    reveal_with_fuel(run_from, 2);
    law_failure_is_remembered(replies.streamed + replies.drained);
}

proof fn lemma_all_shown_of_sum(a: Seq<OutputLine>, b: Seq<OutputLine>)
    ensures
        all_shown(a + b) == all_shown(a) + all_shown(b),
    decreases b.len(),
{
    if b.len() == 0 {
        assert(a + b =~= a);
        assert(all_shown(a) + all_shown(b) =~= all_shown(a));
    } else {
        assert((a + b).drop_last() =~= a + b.drop_last());
        assert((a + b).last() == b.last());
        lemma_all_shown_of_sum(a, b.drop_last());
        assert(all_shown(a + b) =~= all_shown(a) + all_shown(b));
    }
}

/// An enrollment emits what its lines call for, in their order, and nothing else: all lines
/// where it returns a result, those handed over until then where the end of the client is not
/// known, and nothing where the client does not start. The order is that of lines handed over
/// one at a time, each after what the one before calls for has gone out. Where the two streams
/// are read side by side, it is the order of each stream's own lines.
pub proof fn law_enroll_emits(input_held: bool, replies: EnrollReplies)
    ensures
        run_of(input_held, replies).emitted == match (replies.spawned, replies.waited) {
            (Ok(_), Ok(_)) => all_shown(replies.streamed + replies.drained),
            (Ok(_), Err(_)) => all_shown(replies.streamed),
            (Err(_), _) => seq![],
        },
{
    reveal_with_fuel(run_from, 2);
    lemma_all_shown_of_sum(replies.streamed, replies.drained);
    assert(seq![] + all_shown(replies.streamed) =~= all_shown(replies.streamed));
}

/// How many calls for the code there are among emissions.
pub open spec fn code_calls(emissions: Seq<EmissionView>) -> nat
    decreases emissions.len(),
{
    if emissions.len() == 0 {
        0
    } else {
        code_calls(emissions.drop_last()) + if emissions.last() is EnrollNeedsCode {
            1nat
        } else {
            0nat
        }
    }
}

/// How many of the lines ask for the code.
pub open spec fn prompts(lines: Seq<OutputLine>) -> nat
    decreases lines.len(),
{
    if lines.len() == 0 {
        0
    } else {
        prompts(lines.drop_last()) + if asks_for_code(lines.last().text()) {
            1nat
        } else {
            0nat
        }
    }
}

/// The texts of the log entries among emissions, in their order.
pub open spec fn logged(emissions: Seq<EmissionView>) -> Seq<Seq<char>>
    decreases emissions.len(),
{
    if emissions.len() == 0 {
        seq![]
    } else {
        let before = logged(emissions.drop_last());
        match emissions.last() {
            EmissionView::EnrollLog(entry) => before.push(entry.line),
            _ => before,
        }
    }
}

/// The texts of lines, in their order.
pub open spec fn texts(lines: Seq<OutputLine>) -> Seq<Seq<char>> {
    lines.map_values(|line: OutputLine| line.text())
}

proof fn lemma_line_added(emissions: Seq<EmissionView>, line: OutputLine)
    ensures
        logged(emissions + shown(line)) == logged(emissions).push(line.text()),
        code_calls(emissions + shown(line)) == code_calls(emissions) + if asks_for_code(
            line.text(),
        ) {
            1nat
        } else {
            0nat
        },
{
    let added = shown(line);
    let with_log = emissions.push(added[0]);
    assert(with_log.drop_last() =~= emissions);
    assert(with_log.last() == added[0]);
    assert(logged(with_log) == logged(emissions).push(line.text()));
    assert(code_calls(with_log) == code_calls(emissions));
    if asks_for_code(line.text()) {
        assert(emissions + added =~= with_log.push(added[1]));
        assert(with_log.push(added[1]).drop_last() =~= with_log);
    } else {
        assert(emissions + added =~= with_log);
    }
}

/// There are as many calls for the code as lines, of either stream, that ask for it.
pub proof fn law_one_call_for_each_prompt(lines: Seq<OutputLine>)
    ensures
        code_calls(all_shown(lines)) == prompts(lines),
    decreases lines.len(),
{
    if lines.len() > 0 {
        law_one_call_for_each_prompt(lines.drop_last());
        lemma_line_added(all_shown(lines.drop_last()), lines.last());
    }
}

/// Every line of either stream is shown once, unchanged and in its order.
pub proof fn law_every_line_shown(lines: Seq<OutputLine>)
    ensures
        logged(all_shown(lines)) == texts(lines),
    decreases lines.len(),
{
    if lines.len() > 0 {
        law_every_line_shown(lines.drop_last());
        lemma_line_added(all_shown(lines.drop_last()), lines.last());
        assert(texts(lines) =~= texts(lines.drop_last()).push(lines.last().text()));
    } else {
        assert(texts(lines) =~= seq![]);
    }
}

/// A log entry and, behind it, a call for the code exactly where the entry asks for it: the
/// emission at `k` fits what stands next to it.
pub open spec fn call_fits(emissions: Seq<EmissionView>, k: int) -> bool {
    match emissions[k] {
        EmissionView::EnrollLog(entry) => asks_for_code(entry.line) <==> {
            k + 1 < emissions.len() && emissions[k + 1] is EnrollNeedsCode
        },
        EmissionView::EnrollNeedsCode(needed) => {
            &&& needed
            &&& k > 0
            &&& emissions[k - 1] matches EmissionView::EnrollLog(entry) && asks_for_code(
                entry.line,
            ) && entry.level == "success"@
        },
        _ => false,
    }
}

/// Every call for the code stands right behind the log entry of the line that asks for it, and
/// every such entry has its call. Nothing but log entries and calls for the code is emitted.
/// This is said of lines handed over one at a time. Where the two streams are read side by side,
/// it holds among the emissions of each stream's own lines; an emission of the other stream may
/// come between an entry and its call.
pub proof fn law_call_follows_its_prompt(lines: Seq<OutputLine>)
    ensures
        forall|k: int|
            0 <= k < all_shown(lines).len() ==> #[trigger] call_fits(all_shown(lines), k),
    decreases lines.len(),
{
    if lines.len() > 0 {
        let before = all_shown(lines.drop_last());
        let added = shown(lines.last());
        let all = all_shown(lines);
        law_call_follows_its_prompt(lines.drop_last());
        assert forall|k: int| 0 <= k < all.len() implies #[trigger] call_fits(all, k) by {
            if k < before.len() {
                assert(call_fits(before, k));
                assert(all[k] == before[k]);
                if k + 1 < before.len() {
                    assert(all[k + 1] == before[k + 1]);
                } else if k + 1 < all.len() {
                    assert(all[k + 1] == added[0]);
                }
                if k > 0 {
                    assert(all[k - 1] == before[k - 1]);
                }
            } else {
                assert(all[k] == added[k - before.len()]);
                if k > before.len() {
                    assert(all[k - 1] == added[k - 1 - before.len()]);
                }
                if k + 1 < all.len() {
                    assert(all[k + 1] == added[k + 1 - before.len()]);
                }
            }
        }
    }
}

/// The slot holds an input stream from the start of a client until its end is dealt with: after
/// an enrollment that returned a result it holds none, whatever was there before. Where the end
/// of the client is not known it stays filled, and where the client does not start it stays as
/// it was.
pub proof fn law_slot_follows_client(input_held: bool, replies: EnrollReplies)
    ensures
        ({
            let run = run_of(input_held, replies);
            &&& run.returned is Ok ==> !run.input_held
            &&& run.returned is Err && replies.spawned is Ok ==> run.input_held
            &&& replies.spawned is Err ==> run.input_held == input_held
        }),
{
    reveal_with_fuel(run_from, 2);
}

/// Whether the slot holds an input stream after enrollments, one after the other.
pub open spec fn held_after(enrollments: Seq<EnrollReplies>) -> bool
    decreases enrollments.len(),
{
    if enrollments.len() == 0 {
        false
    } else {
        run_of(held_after(enrollments.drop_last()), enrollments.last()).input_held
    }
}

/// Before the first enrollment, and after one that returned a result, no client is there: a code
/// that is sent then, whatever it is, is answered with an error, and nothing is written.
pub proof fn law_no_client_between_enrollments(
    enrollments: Seq<EnrollReplies>,
    code: Seq<char>,
    replies: InputReplies,
)
    requires
        enrollments.len() == 0 || run_of(
            held_after(enrollments.drop_last()),
            enrollments.last(),
        ).returned is Ok,
        replies.active == held_after(enrollments),
    ensures
        !held_after(enrollments),
        first_input_step(held_after(enrollments), code) == InputStepView::Fail(
            "No active enrollment process"@,
        ),
        sent_by(code, replies) == Err::<(), Seq<char>>("No active enrollment process"@),
{
    if enrollments.len() > 0 {
        law_slot_follows_client(held_after(enrollments.drop_last()), enrollments.last());
    }
}

/// The message tells the outcome of an enrollment.
pub proof fn law_message_tells_outcome(had_error: bool, report: ExitReport)
    ensures
        result_of(had_error, report).success <==> result_of(had_error, report).message
            == "Agent enrolled successfully!"@,
{
    reveal_strlit("Agent enrolled successfully!");
    reveal_strlit("Enrollment failed — check the log above for details");
    assert("Agent enrolled successfully!"@[0] == 'A');
    assert("Enrollment failed — check the log above for details"@[0] == 'E');
}

/// The user is asked for the code exactly on the lines with which the client waits for it.
/// Every line is shown, unchanged, before that.
pub proof fn law_code_asked_on_prompt(line: Seq<char>, level: Seq<char>)
    ensures
        emissions_of(line, level).contains(EmissionView::EnrollNeedsCode(true)) <==> asks_for_code(
            line,
        ),
        emissions_of(line, level)[0] matches EmissionView::EnrollLog(entry) && entry.line == line,
{
    let emissions = emissions_of(line, level);
    if asks_for_code(line) {
        assert(emissions[1] == EmissionView::EnrollNeedsCode(true));
    }
}

/// The client is run with the same options on every platform; on Unix `sudo` stands before it.
pub proof fn law_platforms_agree(issuer: Seq<char>, endpoint: Seq<char>, overwrite: bool)
    ensures
        ({
            let unix = command_of(Platform::Unix, issuer, endpoint, overwrite);
            let windows = command_of(Platform::Windows, issuer, endpoint, overwrite);
            &&& unix.program == "sudo"@
            &&& unix.args == seq![windows.program] + windows.args
        }),
{
}

/// White space around a code makes no difference to what the client gets.
pub proof fn law_input_ignores_surroundings(lead: Seq<char>, code: Seq<char>, trail: Seq<char>)
    requires
        text::is_blank(lead),
        text::is_blank(trail),
    ensures
        input_of(lead + code + trail) == input_of(code),
{
    text::lemma_trim_ignores_surroundings(lead, code, trail);
}

/// What the client gets ends with a line break, and the code in it neither begins nor ends with
/// white space.
pub proof fn law_input_is_trimmed_line(code: Seq<char>)
    ensures
        input_of(code).len() > 0,
        input_of(code).last() == '\n',
        input_of(code).len() > 1 ==> !text::is_white_space(input_of(code).first())
            && !text::is_white_space(input_of(code)[input_of(code).len() - 2]),
{
    reveal_strlit("\n");
    text::lemma_trimmed_ends(code);
}

/// What the outside replies when a code is sent, as far as it is asked.
pub struct InputReplies {
    pub active: bool,
    pub written: Result<(), Seq<char>>,
    pub flushed: Result<(), Seq<char>>,
}

/// How many outside operations may still be asked for.
pub open spec fn input_steps_left(step: InputStepView) -> nat {
    match step {
        InputStepView::Write(_) => 2,
        InputStepView::Flush => 1,
        InputStepView::Fail(_) => 0,
    }
}

/// What the sending of a code returns, from a step on.
pub open spec fn sent_from(replies: InputReplies, step: InputStepView) -> Result<(), Seq<char>>
    decreases input_steps_left(step),
{
    match step {
        InputStepView::Write(_) => sent_from(replies, step_after_write(replies.written)),
        InputStepView::Flush => sent_after_flush(replies.flushed),
        InputStepView::Fail(error) => Err(error),
    }
}

/// What the sending of a code returns.
pub open spec fn sent_by(code: Seq<char>, replies: InputReplies) -> Result<(), Seq<char>> {
    sent_from(replies, first_input_step(replies.active, code))
}

/// A code is sent exactly where a client is there to take it and both the write and the flush
/// succeed; otherwise the first of these that fails is the error.
pub proof fn law_code_sent(code: Seq<char>, replies: InputReplies)
    ensures
        sent_by(code, replies) is Ok <==> {
            &&& replies.active
            &&& replies.written is Ok
            &&& replies.flushed is Ok
        },
        sent_by(code, replies) matches Err(error) ==> {
            if !replies.active {
                error == "No active enrollment process"@
            } else if replies.written is Err {
                error == "Failed to send code: "@ + replies.written->Err_0
            } else {
                error == "Failed to flush stdin: "@ + replies.flushed->Err_0
            }
        },
{
    reveal_with_fuel(sent_from, 2);
}

/// A line on the error stream, given with its lower case, tells of a failure exactly where its
/// lower case has "error" as a part or the line itself has "invalid_grant" as one. Whatever
/// stands around these makes no difference.
pub proof fn law_failure_goes_by_parts(line: Seq<char>, lowered: Seq<char>)
    ensures
        tells_failure(line, lowered) <==> text::holds(lowered, "error"@) || text::holds(
            line,
            "invalid_grant"@,
        ),
{
    text::law_search_finds_parts("error"@, lowered);
    text::law_search_finds_parts("invalid_grant"@, line);
}

/// A line tells of a failure exactly where it has the word "error", with its letters in any mix
/// of cases, or "invalid_grant", as it is written here.
pub proof fn law_failure_in_any_case(line: Seq<char>)
    ensures
        tells_failure(line, text::ascii_lowercase(line)) <==> text::holds_in_any_case(
            line,
            "error"@,
        ) || text::holds(line, "invalid_grant"@),
{
    law_failure_goes_by_parts(line, text::ascii_lowercase(line));
    text::law_search_finds_parts("error"@, text::ascii_lowercase(line));
    text::law_word_in_any_case(line, "error"@);
}

/// Text around a line that tells of a failure never makes it stop telling of one.
pub proof fn law_failure_told_in_longer_line(before: Seq<char>, line: Seq<char>, after: Seq<char>)
    requires
        tells_failure(line, text::ascii_lowercase(line)),
    ensures
        tells_failure(before + line + after, text::ascii_lowercase(before + line + after)),
{
    let whole = before + line + after;
    assert(text::ascii_lowercase(whole) =~= text::ascii_lowercase(before) + text::ascii_lowercase(
        line,
    ) + text::ascii_lowercase(after));
    if text::occurs_in("error"@, text::ascii_lowercase(line)) {
        let low = text::ascii_lowercase(line);
        text::lemma_occurrence_in_longer_text("error"@, low, text::ascii_lowercase(before));
        text::lemma_occurrence_in_longer_text(
            "error"@,
            text::ascii_lowercase(before) + low,
            text::ascii_lowercase(after),
        );
    } else {
        text::lemma_occurrence_in_longer_text("invalid_grant"@, line, before);
        text::lemma_occurrence_in_longer_text("invalid_grant"@, before + line, after);
    }
}

/// An enrollment that was given a line with the word "error" on its error stream, in any mix of
/// cases and with any text around it, never ends with success, however the client ends and
/// whatever was remembered before.
pub proof fn law_error_word_fails_enrollment(
    before: Seq<char>,
    word: Seq<char>,
    after: Seq<char>,
    had_error: bool,
    report: ExitReport,
)
    requires
        text::ascii_lowercase(word) == "error"@,
    ensures
        ({
            let line = before + word + after;
            let remembers = had_error || tells_failure(line, text::ascii_lowercase(line));
            &&& remembers
            &&& !result_of(remembers, report).success
            &&& result_of(remembers, report).message
                == "Enrollment failed — check the log above for details"@
        }),
{
    let line = before + word + after;
    assert(text::is_made_of(line, before, word, after));
    law_failure_in_any_case(line);
}

/// What is remembered stays remembered; a line of output adds nothing to it, and a line of errors
/// adds to it exactly where it tells of a failure.
pub proof fn law_memory_only_grows(had_error: bool, text: Seq<char>)
    ensures
        remembered(true, OutputLine::Output(text)),
        remembered(true, OutputLine::Errors(text)),
        remembered(had_error, OutputLine::Output(text)) == had_error,
        remembered(had_error, OutputLine::Errors(text)) <==> {
            ||| had_error
            ||| text::holds(text::lowercase(text), "error"@)
            ||| text::holds(text, "invalid_grant"@)
        },
{
    law_failure_goes_by_parts(text, text::lowercase(text));
}

/// The result of an enrollment counts as a success exactly where the client's end does and no
/// failure is remembered. The message is that of a success exactly there and that of a failure
/// elsewhere; the code that is shown is the client's own, or -1 where it ended with none.
pub proof fn law_result_tells_the_end(had_error: bool, report: ExitReport)
    ensures
        ({
            let result = result_of(had_error, report);
            &&& had_error ==> !result.success
            &&& !had_error ==> (result.success <==> report.success)
            &&& result.success ==> result.message == "Agent enrolled successfully!"@
            &&& !result.success ==> result.message
                == "Enrollment failed — check the log above for details"@
            &&& report.code is None ==> result.exit_code + 1 == 0
            &&& forall|code: i32| report.code == Some(code) ==> result.exit_code == code
        }),
{
}

/// A line asks for the code exactly where it has one of four phrases as a part, as they are
/// written here.
pub proof fn law_prompt_goes_by_parts(line: Seq<char>)
    ensures
        asks_for_code(line) <==> {
            ||| text::holds(line, "Please open this URL in your browser"@)
            ||| text::holds(line, "Please copy this code"@)
            ||| text::holds(line, "paste it into your application"@)
            ||| text::holds(line, "Enter the code"@)
        },
{
    text::law_search_finds_parts("Please open this URL in your browser"@, line);
    text::law_search_finds_parts("Please copy this code"@, line);
    text::law_search_finds_parts("paste it into your application"@, line);
    text::law_search_finds_parts("Enter the code"@, line);
}

/// Every line is shown first, as a log entry with its text unchanged. A line that asks for the
/// code has level "success" on either stream and is followed by a single call for it. Any other
/// line is followed by nothing; it has level "error" on the error stream, whatever it says, and
/// the level of the line on the output stream.
pub proof fn law_line_shown_as_it_is(line: Seq<char>)
    ensures
        ({
            let output = shown(OutputLine::Output(line));
            let errors = shown(OutputLine::Errors(line));
            let level = log::level_of(text::lowercase(line));
            &&& output.len() > 0 && output[0] is EnrollLog
            &&& errors.len() > 0 && errors[0] is EnrollLog
            &&& output[0]->EnrollLog_0.line == line
            &&& errors[0]->EnrollLog_0.line == line
            &&& asks_for_code(line) ==> {
                &&& output == errors
                &&& output.len() == 2
                &&& output[0]->EnrollLog_0.level == "success"@
                &&& output[1] == EmissionView::EnrollNeedsCode(true)
            }
            &&& !asks_for_code(line) ==> {
                &&& output.len() == 1
                &&& output[0]->EnrollLog_0.level == level
                &&& errors.len() == 1
                &&& errors[0]->EnrollLog_0.level == "error"@
            }
        }),
{
}

/// A line that asks for no code is shown at the level it is given, whichever that is; one that
/// asks for it is shown the same at every level.
pub proof fn law_level_of_shown_line(line: Seq<char>, level: Seq<char>, other: Seq<char>)
    ensures
        asks_for_code(line) ==> emissions_of(line, level) == emissions_of(line, other),
        asks_for_code(line) ==> emissions_of(line, level).len() == 2 && emissions_of(line, level)[0]
            == EmissionView::EnrollLog(LogLineView { line, level: "success"@ }) && emissions_of(
            line,
            level,
        )[1] == EmissionView::EnrollNeedsCode(true),
        !asks_for_code(line) ==> emissions_of(line, level).len() == 1 && emissions_of(
            line,
            level,
        )[0] == EmissionView::EnrollLog(LogLineView { line, level }),
{
}

/// The client is told the issuer behind "--issuer" and the endpoint behind "--endpoint".
/// Overwriting adds a final "--overwrite" and changes nothing else. The client's input can be
/// written, and its environment is left alone.
pub proof fn law_client_command_reads(issuer: Seq<char>, endpoint: Seq<char>)
    ensures
        ({
            let unix = command_of(Platform::Unix, issuer, endpoint, false);
            let windows = command_of(Platform::Windows, issuer, endpoint, false);
            &&& unix.program == "sudo"@
            &&& unix.args.len() == 6
            &&& unix.args[0] == "/var/ossec/bin/wazuh-cert-oauth2-client"@
            &&& unix.args[1] == "o-auth2"@
            &&& unix.args[2] == "--issuer"@
            &&& unix.args[3] == issuer
            &&& unix.args[4] == "--endpoint"@
            &&& unix.args[5] == endpoint
            &&& windows.program == "/var/ossec/bin/wazuh-cert-oauth2-client"@
            &&& windows.args == unix.args.drop_first()
            &&& forall|platform: Platform|
                (#[trigger] command_of(platform, issuer, endpoint, true)).args == command_of(
                    platform,
                    issuer,
                    endpoint,
                    false,
                ).args.push("--overwrite"@)
            &&& forall|platform: Platform, overwrite: bool|
                {
                    let command = #[trigger] command_of(platform, issuer, endpoint, overwrite);
                    &&& command.pipe_stdin
                    &&& command.env.len() == 0
                    &&& command.program == command_of(platform, issuer, endpoint, false).program
                }
        }),
{
    let unix = command_of(Platform::Unix, issuer, endpoint, false);
    let windows = command_of(Platform::Windows, issuer, endpoint, false);
    assert(windows.args =~= unix.args.drop_first());
    assert forall|platform: Platform|
        (#[trigger] command_of(platform, issuer, endpoint, true)).args == command_of(
            platform,
            issuer,
            endpoint,
            false,
        ).args.push("--overwrite"@) by {
        assert(command_of(platform, issuer, endpoint, true).args =~= command_of(
            platform,
            issuer,
            endpoint,
            false,
        ).args.push("--overwrite"@));
    }
}

/// A client that started is read from, and one whose end is known is dealt with by that end;
/// otherwise the enrollment gives up with what went wrong.
pub proof fn law_client_steps(report: ExitReport, detail: Seq<char>)
    ensures
        step_after_spawn(Ok(())) is Stream,
        step_after_spawn(Err(detail)) == EnrollStepView::Fail(
            "Failed to start enrollment: "@ + detail,
        ),
        step_after_wait(Ok(report)) == EnrollStepView::Drain(report),
        step_after_wait(Err(detail)) == EnrollStepView::Fail(
            "Enrollment process error: "@ + detail,
        ),
{
}

/// What a client that is there gets is the user's code and a line break, where the code is taken
/// from what the user typed by leaving out white space at both ends and nothing else.
pub proof fn law_input_is_the_code(typed: Seq<char>)
    ensures
        exists|lead: Seq<char>, code: Seq<char>, trail: Seq<char>|
            {
                &&& #[trigger] text::is_made_of(typed, lead, code, trail)
                &&& text::is_blank(lead)
                &&& text::is_blank(trail)
                &&& code.len() > 0 ==> !text::is_white_space(code[0]) && !text::is_white_space(
                    code[code.len() - 1],
                )
                &&& first_input_step(true, typed) == InputStepView::Write(code.push('\n'))
            },
        first_input_step(false, typed) == InputStepView::Fail("No active enrollment process"@),
{
    reveal_strlit("\n");
    let code = text::trimmed(typed);
    text::law_trim_takes_white_space(typed);
    let (lead, trail) = choose|lead: Seq<char>, trail: Seq<char>|
        #[trigger] text::is_made_of(typed, lead, code, trail) && text::is_blank(lead)
            && text::is_blank(trail);
    assert(input_of(typed) =~= code.push('\n'));
    assert(text::is_made_of(typed, lead, code, trail));
}

/// A code that was written is flushed, and one that was flushed is sent; otherwise what went
/// wrong is the error.
pub proof fn law_input_steps(detail: Seq<char>)
    ensures
        step_after_write(Ok(())) is Flush,
        step_after_write(Err(detail)) == InputStepView::Fail("Failed to send code: "@ + detail),
        sent_after_flush(Ok(())) is Ok,
        sent_after_flush(Err(detail)) == Err::<(), Seq<char>>("Failed to flush stdin: "@ + detail),
{
}

/// The model of a step is of the same kind and carries the same.
pub proof fn law_step_is_what_it_carries(report: ExitReport, carried: String)
    ensures
        EnrollStep::Stream@ is Stream,
        EnrollStep::Drain(report)@ == EnrollStepView::Drain(report),
        EnrollStep::Fail(carried)@ == EnrollStepView::Fail(carried@),
        InputStep::Write(carried)@ == InputStepView::Write(carried@),
        InputStep::Flush@ is Flush,
        InputStep::Fail(carried)@ == InputStepView::Fail(carried@),
{
}

/// A slot is held exactly while there is a stream in it.
pub proof fn law_slot_is_held_with_stream<S>(slot: InputSlot<S>)
    ensures
        slot.held() <==> slot.stream is Some,
{
}

} // verus!
