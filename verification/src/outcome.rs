//! How a child process ended, and what the user is told of it.

use crate::log::{LogLine, LogLineView};
use vstd::prelude::*;

verus! {

/// How a child process ended.
#[derive(Debug, Clone, Copy, PartialEq, Eq)]
pub struct ExitReport {
    /// The exit code, where the process ended with one.
    pub code: Option<i32>,
    /// Whether the system counts the end as a success.
    pub success: bool,
}

/// The reply of an outside operation, its error given as text.
pub open spec fn reply<T>(outcome: Result<T, String>) -> Result<T, Seq<char>> {
    match outcome {
        Ok(value) => Ok(value),
        Err(detail) => Err(detail@),
    }
}

/// The reply of an outside operation that gives a text, its error given as text.
pub open spec fn text_reply(outcome: Result<String, String>) -> Result<Seq<char>, Seq<char>> {
    match outcome {
        Ok(value) => Ok(value@),
        Err(detail) => Err(detail@),
    }
}

/// The exit code shown for a process, -1 standing for none.
pub open spec fn shown_code(report: ExitReport) -> int {
    match report.code {
        Some(code) => code as int,
        None => -1,
    }
}

/// What the user is told at the end of an installation or an enrollment.
#[derive(Debug, Clone, PartialEq, Eq)]
pub struct InstallResult {
    pub success: bool,
    pub exit_code: i32,
    pub message: String,
}

/// The model of an [`InstallResult`].
#[verifier::ext_equal]
pub struct InstallResultView {
    pub success: bool,
    pub exit_code: int,
    pub message: Seq<char>,
}

impl View for InstallResult {
    type V = InstallResultView;

    open spec fn view(&self) -> InstallResultView {
        InstallResultView {
            success: self.success,
            exit_code: self.exit_code as int,
            message: self.message@,
        }
    }
}

/// A message to the user interface.
#[derive(Debug, Clone, PartialEq, Eq)]
pub enum Emission {
    InstallLog(LogLine),
    InstallDone(InstallResult),
    EnrollLog(LogLine),
    EnrollNeedsCode(bool),
}

/// The model of an [`Emission`].
#[verifier::ext_equal]
pub enum EmissionView {
    InstallLog(LogLineView),
    InstallDone(InstallResultView),
    EnrollLog(LogLineView),
    EnrollNeedsCode(bool),
}

impl View for Emission {
    type V = EmissionView;

    open spec fn view(&self) -> EmissionView {
        match self {
            Emission::InstallLog(entry) => EmissionView::InstallLog(entry@),
            Emission::InstallDone(result) => EmissionView::InstallDone(result@),
            Emission::EnrollLog(entry) => EmissionView::EnrollLog(entry@),
            Emission::EnrollNeedsCode(needed) => EmissionView::EnrollNeedsCode(*needed),
        }
    }
}

/// The models of emissions, in their order.
pub open spec fn views(emissions: Seq<Emission>) -> Seq<EmissionView> {
    emissions.map_values(|emission: Emission| emission@)
}

/// The name of the event under which the user interface listens for an emission.
pub open spec fn event_of(emission: EmissionView) -> Seq<char> {
    match emission {
        EmissionView::InstallLog(_) => "install-log"@,
        EmissionView::InstallDone(_) => "install-done"@,
        EmissionView::EnrollLog(_) => "enroll-log"@,
        EmissionView::EnrollNeedsCode(_) => "enroll-needs-code"@,
    }
}

impl Emission {
    /// The name of the event under which the user interface listens for this emission.
    pub fn event(&self) -> (name: &'static str)
        ensures
            name@ == event_of(self@),
    {
        match self {
            Emission::InstallLog(_) => "install-log",
            Emission::InstallDone(_) => "install-done",
            Emission::EnrollLog(_) => "enroll-log",
            Emission::EnrollNeedsCode(_) => "enroll-needs-code",
        }
    }
}

/// Distinct kinds of emission go out under distinct event names.
pub proof fn law_event_tells_kind(a: EmissionView, b: EmissionView)
    requires
        event_of(a) == event_of(b),
    ensures
        a is InstallLog <==> b is InstallLog,
        a is InstallDone <==> b is InstallDone,
        a is EnrollLog <==> b is EnrollLog,
        a is EnrollNeedsCode <==> b is EnrollNeedsCode,
{
    reveal_strlit("install-log");
    reveal_strlit("install-done");
    reveal_strlit("enroll-log");
    reveal_strlit("enroll-needs-code");
    assert("install-log"@.len() == 11 && "install-done"@.len() == 12);
    assert("enroll-log"@.len() == 10 && "enroll-needs-code"@.len() == 17);
}

/// The name of an event goes by the kind of emission alone.
pub proof fn law_kind_fixes_event(a: EmissionView, b: EmissionView)
    ensures
        a is InstallLog ==> event_of(a) == "install-log"@,
        a is InstallDone ==> event_of(a) == "install-done"@,
        a is EnrollLog ==> event_of(a) == "enroll-log"@,
        a is EnrollNeedsCode ==> event_of(a) == "enroll-needs-code"@,
        a is InstallLog && b is InstallLog ==> event_of(a) == event_of(b),
        a is InstallDone && b is InstallDone ==> event_of(a) == event_of(b),
        a is EnrollLog && b is EnrollLog ==> event_of(a) == event_of(b),
        a is EnrollNeedsCode && b is EnrollNeedsCode ==> event_of(a) == event_of(b),
{
}

/// The code that is shown is the one that the process ended with, and -1 for a process that
/// ended with none, whether or not the end counts as a success.
pub proof fn law_code_is_shown(a: ExitReport, b: ExitReport)
    ensures
        a.code is None ==> shown_code(a) + 1 == 0,
        forall|code: i32| a.code == Some(code) ==> shown_code(a) == code,
        a.code == b.code ==> shown_code(a) == shown_code(b),
{
}

/// A reply keeps its value, and an error its text.
pub proof fn law_reply_keeps_text<T>(outcome: Result<T, String>, texts: Result<String, String>)
    ensures
        reply(outcome) is Ok <==> outcome is Ok,
        outcome is Ok ==> reply(outcome)->Ok_0 == outcome->Ok_0,
        outcome is Err ==> reply(outcome)->Err_0 == outcome->Err_0@,
        text_reply(texts) is Ok <==> texts is Ok,
        texts is Ok ==> text_reply(texts)->Ok_0 == texts->Ok_0@,
        texts is Err ==> text_reply(texts)->Err_0 == texts->Err_0@,
{
}

/// The model of a result is its three fields.
pub proof fn law_result_is_its_fields(result: InstallResult)
    ensures
        result@.success == result.success,
        result@.exit_code == result.exit_code,
        result@.message == result.message@,
{
}

/// The model of an emission is of the same kind and carries the same.
pub proof fn law_emission_is_what_it_carries(
    entry: LogLine,
    result: InstallResult,
    needed: bool,
    emissions: Seq<Emission>,
)
    ensures
        Emission::InstallLog(entry)@ == EmissionView::InstallLog(entry@),
        Emission::InstallDone(result)@ == EmissionView::InstallDone(result@),
        Emission::EnrollLog(entry)@ == EmissionView::EnrollLog(entry@),
        Emission::EnrollNeedsCode(needed)@ == EmissionView::EnrollNeedsCode(needed),
        views(emissions).len() == emissions.len(),
        forall|k: int|
            0 <= k < emissions.len() ==> #[trigger] views(emissions)[k] == emissions[k]@,
{
}

} // verus!
