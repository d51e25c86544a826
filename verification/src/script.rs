//! The course of finding the bundled setup script.
//!
//! An executable script is used where it stands. Any other is copied to the directory for
//! temporary files and made executable there. The outside work is done by the caller, one
//! [`ScriptStep`] at a time.
//!
//! A path is known here by its text, `None` standing for a path that is not valid UTF-8.

use crate::command::Platform;
use crate::outcome;
use crate::text;
use vstd::prelude::*;

verus! {

/// The permission bits that a copied script gets.
pub const COPY_MODE: u32 = 0o755;

/// What the caller does next to find the script.
#[derive(Debug, PartialEq, Eq)]
pub enum ScriptStep {
    /// Read the permission bits of the bundled script, whose path has this text, then
    /// [`script_inspected`].
    Inspect(Option<String>),
    /// Copy the script to a file of this name among the temporary files, then
    /// [`script_copied`].
    CopyToTemp(String),
    /// Give the copy these permission bits, then [`script_permitted`].
    SetMode(u32),
    /// The script to run, or why there is none.
    Finish(Result<String, String>),
}

/// The model of a [`ScriptStep`].
#[verifier::ext_equal]
pub enum ScriptStepView {
    Inspect(Option<Seq<char>>),
    CopyToTemp(Seq<char>),
    SetMode(u32),
    Finish(Result<Seq<char>, Seq<char>>),
}

impl View for ScriptStep {
    type V = ScriptStepView;

    open spec fn view(&self) -> ScriptStepView {
        match self {
            ScriptStep::Inspect(path) => ScriptStepView::Inspect(path.deep_view()),
            ScriptStep::CopyToTemp(name) => ScriptStepView::CopyToTemp(name@),
            ScriptStep::SetMode(mode) => ScriptStepView::SetMode(*mode),
            ScriptStep::Finish(found) => ScriptStepView::Finish(outcome::text_reply(*found)),
        }
    }
}

/// The name of the bundled script among the resources.
pub fn bundled_name() -> (name: &'static str)
    ensures
        name@ == "setup-agent.sh"@,
{
    "setup-agent.sh"
}

/// Somebody may execute a file with these permission bits.
pub open spec fn is_executable(mode: u32) -> bool {
    mode & 0o111 != 0
}

/// A path as a script to run: its text, where it has one.
pub open spec fn runnable(path: Option<Seq<char>>) -> Result<Seq<char>, Seq<char>> {
    match path {
        Some(path) => Ok(path),
        None => Err("Script path contains invalid UTF-8"@),
    }
}

fn runnable_text(path: Option<String>) -> (found: Result<String, String>)
    ensures
        outcome::text_reply(found) == runnable(path.deep_view()),
{
    match path {
        Some(path) => Ok(path),
        None => Err("Script path contains invalid UTF-8".to_string()),
    }
}

/// The step after the search among the resources.
pub open spec fn step_after_locate(
    platform: Platform,
    located: Result<Option<Seq<char>>, Seq<char>>,
) -> ScriptStepView {
    match located {
        Err(detail) => ScriptStepView::Finish(Err("Failed to resolve resource path: "@ + detail)),
        Ok(path) => match platform {
            Platform::Unix => ScriptStepView::Inspect(path),
            Platform::Windows => ScriptStepView::Finish(runnable(path)),
        },
    }
}

/// The step after the look at the permission bits, which may be unreadable.
pub open spec fn step_after_inspect(
    path: Option<Seq<char>>,
    mode: Option<u32>,
) -> ScriptStepView {
    match mode {
        Some(mode) if is_executable(mode) => ScriptStepView::Finish(runnable(path)),
        _ => ScriptStepView::CopyToTemp("wazuh-setup-agent.sh"@),
    }
}

/// The step after the copy.
pub open spec fn step_after_copy(copied: Result<(), Seq<char>>) -> ScriptStepView {
    match copied {
        Ok(_) => ScriptStepView::SetMode(COPY_MODE),
        Err(detail) => ScriptStepView::Finish(
            Err("Failed to copy script to temp dir: "@ + detail),
        ),
    }
}

/// What was found, once the copy's permission bits are dealt with.
pub open spec fn found_after_permit(
    path: Option<Seq<char>>,
    permitted: Result<(), Seq<char>>,
) -> Result<Seq<char>, Seq<char>> {
    match permitted {
        Ok(_) => runnable(path),
        Err(detail) => Err("Failed to set script permissions: "@ + detail),
    }
}

/// The texts of where the bundled script was located, or of why it was not.
pub open spec fn path_reply(
    located: Result<Option<String>, String>,
) -> Result<Option<Seq<char>>, Seq<char>> {
    match located {
        Ok(path) => Ok(path.deep_view()),
        Err(detail) => Err(detail@),
    }
}

/// Goes on with the path of the bundled script, or with why it has none.
pub fn script_located(platform: Platform, located: Result<Option<String>, String>) -> (step:
    ScriptStep)
    ensures
        step@ == step_after_locate(platform, path_reply(located)),
{
    match located {
        Err(detail) => ScriptStep::Finish(
            Err(text::joined("Failed to resolve resource path: ", detail.as_str())),
        ),
        Ok(path) => match platform {
            Platform::Unix => ScriptStep::Inspect(path),
            Platform::Windows => ScriptStep::Finish(runnable_text(path)),
        },
    }
}

/// Goes on with the permission bits of the bundled script at `path`, `None` where they cannot
/// be read.
pub fn script_inspected(path: Option<String>, mode: Option<u32>) -> (step: ScriptStep)
    ensures
        step@ == step_after_inspect(path.deep_view(), mode),
{
    match mode {
        Some(mode) if mode & 0o111 != 0 => ScriptStep::Finish(runnable_text(path)),
        _ => ScriptStep::CopyToTemp("wazuh-setup-agent.sh".to_string()),
    }
}

/// Goes on with the copy, or with why there is none.
pub fn script_copied(copied: Result<(), String>) -> (step: ScriptStep)
    ensures
        step@ == step_after_copy(outcome::reply(copied)),
{
    match copied {
        Ok(_) => ScriptStep::SetMode(COPY_MODE),
        Err(detail) => ScriptStep::Finish(
            Err(text::joined("Failed to copy script to temp dir: ", detail.as_str())),
        ),
    }
}

/// Ends with the copy at `path`, or with why it could not be made executable.
pub fn script_permitted(path: Option<String>, permitted: Result<(), String>) -> (found: Result<
    String,
    String,
>)
    ensures
        outcome::text_reply(found) == found_after_permit(
            path.deep_view(),
            outcome::reply(permitted),
        ),
{
    match permitted {
        Ok(_) => runnable_text(path),
        Err(detail) => Err(text::joined("Failed to set script permissions: ", detail.as_str())),
    }
}

/// What the outside replies in the course of finding the script, as far as it is asked.
pub struct ScriptReplies {
    pub located: Result<Option<Seq<char>>, Seq<char>>,
    pub mode: Option<u32>,
    pub copied: Result<(), Seq<char>>,
    pub permitted: Result<(), Seq<char>>,
    pub copy_path: Option<Seq<char>>,
}

/// A course of finding the script: whether a copy was asked for, and what was found.
#[verifier::ext_equal]
pub struct ScriptRun {
    pub copy_asked: bool,
    pub found: Result<Seq<char>, Seq<char>>,
}

/// How many outside operations may still be asked for.
pub open spec fn steps_left(step: ScriptStepView) -> nat {
    match step {
        ScriptStepView::Inspect(_) => 3,
        ScriptStepView::CopyToTemp(_) => 2,
        ScriptStepView::SetMode(_) => 1,
        ScriptStepView::Finish(_) => 0,
    }
}

/// The course from a step on.
pub open spec fn run_from(
    replies: ScriptReplies,
    copy_asked: bool,
    step: ScriptStepView,
) -> ScriptRun
    decreases steps_left(step),
{
    match step {
        ScriptStepView::Inspect(path) => run_from(
            replies,
            copy_asked,
            step_after_inspect(path, replies.mode),
        ),
        ScriptStepView::CopyToTemp(_) => run_from(replies, true, step_after_copy(replies.copied)),
        ScriptStepView::SetMode(_) => ScriptRun {
            copy_asked,
            found: found_after_permit(replies.copy_path, replies.permitted),
        },
        ScriptStepView::Finish(found) => ScriptRun { copy_asked, found },
    }
}

/// The course of finding the script.
pub open spec fn run_of(platform: Platform, replies: ScriptReplies) -> ScriptRun {
    run_from(replies, false, step_after_locate(platform, replies.located))
}

/// A script that is executable already is used where it stands, without a copy. So is any
/// script on Windows.
pub proof fn law_executable_used_in_place(platform: Platform, replies: ScriptReplies)
    requires
        replies.located is Ok,
        platform == Platform::Windows || (replies.mode matches Some(mode) && is_executable(mode)),
    ensures
        run_of(platform, replies) == (ScriptRun {
            copy_asked: false,
            found: runnable(replies.located->Ok_0),
        }),
{
    reveal_with_fuel(run_from, 3);
}

/// A script that is not executable, or whose permission bits cannot be read, is copied, and the
/// copy is what runs; where the copy fails, that is the error.
pub proof fn law_other_script_copied(replies: ScriptReplies)
    requires
        replies.located is Ok,
        !(replies.mode matches Some(mode) && is_executable(mode)),
    ensures
        run_of(Platform::Unix, replies) == (ScriptRun {
            copy_asked: true,
            found: match (replies.copied, replies.permitted) {
                (Err(detail), _) => Err("Failed to copy script to temp dir: "@ + detail),
                (Ok(_), Err(detail)) => Err("Failed to set script permissions: "@ + detail),
                (Ok(_), Ok(_)) => runnable(replies.copy_path),
            },
        }),
{
    reveal_with_fuel(run_from, 4);
}

/// A script that is not among the resources is an error, whatever else holds.
pub proof fn law_missing_script_fails(platform: Platform, replies: ScriptReplies)
    requires
        replies.located is Err,
    ensures
        run_of(platform, replies) == (ScriptRun {
            copy_asked: false,
            found: Err("Failed to resolve resource path: "@ + replies.located->Err_0),
        }),
{
    reveal_with_fuel(run_from, 2);
}

/// The permission bits that a copy gets make it executable.
pub proof fn law_copy_is_executable()
    ensures
        is_executable(COPY_MODE),
{
    assert(0o755u32 & 0o111 != 0) by (bit_vector);
}

/// A file: what it holds, and its permission bits.
pub struct ScriptFile {
    pub content: Seq<u8>,
    pub mode: u32,
}

/// The two distinct files that a search deals with: the bundled script, and its copy where
/// there is one.
pub struct ScriptFiles {
    pub resource: ScriptFile,
    pub copy: Option<ScriptFile>,
}

/// Where the two files stand, and whether permission bits can be read.
pub struct ScriptPlaces {
    pub resource: Option<Seq<char>>,
    pub copy: Option<Seq<char>>,
    pub mode_readable: bool,
}

/// What the outside replies about these files where every operation on them succeeds.
pub open spec fn replies_about(places: ScriptPlaces, files: ScriptFiles) -> ScriptReplies {
    ScriptReplies {
        located: Ok(places.resource),
        mode: if places.mode_readable {
            Some(files.resource.mode)
        } else {
            None
        },
        copied: Ok(()),
        permitted: Ok(()),
        copy_path: places.copy,
    }
}

/// The files after the course from a step on, where every operation on them succeeds.
pub open spec fn files_from(
    places: ScriptPlaces,
    files: ScriptFiles,
    step: ScriptStepView,
) -> ScriptFiles
    decreases steps_left(step),
{
    let replies = replies_about(places, files);
    match step {
        ScriptStepView::Inspect(path) => files_from(
            places,
            files,
            step_after_inspect(path, replies.mode),
        ),
        ScriptStepView::CopyToTemp(_) => files_from(
            places,
            ScriptFiles { copy: Some(files.resource), ..files },
            step_after_copy(replies.copied),
        ),
        ScriptStepView::SetMode(mode) => match files.copy {
            Some(copy) => ScriptFiles { copy: Some(ScriptFile { mode, ..copy }), ..files },
            None => files,
        },
        ScriptStepView::Finish(_) => files,
    }
}

/// The files after the course of finding the script, where every operation on them succeeds.
pub open spec fn files_after(
    platform: Platform,
    places: ScriptPlaces,
    files: ScriptFiles,
) -> ScriptFiles {
    files_from(
        places,
        files,
        step_after_locate(platform, replies_about(places, files).located),
    )
}

/// A search leaves the bundled script as it was. Where it copies, the copy holds what the
/// bundled script holds, with the bits of a copy; where it does not, the copy stays as it was.
pub proof fn law_search_makes_copy(
    platform: Platform,
    places: ScriptPlaces,
    files: ScriptFiles,
)
    ensures
        ({
            let run = run_of(platform, replies_about(places, files));
            let after = files_after(platform, places, files);
            &&& after.resource == files.resource
            &&& after.copy == if run.copy_asked {
                Some(ScriptFile { content: files.resource.content, mode: COPY_MODE })
            } else {
                files.copy
            }
        }),
{
    reveal_with_fuel(run_from, 4);
    reveal_with_fuel(files_from, 4);
}

/// A second search, with nothing changed since the first, ends with the same path, and leaves
/// both files with the same content and permission bits.
pub proof fn law_second_search_agrees(
    platform: Platform,
    places: ScriptPlaces,
    files: ScriptFiles,
)
    ensures
        ({
            let after = files_after(platform, places, files);
            &&& run_of(platform, replies_about(places, after)) == run_of(
                platform,
                replies_about(places, files),
            )
            &&& files_after(platform, places, after) == after
        }),
{
    reveal_with_fuel(run_from, 4);
    reveal_with_fuel(files_from, 4);
}

/// Whether a script counts as executable goes by three bits of its mode: the one that lets the
/// owner execute it, the one that lets the group, and the one that lets the others. The kind of
/// the file and all other bits make no difference.
pub proof fn law_execute_bits_decide(mode: u32, other: u32)
    ensures
        is_executable(mode) <==> (mode / 64) % 2 == 1 || (mode / 8) % 2 == 1 || mode % 2 == 1,
        mode % 512 == other % 512 ==> is_executable(mode) == is_executable(other),
{
    assert(mode & 0o111 != 0 <==> (mode / 64) % 2 == 1 || (mode / 8) % 2 == 1 || mode % 2 == 1)
        by (bit_vector);
    assert(other & 0o111 != 0 <==> (other / 64) % 2 == 1 || (other / 8) % 2 == 1 || other % 2 == 1)
        by (bit_vector);
    assert(mode % 512 == other % 512 ==> (mode / 64) % 2 == (other / 64) % 2 && (mode / 8) % 2 == (
    other / 8) % 2 && mode % 2 == other % 2) by (bit_vector);
}

/// A script that the owner, the group or the others may execute is used where it stands; any
/// other, and one whose mode is not known, is copied to "wazuh-setup-agent.sh".
pub proof fn law_mode_decides_step(path: Option<Seq<char>>, mode: u32)
    ensures
        (mode / 64) % 2 == 0 && (mode / 8) % 2 == 0 && mode % 2 == 0 ==> step_after_inspect(
            path,
            Some(mode),
        ) == ScriptStepView::CopyToTemp("wazuh-setup-agent.sh"@),
        (mode / 64) % 2 == 1 || (mode / 8) % 2 == 1 || mode % 2 == 1 ==> step_after_inspect(
            path,
            Some(mode),
        ) == ScriptStepView::Finish(runnable(path)),
        step_after_inspect(path, None) == ScriptStepView::CopyToTemp("wazuh-setup-agent.sh"@),
{
    law_execute_bits_decide(mode, mode);
}

/// A path that has a text is run under that very text; only a path without one is refused.
pub proof fn law_path_runs_as_it_reads(path: Option<Seq<char>>)
    ensures
        runnable(path) is Ok <==> path is Some,
        path is Some ==> runnable(path)->Ok_0 == path->Some_0,
        path is None ==> runnable(path)->Err_0 == "Script path contains invalid UTF-8"@,
{
}

/// A bundled script is looked at on Unix and taken on Windows, under the path that it was
/// located at; one that was not located ends the search with why it was not.
pub proof fn law_located_script_goes_on(path: Option<Seq<char>>, detail: Seq<char>)
    ensures
        step_after_locate(Platform::Unix, Ok(path)) == ScriptStepView::Inspect(path),
        step_after_locate(Platform::Windows, Ok(path)) == ScriptStepView::Finish(runnable(path)),
        forall|platform: Platform|
            #[trigger] step_after_locate(platform, Err(detail)) == ScriptStepView::Finish(
                Err("Failed to resolve resource path: "@ + detail),
            ),
{
}

/// The owner of a copy may read, write and execute it, and everybody else may read and execute
/// it: these bits are asked for after every copy that was made, and no others.
pub proof fn law_copy_gets_its_bits(detail: Seq<char>)
    ensures
        step_after_copy(Ok(())) matches ScriptStepView::SetMode(mode) && {
            &&& mode / 64 == 7
            &&& (mode / 8) % 8 == 5
            &&& mode % 8 == 5
        },
        step_after_copy(Err(detail)) == ScriptStepView::Finish(
            Err("Failed to copy script to temp dir: "@ + detail),
        ),
{
}

/// A copy that was made executable is what runs; one that was not is an error.
pub proof fn law_permitted_copy_runs(path: Option<Seq<char>>, detail: Seq<char>)
    ensures
        found_after_permit(path, Ok(())) == runnable(path),
        found_after_permit(path, Err(detail)) == Err::<Seq<char>, Seq<char>>(
            "Failed to set script permissions: "@ + detail,
        ),
{
}

/// The model of a step is of the same kind and carries the same texts.
pub proof fn law_step_is_what_it_carries(
    path: String,
    detail: String,
    mode: u32,
    located: Result<Option<String>, String>,
)
    ensures
        ScriptStep::Inspect(Some(path))@ == ScriptStepView::Inspect(Some(path@)),
        ScriptStep::Inspect(None)@ == ScriptStepView::Inspect(None),
        ScriptStep::CopyToTemp(path)@ == ScriptStepView::CopyToTemp(path@),
        ScriptStep::SetMode(mode)@ == ScriptStepView::SetMode(mode),
        ScriptStep::Finish(Ok(path))@ == ScriptStepView::Finish(Ok(path@)),
        ScriptStep::Finish(Err(detail))@ == ScriptStepView::Finish(Err(detail@)),
        located is Ok <==> path_reply(located) is Ok,
        located matches Ok(Some(text)) ==> path_reply(located)->Ok_0 == Some(text@),
        located matches Ok(None) ==> path_reply(located)->Ok_0 is None,
        located matches Err(text) ==> path_reply(located)->Err_0 == text@,
{
}

} // verus!
