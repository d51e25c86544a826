//! Log lines and their levels.

use crate::text;
use vstd::prelude::*;

verus! {

/// A line of a child process's output, with the level under which it is shown.
#[derive(Debug, Clone, PartialEq, Eq)]
pub struct LogLine {
    pub line: String,
    /// "info", "error" or "success".
    pub level: String,
}

/// The texts of a [`LogLine`].
#[verifier::ext_equal]
pub struct LogLineView {
    pub line: Seq<char>,
    pub level: Seq<char>,
}

impl View for LogLine {
    type V = LogLineView;

    open spec fn view(&self) -> LogLineView {
        LogLineView { line: self.line@, level: self.level@ }
    }
}

/// A line of a child process's output, from its output stream or from its error stream.
pub enum OutputLine {
    Output(Seq<char>),
    Errors(Seq<char>),
}

impl OutputLine {
    /// The text of the line.
    pub open spec fn text(self) -> Seq<char> {
        match self {
            OutputLine::Output(text) => text,
            OutputLine::Errors(text) => text,
        }
    }
}

/// The three levels there are.
pub open spec fn is_level(level: Seq<char>) -> bool {
    level == "info"@ || level == "error"@ || level == "success"@
}

/// A line in lower case tells of an error.
pub open spec fn tells_error(lowered: Seq<char>) -> bool {
    ||| text::occurs_in("[error]"@, lowered)
    ||| text::occurs_in("failed"@, lowered)
    ||| text::occurs_in("error:"@, lowered)
}

/// A line in lower case tells of a success.
pub open spec fn tells_success(lowered: Seq<char>) -> bool {
    ||| text::occurs_in("[success]"@, lowered)
    ||| text::occurs_in("successfully"@, lowered)
    ||| text::occurs_in("completed"@, lowered)
}

/// The level of a line, given in lower case.
pub open spec fn level_of(lowered: Seq<char>) -> Seq<char> {
    if tells_error(lowered) {
        "error"@
    } else if tells_success(lowered) {
        "success"@
    } else {
        "info"@
    }
}

/// The level of a line that is in lower case already.
pub fn classify_lowered(lowered: &str) -> (level: &'static str)
    ensures
        level@ == level_of(lowered@),
        is_level(level@),
{
    if text::contains(lowered, "[error]") || text::contains(lowered, "failed")
        || text::contains(lowered, "error:") {
        "error"
    } else if text::contains(lowered, "[success]") || text::contains(lowered, "successfully")
        || text::contains(lowered, "completed") {
        "success"
    } else {
        "info"
    }
}

/// The level of a line of output, whatever the case of its letters: "error" where it tells of
/// an error, else "success" where it tells of a success, else "info".
pub fn classify_line(line: &str) -> (level: &'static str)
    ensures
        level@ == level_of(text::lowercase(line@)),
        vstd::utf8::is_ascii_chars(line@) ==> level@ == level_of(text::ascii_lowercase(line@)),
        level@ == level_of(text::lowercase(text::ascii_uppercase(line@))),
        level@ == level_of(text::lowercase(text::ascii_lowercase(line@))),
        is_level(level@),
{
    let lowered: String = line.to_lowercase();
    classify_lowered(lowered.as_str())
}

/// Every line has one of the three levels.
pub proof fn law_every_line_has_level(lowered: Seq<char>)
    ensures
        is_level(level_of(lowered)),
{
}

/// An error outweighs a success: a line that tells of both has level "error".
pub proof fn law_error_outweighs_success(lowered: Seq<char>)
    requires
        tells_error(lowered),
        tells_success(lowered),
    ensures
        level_of(lowered) == "error"@,
{
}

/// Changing the case of ASCII letters in a line does not change its level: lines that are the
/// same up to the case of these letters have the same level, which [`classify_line`] gives of
/// any line as the level of its lower case with the ASCII letters lowered first, and of an
/// ASCII line as the level of the line with these letters lowered.
pub proof fn law_ascii_case_is_ignored(a: Seq<char>, b: Seq<char>)
    requires
        a.len() == b.len(),
        forall|i: int|
            0 <= i < a.len() ==> text::ascii_lower(#[trigger] a[i]) == text::ascii_lower(b[i]),
    ensures
        level_of(text::lowercase(text::ascii_lowercase(a))) == level_of(
            text::lowercase(text::ascii_lowercase(b)),
        ),
        level_of(text::ascii_lowercase(a)) == level_of(text::ascii_lowercase(b)),
        vstd::utf8::is_ascii_chars(a) == vstd::utf8::is_ascii_chars(b),
{
    assert(text::ascii_lowercase(a) =~= text::ascii_lowercase(b));
    if vstd::utf8::is_ascii_chars(a) {
        assert forall|i: int| 0 <= i < b.len() implies '\0' <= #[trigger] b[i] <= '\u{7f}' by {
            assert('\0' <= a[i] <= '\u{7f}');
            assert(text::ascii_lower(a[i]) == text::ascii_lower(b[i]));
        }
    }
    if vstd::utf8::is_ascii_chars(b) {
        assert forall|i: int| 0 <= i < a.len() implies '\0' <= #[trigger] a[i] <= '\u{7f}' by {
            assert('\0' <= b[i] <= '\u{7f}');
            assert(text::ascii_lower(a[i]) == text::ascii_lower(b[i]));
        }
    }
}

/// A line, the line in upper case and the line in lower case, as far as its letters are ASCII,
/// have the same level.
pub proof fn law_level_of_either_case(line: Seq<char>)
    ensures
        ({
            let upper = text::ascii_uppercase(line);
            let lower = text::ascii_lowercase(line);
            let level = level_of(text::lowercase(text::ascii_lowercase(line)));
            &&& level_of(text::lowercase(text::ascii_lowercase(upper))) == level
            &&& level_of(text::lowercase(text::ascii_lowercase(lower))) == level
        }),
{
    law_ascii_case_is_ignored(line, text::ascii_uppercase(line));
    law_ascii_case_is_ignored(line, text::ascii_lowercase(line));
}

/// How much a level weighs: "info" least, "error" most.
pub open spec fn rank(level: Seq<char>) -> int {
    if level == "error"@ {
        2
    } else if level == "success"@ {
        1
    } else {
        0
    }
}

/// Adding text before or after a line, both in lower case, never lowers its level.
pub proof fn law_added_text_never_lowers_level(a: Seq<char>, b: Seq<char>)
    ensures
        rank(level_of(a + b)) >= rank(level_of(a)),
        rank(level_of(a + b)) >= rank(level_of(b)),
{
    lemma_markers_kept(a, b);
    lemma_markers_kept(b, a);
    reveal_strlit("info");
    reveal_strlit("error");
    reveal_strlit("success");
    assert("info"@.len() == 4 && "error"@.len() == 5 && "success"@.len() == 7);
}

proof fn lemma_markers_kept(line: Seq<char>, more: Seq<char>)
    ensures
        tells_error(line) ==> tells_error(line + more) && tells_error(more + line),
        tells_success(line) ==> tells_success(line + more) && tells_success(more + line),
{
    if tells_error(line) {
        let marker = if text::occurs_in("[error]"@, line) {
            "[error]"@
        } else if text::occurs_in("failed"@, line) {
            "failed"@
        } else {
            "error:"@
        };
        text::lemma_occurrence_in_longer_text(marker, line, more);
    }
    if tells_success(line) {
        let marker = if text::occurs_in("[success]"@, line) {
            "[success]"@
        } else if text::occurs_in("successfully"@, line) {
            "successfully"@
        } else {
            "completed"@
        };
        text::lemma_occurrence_in_longer_text(marker, line, more);
    }
}

/// Adding text before or after an ASCII line never lowers its level, whatever the case of the
/// letters.
pub proof fn law_added_ascii_never_lowers_level(a: Seq<char>, b: Seq<char>)
    requires
        vstd::utf8::is_ascii_chars(a),
        vstd::utf8::is_ascii_chars(b),
    ensures
        vstd::utf8::is_ascii_chars(a + b),
        rank(level_of(text::ascii_lowercase(a + b))) >= rank(level_of(text::ascii_lowercase(a))),
        rank(level_of(text::ascii_lowercase(a + b))) >= rank(level_of(text::ascii_lowercase(b))),
{
    let low_a = text::ascii_lowercase(a);
    let low_b = text::ascii_lowercase(b);
    assert(text::ascii_lowercase(a + b) =~= low_a + low_b);
    law_added_text_never_lowers_level(low_a, low_b);
}

/// A marker of an error, in the case that the classification looks for.
pub open spec fn is_error_marker(marker: Seq<char>) -> bool {
    marker == "[error]"@ || marker == "failed"@ || marker == "error:"@
}

/// A marker of a success, in the case that the classification looks for.
pub open spec fn is_success_marker(marker: Seq<char>) -> bool {
    marker == "[success]"@ || marker == "successfully"@ || marker == "completed"@
}

/// A line that holds an error marker, with its letters in any mix of cases, has level "error".
pub proof fn law_error_marker_in_any_case(line: Seq<char>, marker: Seq<char>)
    requires
        text::occurs_in(marker, line),
        is_error_marker(text::ascii_lowercase(marker)),
    ensures
        level_of(text::ascii_lowercase(line)) == "error"@,
{
    text::lemma_lowercase_keeps_occurrence(marker, line);
}

/// A line that holds a success marker, with its letters in any mix of cases, and tells of no
/// error has level "success".
pub proof fn law_success_marker_in_any_case(line: Seq<char>, marker: Seq<char>)
    requires
        text::occurs_in(marker, line),
        is_success_marker(text::ascii_lowercase(marker)),
        !tells_error(text::ascii_lowercase(line)),
    ensures
        level_of(text::ascii_lowercase(line)) == "success"@,
{
    text::lemma_lowercase_keeps_occurrence(marker, line);
}

/// A line, given in lower case, has level "error" exactly where it has "[error]", "failed" or
/// "error:" as a part; of the others, level "success" exactly where it has "[success]",
/// "successfully" or "completed" as a part; and level "info" exactly where it has none of the
/// six.
pub proof fn law_level_goes_by_parts(lowered: Seq<char>)
    ensures
        ({
            let failed = text::holds(lowered, "[error]"@) || text::holds(lowered, "failed"@)
                || text::holds(lowered, "error:"@);
            let done = text::holds(lowered, "[success]"@) || text::holds(
                lowered,
                "successfully"@,
            ) || text::holds(lowered, "completed"@);
            &&& level_of(lowered) == "error"@ <==> failed
            &&& level_of(lowered) == "success"@ <==> done && !failed
            &&& level_of(lowered) == "info"@ <==> !done && !failed
        }),
{
    text::law_search_finds_parts("[error]"@, lowered);
    text::law_search_finds_parts("failed"@, lowered);
    text::law_search_finds_parts("error:"@, lowered);
    text::law_search_finds_parts("[success]"@, lowered);
    text::law_search_finds_parts("successfully"@, lowered);
    text::law_search_finds_parts("completed"@, lowered);
    lemma_levels_differ();
}

proof fn lemma_levels_differ()
    ensures
        "info"@ != "error"@,
        "info"@ != "success"@,
        "error"@ != "success"@,
{
    reveal_strlit("info");
    reveal_strlit("error");
    reveal_strlit("success");
    assert("info"@.len() == 4 && "error"@.len() == 5 && "success"@.len() == 7);
}

/// The level of a line of any case goes by the same six parts, with their letters in any mix of
/// cases: a line with none of them is "info", however it reads otherwise.
pub proof fn law_level_goes_by_parts_in_any_case(line: Seq<char>)
    ensures
        ({
            let level = level_of(text::ascii_lowercase(line));
            let failed = text::holds_in_any_case(line, "[error]"@) || text::holds_in_any_case(
                line,
                "failed"@,
            ) || text::holds_in_any_case(line, "error:"@);
            let done = text::holds_in_any_case(line, "[success]"@) || text::holds_in_any_case(
                line,
                "successfully"@,
            ) || text::holds_in_any_case(line, "completed"@);
            &&& level == "error"@ <==> failed
            &&& level == "success"@ <==> done && !failed
            &&& level == "info"@ <==> !done && !failed
        }),
{
    text::law_word_in_any_case(line, "[error]"@);
    text::law_word_in_any_case(line, "failed"@);
    text::law_word_in_any_case(line, "error:"@);
    text::law_word_in_any_case(line, "[success]"@);
    text::law_word_in_any_case(line, "successfully"@);
    text::law_word_in_any_case(line, "completed"@);
    lemma_levels_differ();
}

/// The model of a log line is its two texts.
pub proof fn law_log_line_is_its_texts(entry: LogLine)
    ensures
        entry@.line == entry.line@,
        entry@.level == entry.level@,
{
}

} // verus!
