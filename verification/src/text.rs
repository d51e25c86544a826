//! Text primitives: searching, comparing, trimming, joining and decimal numerals.
//!
//! A string is modelled by its view, the sequence of its characters.

use vstd::prelude::*;

verus! {

/// `needle` stands in `hay`, starting at position `at`.
pub open spec fn occurs_at(hay: Seq<char>, needle: Seq<char>, at: int) -> bool {
    &&& 0 <= at
    &&& at + needle.len() <= hay.len()
    &&& hay.subrange(at, at + needle.len()) == needle
}

/// `needle` is a contiguous part of `hay`. The empty text is part of every text.
pub open spec fn occurs_in(needle: Seq<char>, hay: Seq<char>) -> bool {
    exists|at: int| #[trigger] occurs_at(hay, needle, at)
}

/// The characters of a string, one by one.
fn chars_of(s: &str) -> (chars: Vec<char>)
    ensures
        chars@ == s@,
{
    let mut chars: Vec<char> = Vec::new();
    for c in it: s.chars()
        invariant
            it.seq() == s@,
            chars@ == s@.take(it.index() as int),
    {
        chars.push(c);
    }
    chars
}

/// Whether `needle` stands in `hay` at position `at`, which leaves room for it.
fn starts_at(hay: &Vec<char>, needle: &Vec<char>, at: usize) -> (res: bool)
    requires
        at + needle@.len() <= hay@.len(),
    ensures
        res == occurs_at(hay@, needle@, at as int),
{
    let hay_len: usize = hay.len();
    let mut k: usize = 0;
    while k < needle.len()
        invariant
            hay_len == hay@.len(),
            at + needle@.len() <= hay@.len(),
            k <= needle@.len(),
            forall|j: int| 0 <= j < k ==> hay@[at + j] == needle@[j],
        decreases needle@.len() - k,
    {
        if hay[at + k] != needle[k] {
            assert(hay@.subrange(at as int, at + needle@.len())[k as int] != needle@[k as int]);
            return false;
        }
        k += 1;
    }
    assert(hay@.subrange(at as int, at + needle@.len()) =~= needle@);
    true
}

/// Whether two strings hold the same characters.
pub fn same(a: &str, b: &str) -> (res: bool)
    ensures
        res == (a@ == b@),
{
    let left: Vec<char> = chars_of(a);
    let right: Vec<char> = chars_of(b);
    if left.len() != right.len() {
        return false;
    }
    assert(left@.subrange(0, right@.len() as int) =~= left@);
    starts_at(&left, &right, 0)
}

/// Whether `needle` is a contiguous part of `hay`.
pub fn contains(hay: &str, needle: &str) -> (res: bool)
    ensures
        res == occurs_in(needle@, hay@),
{
    let hay_chars: Vec<char> = chars_of(hay);
    let needle_chars: Vec<char> = chars_of(needle);
    if needle_chars.len() > hay_chars.len() {
        return false;
    }
    let last: usize = hay_chars.len() - needle_chars.len();
    let mut at: usize = 0;
    while at < last
        invariant
            hay_chars@ == hay@,
            needle_chars@ == needle@,
            last + needle@.len() == hay@.len(),
            at <= last,
            forall|j: int| 0 <= j < at ==> !occurs_at(hay@, needle@, j),
        decreases last - at,
    {
        if starts_at(&hay_chars, &needle_chars, at) {
            return true;
        }
        at += 1;
    }
    starts_at(&hay_chars, &needle_chars, last)
}

/// Two texts, one after the other.
pub fn joined(first: &str, second: &str) -> (res: String)
    ensures
        res@ == first@ + second@,
{
    let mut res: String = first.to_string();
    res.append(second);
    res
}

/// The characters with Unicode's `White_Space` property.
pub open spec fn is_white_space(c: char) -> bool {
    let n: int = c as int;
    ||| 0x09 <= n <= 0x0d
    ||| n == 0x20
    ||| n == 0x85
    ||| n == 0xa0
    ||| n == 0x1680
    ||| 0x2000 <= n <= 0x200a
    ||| n == 0x2028
    ||| n == 0x2029
    ||| n == 0x202f
    ||| n == 0x205f
    ||| n == 0x3000
}

/// Whether a character has Unicode's `White_Space` property.
fn white_space(c: char) -> (res: bool)
    ensures
        res == is_white_space(c),
{
    let n: u32 = c as u32;
    (0x09 <= n && n <= 0x0d) || n == 0x20 || n == 0x85 || n == 0xa0 || n == 0x1680 || (0x2000 <= n
        && n <= 0x200a) || n == 0x2028 || n == 0x2029 || n == 0x202f || n == 0x205f || n == 0x3000
}

/// A text without its leading white space.
pub open spec fn trimmed_start(s: Seq<char>) -> Seq<char>
    decreases s.len(),
{
    if s.len() > 0 && is_white_space(s.first()) {
        trimmed_start(s.drop_first())
    } else {
        s
    }
}

/// A text without its trailing white space.
pub open spec fn trimmed_end(s: Seq<char>) -> Seq<char>
    decreases s.len(),
{
    if s.len() > 0 && is_white_space(s.last()) {
        trimmed_end(s.drop_last())
    } else {
        s
    }
}

/// A text without the white space around it.
pub open spec fn trimmed(s: Seq<char>) -> Seq<char> {
    trimmed_end(trimmed_start(s))
}

/// The part of a string between its leading and its trailing white space.
pub fn trim(s: &str) -> (res: &str)
    ensures
        res@ == trimmed(s@),
{
    let chars: Vec<char> = chars_of(s);
    let mut from: usize = 0;
    assert(s@.skip(0) =~= s@);
    while from < chars.len() && white_space(chars[from])
        invariant
            chars@ == s@,
            from <= s@.len(),
            trimmed_start(s@) == trimmed_start(s@.skip(from as int)),
        decreases s@.len() - from,
    {
        assert(s@.skip(from as int).drop_first() =~= s@.skip(from + 1));
        from += 1;
    }
    let mut to: usize = chars.len();
    assert(s@.subrange(from as int, to as int) =~= s@.skip(from as int));
    while from < to && white_space(chars[to - 1])
        invariant
            chars@ == s@,
            from <= to <= s@.len(),
            trimmed(s@) == trimmed_end(s@.subrange(from as int, to as int)),
        decreases to,
    {
        assert(s@.subrange(from as int, to as int).drop_last() =~= s@.subrange(
            from as int,
            to - 1,
        ));
        to -= 1;
    }
    s.substring_char(from, to)
}

/// All characters of a text are white space.
pub open spec fn is_blank(s: Seq<char>) -> bool {
    forall|i: int| 0 <= i < s.len() ==> is_white_space(#[trigger] s[i])
}

proof fn lemma_blank_before(lead: Seq<char>, s: Seq<char>)
    requires
        is_blank(lead),
    ensures
        trimmed_start(lead + s) == trimmed_start(s),
    decreases lead.len(),
{
    if lead.len() == 0 {
        assert(lead + s =~= s);
    } else {
        assert((lead + s).first() == lead[0]);
        assert((lead + s).drop_first() =~= lead.drop_first() + s);
        lemma_blank_before(lead.drop_first(), s);
    }
}

proof fn lemma_blank_behind(s: Seq<char>, trail: Seq<char>)
    requires
        is_blank(trail),
    ensures
        trimmed_end(s + trail) == trimmed_end(s),
    decreases trail.len(),
{
    if trail.len() == 0 {
        assert(s + trail =~= s);
    } else {
        assert((s + trail).last() == trail.last());
        assert((s + trail).drop_last() =~= s + trail.drop_last());
        lemma_blank_behind(s, trail.drop_last());
    }
}

proof fn lemma_trim_start_of_sum(s: Seq<char>, trail: Seq<char>)
    ensures
        trimmed_start(s + trail) == if trimmed_start(s).len() > 0 {
            trimmed_start(s) + trail
        } else {
            trimmed_start(trail)
        },
    decreases s.len(),
{
    if s.len() == 0 {
        assert(s + trail =~= trail);
    } else {
        assert((s + trail).first() == s.first());
        assert((s + trail).drop_first() =~= s.drop_first() + trail);
        if is_white_space(s.first()) {
            lemma_trim_start_of_sum(s.drop_first(), trail);
        }
    }
}

/// White space around a text makes no difference to the trimmed text.
pub proof fn lemma_trim_ignores_surroundings(lead: Seq<char>, s: Seq<char>, trail: Seq<char>)
    requires
        is_blank(lead),
        is_blank(trail),
    ensures
        trimmed(lead + s + trail) == trimmed(s),
{
    assert(lead + s + trail =~= lead + (s + trail));
    lemma_blank_before(lead, s + trail);
    lemma_trim_start_of_sum(s, trail);
    if trimmed_start(s).len() > 0 {
        lemma_blank_behind(trimmed_start(s), trail);
    } else {
        lemma_blank_before(trail, seq![]);
        assert(trail + seq![] =~= trail);
        assert(trimmed_start(s) =~= seq![]);
    }
}

proof fn lemma_trim_start_front(s: Seq<char>)
    ensures
        trimmed_start(s).len() > 0 ==> !is_white_space(trimmed_start(s).first()),
    decreases s.len(),
{
    if s.len() > 0 && is_white_space(s.first()) {
        lemma_trim_start_front(s.drop_first());
    }
}

proof fn lemma_trim_end_ends(s: Seq<char>)
    ensures
        trimmed_end(s).len() <= s.len(),
        trimmed_end(s) == s.take(trimmed_end(s).len() as int),
        trimmed_end(s).len() > 0 ==> !is_white_space(trimmed_end(s).last()),
    decreases s.len(),
{
    if s.len() > 0 && is_white_space(s.last()) {
        lemma_trim_end_ends(s.drop_last());
        let n = trimmed_end(s).len() as int;
        assert(s.drop_last().take(n) =~= s.take(n));
    } else {
        assert(s.take(s.len() as int) =~= s);
    }
}

/// A trimmed text neither begins nor ends with white space.
pub proof fn lemma_trimmed_ends(s: Seq<char>)
    ensures
        trimmed(s).len() > 0 ==> !is_white_space(trimmed(s).first()) && !is_white_space(
            trimmed(s).last(),
        ),
{
    lemma_trim_start_front(s);
    lemma_trim_end_ends(trimmed_start(s));
}

/// The decimal digit for a number below ten.
pub open spec fn digit(d: int) -> char {
    ('0' as int + d) as char
}

/// The decimal numeral of a natural number, without leading zeros.
pub open spec fn numeral(n: nat) -> Seq<char>
    decreases n,
{
    if n < 10 {
        seq![digit(n as int)]
    } else {
        numeral(n / 10).push(digit(n as int % 10))
    }
}

/// The decimal form of an integer: its numeral, after a minus sign where it is negative.
pub open spec fn decimal(n: int) -> Seq<char> {
    if n < 0 {
        seq!['-'] + numeral((-n) as nat)
    } else {
        numeral(n as nat)
    }
}

fn digit_text(d: u64) -> (res: &'static str)
    requires
        d < 10,
    ensures
        res@ == seq![digit(d as int)],
{
    proof {
        reveal_strlit("0");
        reveal_strlit("1");
        reveal_strlit("2");
        reveal_strlit("3");
        reveal_strlit("4");
        reveal_strlit("5");
        reveal_strlit("6");
        reveal_strlit("7");
        reveal_strlit("8");
        reveal_strlit("9");
    }
    if d == 0 {
        "0"
    } else if d == 1 {
        "1"
    } else if d == 2 {
        "2"
    } else if d == 3 {
        "3"
    } else if d == 4 {
        "4"
    } else if d == 5 {
        "5"
    } else if d == 6 {
        "6"
    } else if d == 7 {
        "7"
    } else if d == 8 {
        "8"
    } else {
        "9"
    }
}

fn append_numeral(out: &mut String, n: u64)
    ensures
        final(out)@ == old(out)@ + numeral(n as nat),
    decreases n,
{
    if n >= 10 {
        append_numeral(out, n / 10);
    }
    out.append(digit_text(n % 10));
}

/// The decimal form of an integer.
pub fn decimal_text(n: i32) -> (res: String)
    ensures
        res@ == decimal(n as int),
{
    let mut res: String = String::new();
    if n < 0 {
        proof {
            reveal_strlit("-");
        }
        res.append("-");
        append_numeral(&mut res, (-(n as i64)) as u64);
    } else {
        append_numeral(&mut res, n as u64);
    }
    res
}

proof fn lemma_numeral_digits(n: nat)
    ensures
        numeral(n).len() > 0,
        numeral(n)[0] != '-',
    decreases n,
{
    if n >= 10 {
        lemma_numeral_digits(n / 10);
    }
}

proof fn lemma_numeral_injective(a: nat, b: nat)
    requires
        numeral(a) == numeral(b),
    ensures
        a == b,
    decreases a,
{
    if a >= 10 {
        lemma_numeral_digits(a / 10);
    }
    if b >= 10 {
        lemma_numeral_digits(b / 10);
    }
    assert(numeral(a).last() == digit(a as int % 10));
    assert(numeral(b).last() == digit(b as int % 10));
    assert(digit(a as int % 10) as int == '0' as int + a as int % 10);
    assert(digit(b as int % 10) as int == '0' as int + b as int % 10);
    if a >= 10 && b >= 10 {
        assert(numeral(a).drop_last() =~= numeral(a / 10));
        assert(numeral(b).drop_last() =~= numeral(b / 10));
        lemma_numeral_injective(a / 10, b / 10);
    }
}

/// Distinct integers have distinct decimal forms.
pub proof fn lemma_decimal_injective(a: int, b: int)
    requires
        decimal(a) == decimal(b),
    ensures
        a == b,
{
    let left: nat = (if a < 0 { -a } else { a }) as nat;
    let right: nat = (if b < 0 { -b } else { b }) as nat;
    lemma_numeral_digits(left);
    lemma_numeral_digits(right);
    assert(decimal(a)[0] == decimal(b)[0]);
    if a < 0 {
        assert(decimal(a).drop_first() =~= numeral(left));
        assert(decimal(b).drop_first() =~= numeral(right));
    }
    lemma_numeral_injective(left, right);
}

/// The lower-case letter of an ASCII letter; any other character itself.
pub open spec fn ascii_lower(c: char) -> char {
    if 'A' <= c <= 'Z' {
        (c as int + 32) as char
    } else {
        c
    }
}

/// A text with its ASCII letters in lower case.
pub open spec fn ascii_lowercase(s: Seq<char>) -> Seq<char> {
    s.map_values(|c: char| ascii_lower(c))
}

/// The upper-case letter of an ASCII letter; any other character itself.
pub open spec fn ascii_upper(c: char) -> char {
    if 'a' <= c <= 'z' {
        (c as int - 32) as char
    } else {
        c
    }
}

/// A text with its ASCII letters in upper case.
pub open spec fn ascii_uppercase(s: Seq<char>) -> Seq<char> {
    s.map_values(|c: char| ascii_upper(c))
}

/// The lower-case equivalent of a text after Unicode's rules, as `str::to_lowercase` gives it.
pub uninterp spec fn lowercase(s: Seq<char>) -> Seq<char>;

/// `str::to_lowercase` gives the lower-case equivalent of a text, which is a function of the
/// text alone. Of a text in ASCII it is believed to change the letters `A` to `Z` to `a` to
/// `z` and nothing else. Of any text it is believed to give the same whichever case the ASCII
/// letters have: it lowers them all, and the one character that it lowers by its surroundings,
/// the capital sigma, goes by where letters stand and not by their case. What it makes of other
/// characters is left unsaid.
pub assume_specification[ str::to_lowercase ](s: &str) -> (res: String)
    ensures
        res@ == lowercase(s@),
        vstd::utf8::is_ascii_chars(s@) ==> res@ == ascii_lowercase(s@),
        res@ == lowercase(ascii_uppercase(s@)),
        res@ == lowercase(ascii_lowercase(s@)),
;

/// What stands in a text stands in every text that holds it.
pub proof fn lemma_occurrence_in_longer_text(needle: Seq<char>, hay: Seq<char>, more: Seq<char>)
    requires
        occurs_in(needle, hay),
    ensures
        occurs_in(needle, hay + more),
        occurs_in(needle, more + hay),
{
    let at = choose|at: int| #[trigger] occurs_at(hay, needle, at);
    let from = more.len() + at;
    assert((hay + more).subrange(at, at + needle.len()) =~= hay.subrange(at, at + needle.len()));
    assert((more + hay).subrange(from, from + needle.len()) =~= hay.subrange(
        at,
        at + needle.len(),
    ));
    assert(occurs_at(hay + more, needle, at));
    assert(occurs_at(more + hay, needle, from));
}

/// What stands in a text stands, in lower case, in the text's lower case.
pub proof fn lemma_lowercase_keeps_occurrence(needle: Seq<char>, hay: Seq<char>)
    requires
        occurs_in(needle, hay),
    ensures
        occurs_in(ascii_lowercase(needle), ascii_lowercase(hay)),
{
    let at = choose|at: int| #[trigger] occurs_at(hay, needle, at);
    let low = ascii_lowercase(hay).subrange(at, at + needle.len());
    assert(low =~= ascii_lowercase(needle)) by {
        assert forall|i: int| 0 <= i < needle.len() implies low[i] == ascii_lowercase(
            needle,
        )[i] by {
            assert(hay.subrange(at, at + needle.len())[i] == needle[i]);
        }
    }
    assert(occurs_at(ascii_lowercase(hay), ascii_lowercase(needle), at));
}

/// A text is three texts, one behind the other.
pub open spec fn is_made_of(
    whole: Seq<char>,
    before: Seq<char>,
    part: Seq<char>,
    after: Seq<char>,
) -> bool {
    whole == before + part + after
}

/// A text has a part: something, or nothing, stands before it, and something, or nothing, behind.
pub open spec fn holds(whole: Seq<char>, part: Seq<char>) -> bool {
    exists|before: Seq<char>, after: Seq<char>| #[trigger] is_made_of(whole, before, part, after)
}

/// A text has a part that is `word` once its ASCII letters are lowered.
pub open spec fn holds_in_any_case(whole: Seq<char>, word: Seq<char>) -> bool {
    exists|before: Seq<char>, part: Seq<char>, after: Seq<char>|
        #[trigger] is_made_of(whole, before, part, after) && ascii_lowercase(part) == word
}

/// What is searched for is found exactly where the text can be put together from something,
/// the thing itself, and something more.
pub proof fn law_search_finds_parts(needle: Seq<char>, hay: Seq<char>)
    ensures
        occurs_in(needle, hay) <==> holds(hay, needle),
{
    if occurs_in(needle, hay) {
        let at = choose|at: int| #[trigger] occurs_at(hay, needle, at);
        let before = hay.take(at);
        let after = hay.skip(at + needle.len());
        assert(hay =~= before + hay.subrange(at, at + needle.len()) + after);
        assert(is_made_of(hay, before, needle, after));
    }
    if holds(hay, needle) {
        let (before, after) = choose|before: Seq<char>, after: Seq<char>|
            #[trigger] is_made_of(hay, before, needle, after);
        let at = before.len() as int;
        assert(hay.subrange(at, at + needle.len()) =~= needle);
        assert(occurs_at(hay, needle, at));
    }
}

/// A word stands in the lower case of a text exactly where the text has the word as a part, in
/// any mix of cases.
pub proof fn law_word_in_any_case(line: Seq<char>, word: Seq<char>)
    ensures
        occurs_in(word, ascii_lowercase(line)) <==> holds_in_any_case(line, word),
{
    let low = ascii_lowercase(line);
    if occurs_in(word, low) {
        let at = choose|at: int| #[trigger] occurs_at(low, word, at);
        let before = line.take(at);
        let part = line.subrange(at, at + word.len());
        let after = line.skip(at + word.len());
        assert(line =~= before + part + after);
        assert(ascii_lowercase(part) =~= low.subrange(at, at + word.len()));
        assert(is_made_of(line, before, part, after));
    }
    if holds_in_any_case(line, word) {
        let (before, part, after) = choose|
            before: Seq<char>,
            part: Seq<char>,
            after: Seq<char>,
        |
            #[trigger] is_made_of(line, before, part, after) && ascii_lowercase(part) == word;
        let at = before.len() as int;
        assert(low.subrange(at, at + word.len()) =~= ascii_lowercase(part));
        assert(occurs_at(low, word, at));
    }
}

/// Lowering ASCII letters moves the letters of the one alphabet to the same places of the other
/// and leaves every other character alone. So does raising them, the other way.
pub proof fn law_ascii_letters_change_places(c: char)
    ensures
        ascii_lower(c) != c <==> 65 <= c as int <= 90,
        ascii_lower(c) != c ==> ascii_lower(c) as int - 97 == c as int - 65,
        ascii_upper(c) != c <==> 97 <= c as int <= 122,
        ascii_upper(c) != c ==> ascii_upper(c) as int - 65 == c as int - 97,
        ascii_lower(ascii_upper(c)) == ascii_lower(c),
        ascii_upper(ascii_lower(c)) == ascii_upper(c),
{
}

/// Lowering a text works on each character for itself.
pub proof fn law_lowered_one_by_one(a: Seq<char>, b: Seq<char>, c: char)
    ensures
        ascii_lowercase(a + b) == ascii_lowercase(a) + ascii_lowercase(b),
        ascii_lowercase(seq![c]) == seq![ascii_lower(c)],
        ascii_uppercase(a + b) == ascii_uppercase(a) + ascii_uppercase(b),
        ascii_uppercase(seq![c]) == seq![ascii_upper(c)],
{
    assert(ascii_lowercase(a + b) =~= ascii_lowercase(a) + ascii_lowercase(b));
    assert(ascii_lowercase(seq![c]) =~= seq![ascii_lower(c)]);
    assert(ascii_uppercase(a + b) =~= ascii_uppercase(a) + ascii_uppercase(b));
    assert(ascii_uppercase(seq![c]) =~= seq![ascii_upper(c)]);
}

proof fn lemma_lead_of(s: Seq<char>) -> (lead: Seq<char>)
    ensures
        is_blank(lead),
        s == lead + trimmed_start(s),
    decreases s.len(),
{
    if s.len() > 0 && is_white_space(s.first()) {
        let rest = lemma_lead_of(s.drop_first());
        let lead = seq![s.first()] + rest;
        assert(s =~= seq![s.first()] + s.drop_first());
        assert(s =~= lead + trimmed_start(s));
        assert forall|i: int| 0 <= i < lead.len() implies is_white_space(#[trigger] lead[i]) by {
            if i > 0 {
                assert(lead[i] == rest[i - 1]);
            }
        }
        lead
    } else {
        assert(s =~= Seq::<char>::empty() + s);
        Seq::empty()
    }
}

proof fn lemma_trail_of(s: Seq<char>) -> (trail: Seq<char>)
    ensures
        is_blank(trail),
        s == trimmed_end(s) + trail,
    decreases s.len(),
{
    if s.len() > 0 && is_white_space(s.last()) {
        let rest = lemma_trail_of(s.drop_last());
        let trail = rest.push(s.last());
        assert(s =~= s.drop_last().push(s.last()));
        assert(s =~= trimmed_end(s) + trail);
        assert forall|i: int| 0 <= i < trail.len() implies is_white_space(
            #[trigger] trail[i],
        ) by {
            if i < rest.len() {
                assert(trail[i] == rest[i]);
            }
        }
        trail
    } else {
        assert(s =~= s + Seq::<char>::empty());
        Seq::empty()
    }
}

/// Trimming takes white space from both ends and nothing else: a text is white space, the
/// trimmed text and white space, and the trimmed text neither begins nor ends with any.
pub proof fn law_trim_takes_white_space(s: Seq<char>)
    ensures
        exists|lead: Seq<char>, trail: Seq<char>|
            #[trigger] is_made_of(s, lead, trimmed(s), trail) && is_blank(lead) && is_blank(trail),
        trimmed(s).len() > 0 ==> !is_white_space(trimmed(s)[0]) && !is_white_space(
            trimmed(s)[trimmed(s).len() - 1],
        ),
{
    let lead = lemma_lead_of(s);
    let trail = lemma_trail_of(trimmed_start(s));
    assert(s =~= lead + trimmed(s) + trail);
    assert(is_made_of(s, lead, trimmed(s), trail));
    lemma_trimmed_ends(s);
}

/// The number that a row of decimal digits stands for.
pub open spec fn value_of(digits: Seq<char>) -> int
    decreases digits.len(),
{
    if digits.len() == 0 {
        0
    } else {
        10 * value_of(digits.drop_last()) + (digits.last() as int - 48)
    }
}

/// A numeral holds decimal digits only, stands for its number, and begins with a zero for zero
/// alone.
pub proof fn law_numeral_reads_back(n: nat)
    ensures
        numeral(n).len() > 0,
        forall|i: int| 0 <= i < numeral(n).len() ==> 48 <= #[trigger] numeral(n)[i] as int <= 57,
        value_of(numeral(n)) == n,
        numeral(n)[0] == '0' ==> n == 0 && numeral(n).len() == 1,
    decreases n,
{
    let d = n as int % 10;
    assert(digit(d) as int == 48 + d);
    if n < 10 {
        assert(numeral(n).drop_last() =~= Seq::<char>::empty());
        assert(value_of(numeral(n).drop_last()) == 0);
        assert(digit(n as int) as int == 48 + n);
    } else {
        law_numeral_reads_back(n / 10);
        assert(numeral(n).drop_last() =~= numeral(n / 10));
        assert(numeral(n)[0] == numeral(n / 10)[0]);
        assert forall|i: int| 0 <= i < numeral(n).len() implies 48 <= #[trigger] numeral(
            n,
        )[i] as int <= 57 by {
            if i < numeral(n / 10).len() {
                assert(numeral(n)[i] == numeral(n / 10)[i]);
            }
        }
    }
}

/// The decimal form of an integer stands for that integer: digits for one that is not negative,
/// and for a negative one a minus sign before the form of its opposite.
pub proof fn law_decimal_reads_back(n: int)
    ensures
        n >= 0 ==> value_of(decimal(n)) == n,
        n >= 0 ==> forall|i: int|
            0 <= i < decimal(n).len() ==> 48 <= #[trigger] decimal(n)[i] as int <= 57,
        n > 0 ==> decimal(n)[0] != '0',
        n < 0 ==> decimal(n) == seq!['-'] + decimal(-n),
        decimal(n).len() > 0,
{
    if n >= 0 {
        law_numeral_reads_back(n as nat);
    }
}

/// Of the ASCII characters, the blank and the controls from the tab to the carriage return are
/// white space; no letter, digit or sign is. Beyond them, white space stands alone or in one row
/// of eleven.
pub proof fn law_white_space_of_ascii(c: char)
    ensures
        c as int <= 0x7f ==> (is_white_space(c) <==> c == ' ' || c == '\t' || c == '\n' || c
            == '\u{b}' || c == '\u{c}' || c == '\r'),
        c as int > 0x7f && is_white_space(c) ==> c == '\u{85}' || c == '\u{a0}' || c == '\u{1680}'
            || '\u{2000}' <= c <= '\u{200a}' || c == '\u{2028}' || c == '\u{2029}' || c
            == '\u{202f}' || c == '\u{205f}' || c == '\u{3000}',
        '\u{2000}' <= c <= '\u{200a}' ==> is_white_space(c),
{
}

} // verus!
