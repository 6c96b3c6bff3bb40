//! Specifications for the text operations of the standard library that the
//! crate relies on.

use vstd::prelude::*;

verus! {

/// `str`'s equality: two string slices are equal exactly when they hold the
/// same characters.
pub assume_specification[ <str as PartialEq>::eq ](a: &str, b: &str) -> (same: bool)
    ensures
        same == (a@ == b@),
;

/// The lowercase form of a text, as Unicode defines it.
pub uninterp spec fn lowercase(text: Seq<char>) -> Seq<char>;

/// `str::to_lowercase`: the result is the lowercase form of the argument.
#[verifier::external_body]
pub(crate) fn to_lowercase(text: &str) -> (lower: String)
    ensures
        lower@ == lowercase(text@),
{
    text.to_lowercase()
}

/// A text without the white space at its ends, as Unicode defines white
/// space.
pub uninterp spec fn trimmed(text: Seq<char>) -> Seq<char>;

/// `str::trim`: the result is the argument without the white space at its
/// ends.
#[verifier::external_body]
pub(crate) fn trim(text: &str) -> (rest: &str)
    ensures
        rest@ == trimmed(text@),
{
    text.trim()
}

/// The words of a text: its parts between white space, as Unicode defines
/// white space.
pub uninterp spec fn words_of(text: Seq<char>) -> Seq<Seq<char>>;

/// `str::split_whitespace`, collected: the result holds the words of the
/// argument, in order.
#[verifier::external_body]
pub(crate) fn words(text: &str) -> (all: Vec<String>)
    ensures
        all.deep_view() == words_of(text@),
{
    text.split_whitespace().map(str::to_owned).collect()
}

/// The decimal digit for a number below ten.
pub open spec fn digit(d: nat) -> char {
    if d == 0 {
        '0'
    } else if d == 1 {
        '1'
    } else if d == 2 {
        '2'
    } else if d == 3 {
        '3'
    } else if d == 4 {
        '4'
    } else if d == 5 {
        '5'
    } else if d == 6 {
        '6'
    } else if d == 7 {
        '7'
    } else if d == 8 {
        '8'
    } else {
        '9'
    }
}

/// A number in decimal digits, without leading zeros.
pub open spec fn decimal(n: nat) -> Seq<char>
    decreases n,
{
    if n < 10 {
        seq![digit(n)]
    } else {
        decimal(n / 10).push(digit(n % 10))
    }
}

fn digit_text(d: u128) -> (text: &'static str)
    requires
        d < 10,
    ensures
        text@ == seq![digit(d as nat)],
{
    let text = if d == 0 {
        "0"
    } else if d == 1 {
        "1"
    } else if d == 2 {
        "2"
    } else if d == 3 {
        "3"
    } else if d == 4 {
        "4"
    } else if d == 5 {
        "5"
    } else if d == 6 {
        "6"
    } else if d == 7 {
        "7"
    } else if d == 8 {
        "8"
    } else {
        "9"
    };
    proof {
        reveal_strlit("0");
        reveal_strlit("1");
        reveal_strlit("2");
        reveal_strlit("3");
        reveal_strlit("4");
        reveal_strlit("5");
        reveal_strlit("6");
        reveal_strlit("7");
        reveal_strlit("8");
        reveal_strlit("9");
    }
    text
}

/// Writes a number in decimal digits.
pub fn to_decimal(n: u128) -> (text: String)
    ensures
        text@ == decimal(n as nat),
    decreases n,
{
    if n < 10 {
        digit_text(n).to_owned()
    } else {
        to_decimal(n / 10).concat(digit_text(n % 10))
    }
}

/// The characters of a text.
pub fn to_chars(text: &str) -> (chars: Vec<char>)
    ensures
        chars@ == text@,
{
    let mut chars: Vec<char> = Vec::new();
    for c in it: text.chars()
        invariant
            chars@ == it.seq().take(it.index() as int),
            it.seq() == text@,
    {
        chars.push(c);
    }
    chars
}

/// Whether `part` stands in `text` at position `at`.
pub open spec fn occurs_at(part: Seq<char>, text: Seq<char>, at: int) -> bool {
    0 <= at && at + part.len() <= text.len() && text.subrange(at, at + part.len()) == part
}

/// Whether `part` stands somewhere in `text`.
pub open spec fn occurs_in(part: Seq<char>, text: Seq<char>) -> bool {
    exists|at: int| occurs_at(part, text, at)
}

fn matches_at(part: &Vec<char>, text: &Vec<char>, at: usize) -> (found: bool)
    requires
        at + part.len() <= text.len(),
    ensures
        found == occurs_at(part@, text@, at as int),
{
    let mut k: usize = 0;
    while k < part.len()
        invariant
            k <= part.len(),
            at + part.len() <= text.len(),
            forall|j: int| 0 <= j < k ==> text@[at + j] == part@[j],
        decreases part.len() - k,
    {
        if text[at + k] != part[k] {
            return false;
        }
        k += 1;
    }
    assert(text@.subrange(at as int, at + part.len()) =~= part@);
    true
}

/// Where `part` first stands in `text`.
pub fn find(text: &str, part: &str) -> (at: Option<usize>)
    ensures
        at is Some <==> occurs_in(part@, text@),
        at matches Some(first) ==> occurs_at(part@, text@, first as int) && forall|j: int|
            0 <= j < first ==> !occurs_at(part@, text@, j),
{
    let all = to_chars(text);
    let sought = to_chars(part);
    if sought.len() > all.len() {
        return None;
    }
    let last = all.len() - sought.len();
    let mut i: usize = 0;
    while i <= last
        invariant
            i <= last + 1,
            last == all.len() - sought.len(),
            all@ == text@,
            sought@ == part@,
            forall|j: int| 0 <= j < i ==> !occurs_at(part@, text@, j),
        decreases last + 1 - i,
    {
        if matches_at(&sought, &all, i) {
            return Some(i);
        }
        if i == last {
            return None;
        }
        i += 1;
    }
    None
}

/// Whether `part` stands somewhere in `text`.
pub fn contains(text: &str, part: &str) -> (found: bool)
    ensures
        found == occurs_in(part@, text@),
{
    find(text, part).is_some()
}

/// What follows the last `c` in `text`: all of `text` where there is none.
pub open spec fn after_last(text: Seq<char>, c: char) -> Seq<char>
    decreases text.len(),
{
    if text.len() == 0 {
        text
    } else if text.last() == c {
        Seq::empty()
    } else {
        after_last(text.drop_last(), c).push(text.last())
    }
}

/// What follows the last `c` in `text`: all of `text` where there is none.
pub fn tail_after(text: &str, c: char) -> (tail: &str)
    ensures
        tail@ == after_last(text@, c),
{
    let chars = to_chars(text);
    let mut start: usize = chars.len();
    while start > 0 && chars[start - 1] != c
        invariant
            start <= chars.len(),
            forall|j: int| start <= j < chars.len() ==> chars@[j] != c,
        decreases start,
    {
        start -= 1;
    }
    proof {
        lemma_after_last(chars@, c, start as int);
    }
    text.substring_char(start, chars.len())
}

proof fn lemma_after_last(text: Seq<char>, c: char, start: int)
    requires
        0 <= start <= text.len(),
        forall|j: int| start <= j < text.len() ==> text[j] != c,
        start > 0 ==> text[start - 1] == c,
    ensures
        after_last(text, c) == text.subrange(start, text.len() as int),
    decreases text.len(),
{
    if start < text.len() {
        lemma_after_last(text.drop_last(), c, start);
    }
}

/// Where `c` first stands in `text`.
pub fn find_char(text: &str, c: char) -> (at: Option<usize>)
    ensures
        match at {
            Some(first) => first < text@.len() && text@[first as int] == c && forall|j: int|
                0 <= j < first ==> text@[j] != c,
            None => forall|j: int| 0 <= j < text@.len() ==> text@[j] != c,
        },
{
    let chars = to_chars(text);
    let mut i: usize = 0;
    while i < chars.len()
        invariant
            i <= chars.len(),
            chars@ == text@,
            forall|j: int| 0 <= j < i ==> chars@[j] != c,
        decreases chars.len() - i,
    {
        if chars[i] == c {
            return Some(i);
        }
        i += 1;
    }
    None
}

/// The two parts of `text` around the first `c`, where there is one.
pub open spec fn split_at_first(text: Seq<char>, c: char) -> Option<(Seq<char>, Seq<char>)> {
    if exists|at: int| 0 <= at < text.len() && text[at] == c {
        let first = choose|at: int|
            0 <= at < text.len() && text[at] == c && forall|j: int| 0 <= j < at ==> text[j] != c;
        Some((text.subrange(0, first), text.subrange(first + 1, text.len() as int)))
    } else {
        None
    }
}

/// The two parts of `text` around the first `c`, where there is one.
pub fn split_once(text: &str, c: char) -> (parts: Option<(&str, &str)>)
    ensures
        match parts {
            Some((before, after)) => split_at_first(text@, c) == Some((before@, after@)),
            None => split_at_first(text@, c) is None,
        },
{
    let length = text.unicode_len();
    match find_char(text, c) {
        None => None,
        Some(first) => {
            proof {
                let chosen = choose|at: int|
                    0 <= at < text@.len() && text@[at] == c && forall|j: int|
                        0 <= j < at ==> text@[j] != c;
            }
            Some((text.substring_char(0, first), text.substring_char(first + 1, length)))
        },
    }
}

/// Whether `text` ends with `suffix`.
pub open spec fn ends_with(text: Seq<char>, suffix: Seq<char>) -> bool {
    suffix.len() <= text.len() && text.subrange(text.len() - suffix.len(), text.len() as int)
        == suffix
}

/// `text` without `suffix` at its end, however often it stands there.
pub open spec fn without_suffix(text: Seq<char>, suffix: Seq<char>) -> Seq<char>
    decreases text.len(),
{
    if suffix.len() > 0 && ends_with(text, suffix) {
        without_suffix(text.take(text.len() - suffix.len()), suffix)
    } else {
        text
    }
}

/// `text` without `suffix` at its end, however often it stands there.
pub fn trim_end_matches<'a>(text: &'a str, suffix: &str) -> (rest: &'a str)
    ensures
        rest@ == without_suffix(text@, suffix@),
{
    let chars = to_chars(text);
    let tail = to_chars(suffix);
    let mut end: usize = chars.len();
    if tail.len() == 0 {
        return text.substring_char(0, end);
    }
    proof {
        assert(chars@.take(end as int) =~= text@);
    }
    while end >= tail.len() && matches_at(&tail, &chars, end - tail.len())
        invariant
            end <= chars.len(),
            tail.len() > 0,
            chars@ == text@,
            tail@ == suffix@,
            without_suffix(text@, suffix@) == without_suffix(chars@.take(end as int), suffix@),
        decreases end,
    {
        proof {
            let here = chars@.take(end as int);
            assert(here.subrange(here.len() - tail.len(), here.len() as int) =~= chars@.subrange(
                end - tail.len(),
                end as int,
            ));
            assert(here.take(here.len() - tail.len()) =~= chars@.take(end - tail.len()));
        }
        end -= tail.len();
    }
    proof {
        let here = chars@.take(end as int);
        if end >= tail.len() {
            assert(here.subrange(here.len() - tail.len(), here.len() as int) =~= chars@.subrange(
                end - tail.len(),
                end as int,
            ));
        }
    }
    text.substring_char(0, end)
}

/// Where a delimiter last stands in `text`.
pub open spec fn is_last_delimiter(text: Seq<char>, a: char, b: char, at: int) -> bool {
    &&& 0 <= at < text.len()
    &&& (text[at] == a || text[at] == b)
    &&& forall|j: int| at < j < text.len() ==> text[j] != a && text[j] != b
}

/// Whether `text` holds a delimiter.
pub open spec fn has_delimiter(text: Seq<char>, a: char, b: char) -> bool {
    exists|at: int| 0 <= at < text.len() && (text[at] == a || text[at] == b)
}

fn rfind_delimiter(chars: &Vec<char>, end: usize, a: char, b: char) -> (at: Option<usize>)
    requires
        end <= chars.len(),
    ensures
        match at {
            Some(last) => is_last_delimiter(chars@.take(end as int), a, b, last as int),
            None => !has_delimiter(chars@.take(end as int), a, b),
        },
{
    let mut i: usize = end;
    while i > 0
        invariant
            i <= end <= chars.len(),
            forall|j: int| i <= j < end ==> chars@[j] != a && chars@[j] != b,
        decreases i,
    {
        if chars[i - 1] == a || chars[i - 1] == b {
            return Some(i - 1);
        }
        i -= 1;
    }
    None
}

/// The last two of the parts into which the delimiters `a` and `b` cut
/// `text`, where there are two.
pub open spec fn last_two_parts(text: Seq<char>, a: char, b: char) -> Option<
    (Seq<char>, Seq<char>),
> {
    if has_delimiter(text, a, b) {
        let last = choose|at: int| is_last_delimiter(text, a, b, at);
        let head = text.take(last);
        let start = if has_delimiter(head, a, b) {
            (choose|at: int| is_last_delimiter(head, a, b, at)) + 1
        } else {
            0
        };
        Some((text.subrange(start, last), text.subrange(last + 1, text.len() as int)))
    } else {
        None
    }
}

/// The last two of the parts into which the delimiters `a` and `b` cut
/// `text`, where there are two.
pub fn last_two<'a>(text: &'a str, a: char, b: char) -> (parts: Option<(&'a str, &'a str)>)
    ensures
        match parts {
            Some((first, second)) => last_two_parts(text@, a, b) == Some((first@, second@)),
            None => last_two_parts(text@, a, b) is None,
        },
{
    let chars = to_chars(text);
    let length = chars.len();
    proof {
        assert(chars@.take(length as int) =~= text@);
    }
    match rfind_delimiter(&chars, length, a, b) {
        None => None,
        Some(last) => {
            let found = rfind_delimiter(&chars, last, a, b);
            let start = match found {
                Some(previous) => previous + 1,
                None => 0,
            };
            proof {
                let chosen = choose|at: int| is_last_delimiter(text@, a, b, at);
                assert(chosen == last);
                let head = text@.take(last as int);
                if let Some(previous) = found {
                    let second = choose|at: int| is_last_delimiter(head, a, b, at);
                    assert(second == previous);
                }
            }
            Some((text.substring_char(start, last), text.substring_char(last + 1, length)))
        },
    }
}

/// Whether `text` begins with `prefix`.
pub open spec fn begins_with(text: Seq<char>, prefix: Seq<char>) -> bool {
    prefix.len() <= text.len() && text.subrange(0, prefix.len() as int) == prefix
}

/// `text` without `prefix` at its beginning, however often it stands there.
pub open spec fn without_prefix(text: Seq<char>, prefix: Seq<char>) -> Seq<char>
    decreases text.len(),
{
    if prefix.len() > 0 && begins_with(text, prefix) {
        without_prefix(text.skip(prefix.len() as int), prefix)
    } else {
        text
    }
}

/// `text` without `prefix` at its beginning, however often it stands there.
pub fn trim_start_matches<'a>(text: &'a str, prefix: &str) -> (rest: &'a str)
    ensures
        rest@ == without_prefix(text@, prefix@),
{
    let chars = to_chars(text);
    let head = to_chars(prefix);
    let length = chars.len();
    let mut start: usize = 0;
    proof {
        assert(chars@.skip(0) =~= text@);
    }
    if head.len() == 0 {
        return text.substring_char(0, length);
    }
    while head.len() <= length - start && matches_at(&head, &chars, start)
        invariant
            start <= length == chars.len(),
            head.len() > 0,
            chars@ == text@,
            head@ == prefix@,
            without_prefix(text@, prefix@) == without_prefix(chars@.skip(start as int), prefix@),
        decreases length - start,
    {
        proof {
            let here = chars@.skip(start as int);
            assert(here.subrange(0, head.len() as int) =~= chars@.subrange(
                start as int,
                start + head.len(),
            ));
            assert(here.skip(head.len() as int) =~= chars@.skip(start + head.len()));
        }
        start += head.len();
    }
    proof {
        let here = chars@.skip(start as int);
        if head.len() <= length - start {
            assert(here.subrange(0, head.len() as int) =~= chars@.subrange(
                start as int,
                start + head.len(),
            ));
        }
    }
    text.substring_char(start, length)
}

/// Where `c` stands in a text, it stands somewhere first.
proof fn lemma_first_occurrence(text: Seq<char>, c: char, at: int)
    requires
        0 <= at < text.len(),
        text[at] == c,
    ensures
        exists|first: int|
            0 <= first <= at && text[first] == c && forall|j: int| 0 <= j < first ==> text[j] != c,
    decreases at,
{
    if exists|j: int| 0 <= j < at && text[j] == c {
        let earlier = choose|j: int| 0 <= j < at && text[j] == c;
        lemma_first_occurrence(text, c, earlier);
    }
}

/// The parts around the first `c` make up the text, with the `c` between
/// them and none in the first.
pub proof fn lemma_split_at_first(text: Seq<char>, c: char)
    ensures
        match split_at_first(text, c) {
            Some((before, after)) => text == before.push(c) + after && !before.contains(c),
            None => !text.contains(c),
        },
{
    if exists|at: int| 0 <= at < text.len() && text[at] == c {
        let at = choose|at: int| 0 <= at < text.len() && text[at] == c;
        lemma_first_occurrence(text, c, at);
        let first = choose|at: int|
            0 <= at < text.len() && text[at] == c && forall|j: int| 0 <= j < at ==> text[j] != c;
        assert(text =~= text.subrange(0, first).push(c) + text.subrange(
            first + 1,
            text.len() as int,
        ));
    }
}

/// A line without the carriage return at its end, where it has one.
pub open spec fn without_return(line: Seq<char>) -> Seq<char> {
    if line.len() > 0 && line.last() == '\r' {
        line.drop_last()
    } else {
        line
    }
}

/// The lines of a text: its parts between line endings, a line ending
/// being a line feed, alone or after a carriage return. What stands after
/// the last line ending is a line too, unless it is empty; a carriage
/// return that no line feed follows is part of its line.
pub open spec fn lines_of(text: Seq<char>) -> Seq<Seq<char>>
    decreases text.len(),
    via lines_of_decreases
{
    if text.len() == 0 {
        Seq::empty()
    } else {
        match split_at_first(text, '\n') {
            Some((line, rest)) => seq![without_return(line)] + lines_of(rest),
            None => seq![text],
        }
    }
}

#[via_fn]
proof fn lines_of_decreases(text: Seq<char>) {
    lemma_split_at_first(text, '\n');
}

/// A line without the carriage return at its end.
fn strip_return(line: &str) -> (rest: &str)
    ensures
        rest@ == without_return(line@),
{
    let chars = to_chars(line);
    let length = chars.len();
    if length > 0 && chars[length - 1] == '\r' {
        line.substring_char(0, length - 1)
    } else {
        line
    }
}

/// The lines of a text, in order.
pub fn lines(text: &str) -> (all: Vec<String>)
    ensures
        all.deep_view() == lines_of(text@),
{
    let mut all: Vec<String> = Vec::new();
    let mut rest: &str = text;
    proof {
        reveal_strlit("");
        assert(all.deep_view() + lines_of(rest@) =~= lines_of(text@));
    }
    while rest.unicode_len() > 0
        invariant
            all.deep_view() + lines_of(rest@) == lines_of(text@),
            ""@.len() == 0,
        decreases rest@.len(),
    {
        let ghost before = all.deep_view();
        let ghost whole = rest@;
        proof {
            lemma_split_at_first(whole, '\n');
        }
        match split_once(rest, '\n') {
            None => {
                all.push(rest.to_owned());
                rest = "";
                assert(all.deep_view() =~= before.push(whole));
                assert(before.push(whole) + lines_of(rest@) =~= before + seq![whole]);
            },
            Some((line, after)) => {
                let line = strip_return(line);
                all.push(line.to_owned());
                rest = after;
                assert(all.deep_view() =~= before.push(line@));
                assert(before.push(line@) + lines_of(after@) =~= before + (seq![line@] + lines_of(
                    after@,
                )));
            },
        }
    }
    assert(all.deep_view() + lines_of(rest@) =~= all.deep_view());
    all
}

/// What stands before the first line feed of a text: all of it where there
/// is none.
pub open spec fn first_line(text: Seq<char>) -> Seq<char> {
    match split_at_first(text, '\n') {
        Some((line, _)) => line,
        None => text,
    }
}

/// What stands before the first line feed of a text.
pub fn head_line(text: &str) -> (line: &str)
    ensures
        line@ == first_line(text@),
{
    match split_once(text, '\n') {
        Some((line, _)) => line,
        None => text,
    }
}

/// A number with its sign in decimal digits.
pub open spec fn signed_decimal(n: int) -> Seq<char> {
    if n < 0 {
        "-"@ + decimal((-n) as nat)
    } else {
        decimal(n as nat)
    }
}

/// Writes a number with its sign in decimal digits.
pub fn to_signed_decimal(n: i64) -> (text: String)
    ensures
        text@ == signed_decimal(n as int),
{
    if n < 0 {
        let magnitude = (-(n as i128)) as u128;
        "-".to_owned().concat(to_decimal(magnitude).as_str())
    } else {
        to_decimal(n as u128)
    }
}

/// A list of one text.
pub fn texts1(a: &str) -> (all: Vec<String>)
    ensures
        all.deep_view() == seq![a@],
{
    let mut all: Vec<String> = Vec::new();
    all.push(a.to_owned());
    all
}

/// A list of two texts.
pub fn texts2(a: &str, b: &str) -> (all: Vec<String>)
    ensures
        all.deep_view() == seq![a@, b@],
{
    let mut all: Vec<String> = Vec::new();
    all.push(a.to_owned());
    all.push(b.to_owned());
    all
}

/// A list of three texts.
pub fn texts3(a: &str, b: &str, c: &str) -> (all: Vec<String>)
    ensures
        all.deep_view() == seq![a@, b@, c@],
{
    let mut all: Vec<String> = Vec::new();
    all.push(a.to_owned());
    all.push(b.to_owned());
    all.push(c.to_owned());
    all
}

/// A list of four texts.
pub fn texts4(a: &str, b: &str, c: &str, d: &str) -> (all: Vec<String>)
    ensures
        all.deep_view() == seq![a@, b@, c@, d@],
{
    let mut all: Vec<String> = Vec::new();
    all.push(a.to_owned());
    all.push(b.to_owned());
    all.push(c.to_owned());
    all.push(d.to_owned());
    all
}

/// A list with one text more at its end.
pub fn with_text(all: Vec<String>, last: &str) -> (longer: Vec<String>)
    ensures
        longer.deep_view() == all.deep_view().push(last@),
{
    let mut longer = all;
    longer.push(last.to_owned());
    longer
}

} // verus!
