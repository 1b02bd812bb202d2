//! The value transforms of the rules: from the text a pattern captured, and
//! the value the field holds, to the value the field is to hold. `None` means
//! that the transform declines, which cancels the rule.

use crate::matching::{find_all, occurrences, substitute, substituted, GroupMatch};
use crate::record::{clone_list, clone_values, lemma_list_view, list_view, text_view};
use crate::text::{
    contained, contains, decimal_i32, lowercase_of, parse_i32, replace, replaced, same, to_lower,
    to_upper, trim, trimmed, uppercase_of,
};
use crate::types::language::Language;
use vstd::prelude::*;

verus! {

/// The view of what a text transform returns.
pub open spec fn text_outcome(r: Option<Option<String>>) -> Option<Option<Seq<char>>> {
    match r {
        Some(t) => Some(text_view(t)),
        None => None,
    }
}

/// The view of what a list transform returns.
pub open spec fn list_outcome(r: Option<Vec<String>>) -> Option<Seq<Seq<char>>> {
    match r {
        Some(l) => Some(list_view(l)),
        None => None,
    }
}

/// The view of what a number-list transform returns.
pub open spec fn numbers_outcome(r: Option<Vec<i32>>) -> Option<Seq<i32>> {
    match r {
        Some(l) => Some(l@),
        None => None,
    }
}

/// A template with each `$1` replaced by the input.
pub open spec fn filled(template: Seq<char>, input: Seq<char>) -> Seq<char> {
    replaced(template, "$1"@, input)
}

/// `list`, with `value` appended unless the list holds it already.
pub open spec fn appended_once<A>(list: Seq<A>, value: A) -> Seq<A> {
    if list.contains(value) {
        list
    } else {
        list.push(value)
    }
}

/// No value occurs twice.
pub open spec fn no_duplicates<A>(list: Seq<A>) -> bool {
    forall|i: int, j: int| 0 <= i < j < list.len() ==> list[i] != list[j]
}

/// Appending a value a second time changes nothing: the list holds the value
/// after the first append, and an append of a value the list holds returns
/// the list. A list without duplicates stays without duplicates.
pub proof fn lemma_append_once_idempotent<A>(list: Seq<A>, value: A)
    ensures
        appended_once(list, value).contains(value),
        list.contains(value) ==> appended_once(list, value) == list,
        appended_once(appended_once(list, value), value) == appended_once(list, value),
        no_duplicates(list) ==> no_duplicates(appended_once(list, value)),
{
    let once = appended_once(list, value);
    if !list.contains(value) {
        assert(once[list.len() as int] == value);
        assert forall|i: int, j: int| 0 <= i < j < once.len() && no_duplicates(list) implies once[i]
            != once[j] by {
            if j == list.len() {
                assert(list.contains(once[i]));
            }
        }
    }
}

/// The resolution a lower-case text announces: the first of the known line
/// counts (or `4k`, `2k`) that occurs in it.
pub open spec fn resolution_of(lowered: Seq<char>) -> Option<Seq<char>> {
    if contained(lowered, "2160"@) || contained(lowered, "4k"@) {
        Some("2160p"@)
    } else if contained(lowered, "1440"@) || contained(lowered, "2k"@) {
        Some("1440p"@)
    } else if contained(lowered, "1080"@) {
        Some("1080p"@)
    } else if contained(lowered, "720"@) {
        Some("720p"@)
    } else if contained(lowered, "480"@) {
        Some("480p"@)
    } else if contained(lowered, "360"@) {
        Some("360p"@)
    } else if contained(lowered, "240"@) {
        Some("240p"@)
    } else {
        None
    }
}

/// The numbers written at the given ranges of `text`, in order. A range that
/// does not lie within the text, or whose text is no 32-bit number, gives none.
pub open spec fn numbers_at(text: Seq<char>, spans: Seq<GroupMatch>) -> Seq<i32>
    decreases spans.len(),
{
    if spans.len() == 0 {
        Seq::empty()
    } else {
        let rest = numbers_at(text, spans.drop_last());
        let g = spans.last();
        if g.within(text) {
            match decimal_i32(g.text_in(text)) {
                Some(n) => rest.push(n),
                None => rest,
            }
        } else {
            rest
        }
    }
}

/// The numbers from `from` up to and including `to`; none where `to` is the smaller.
pub open spec fn interval(from: i32, to: i32) -> Seq<i32> {
    if to < from {
        Seq::empty()
    } else {
        Seq::new((to - from + 1) as nat, |i: int| (from + i) as i32)
    }
}

/// Whether each number is one more than the number before it.
pub open spec fn consecutive(s: Seq<i32>) -> bool {
    forall|i: int| 0 <= i < s.len() - 1 ==> s[i] + 1 == #[trigger] s[i + 1]
}

/// What a list of numbers stands for: two rising numbers for every number
/// between them, a longer run of consecutive numbers or a single number for
/// itself, anything else for nothing.
pub open spec fn range_of(numbers: Seq<i32>) -> Option<Seq<i32>> {
    if numbers.len() == 2 && numbers[0] < numbers[1] {
        Some(interval(numbers[0], numbers[1]))
    } else if numbers.len() > 2 && consecutive(numbers) {
        Some(numbers)
    } else if numbers.len() == 1 {
        Some(numbers)
    } else {
        None
    }
}

/// The numbers written in `value`: the runs of digits that are 32-bit numbers.
pub open spec fn numbers_in(value: Seq<char>) -> Seq<i32> {
    numbers_at(value, occurrences("\\d+"@, value))
}

/// The captured text as it is.
pub fn identity(value: &str, _current: &Option<String>) -> (r: Option<Option<String>>)
    ensures
        text_outcome(r) == Some(Some(value@)),
{
    Some(Some(value.to_owned()))
}

/// The captured text as it is, for a field that always holds a text.
pub fn identity_non_optional(value: &str, _current: &String) -> (r: Option<String>)
    ensures
        r matches Some(s) && s@ == value@,
{
    Some(value.to_owned())
}

/// The captured text in upper case.
pub fn uppercase(value: &str, _current: &Option<String>) -> (r: Option<Option<String>>)
    ensures
        text_outcome(r) == Some(Some(uppercase_of(value@))),
{
    Some(Some(to_upper(value)))
}

/// The captured text in lower case.
pub fn lowercase(value: &str, _current: &Option<String>) -> (r: Option<Option<String>>)
    ensures
        text_outcome(r) == Some(Some(lowercase_of(value@))),
{
    Some(Some(to_lower(value)))
}

/// Raises a flag, unless nothing was captured.
pub fn true_if_found(value: &str, _current: &bool) -> (r: Option<bool>)
    ensures
        r == if value@.len() == 0 {
            None
        } else {
            Some(true)
        },
{
    if value.is_empty() {
        None
    } else {
        Some(true)
    }
}

/// The number the captured text writes once the white space around it is
/// gone. Declines where it writes none that fits in 32 bits.
pub fn parse(value: &str, _current: &Option<i32>) -> (r: Option<Option<i32>>)
    ensures
        r == match decimal_i32(trimmed(value@)) {
            Some(n) => Some(Some(n)),
            None => None,
        },
{
    let value = trim(value);
    if value.is_empty() {
        proof {
            assert(vstd::utf8::encode_utf8(value@) =~= Seq::<u8>::empty());
        }
        None
    } else {
        match parse_i32(value) {
            Some(n) => Some(Some(n)),
            None => None,
        }
    }
}

/// The template with each `$1` replaced by the captured text.
pub fn replace_value(template: &str, input: &str) -> (r: String)
    ensures
        r@ == filled(template@, input@),
{
    proof {
        reveal_strlit("$1");
    }
    replace(template, "$1", input)
}

/// The template with each `$1` replaced by the captured text, as the value of
/// a text field.
pub fn value(template: &str, input: &str, _current: &Option<String>) -> (r: Option<Option<String>>)
    ensures
        text_outcome(r) == Some(Some(filled(template@, input@))),
{
    Some(Some(replace_value(template, input)))
}

/// A fixed value, whatever was captured.
pub fn replace_with_value<T: Copy>(value: T, _input: &str) -> (r: T)
    ensures
        r == value,
{
    value
}

/// What `chrono::NaiveDate::parse_from_str` followed by the date's standard
/// rendering (`YYYY-MM-DD`) returns for a text and a format.
pub uninterp spec fn calendar_date(text: Seq<char>, format: Seq<char>) -> Option<Seq<char>>;

/// `chrono::NaiveDate::parse_from_str`, with the date it returns rendered by
/// its `Display` form (year, month and day, joined by hyphens). `None`
/// where the text is no date in that format.
#[verifier::external_body]
fn parse_date(text: &str, format: &str) -> (r: Option<String>)
    ensures
        text_view(r) == calendar_date(text@, format@),
{
    chrono::NaiveDate::parse_from_str(text, format).ok().map(|date| date.to_string())
}

/// `s` with each four-letter month stem cut down to the three-letter name.
pub open spec fn with_short_months(s: Seq<char>) -> Seq<char> {
    let s = substituted("(?i)\\bJanu\\b"@, s, "Jan"@);
    let s = substituted("(?i)\\bFebr\\b"@, s, "Feb"@);
    let s = substituted("(?i)\\bMarc\\b"@, s, "Mar"@);
    let s = substituted("(?i)\\bApri\\b"@, s, "Apr"@);
    let s = substituted("(?i)\\bMay\\b"@, s, "May"@);
    let s = substituted("(?i)\\bJune\\b"@, s, "Jun"@);
    let s = substituted("(?i)\\bJuly\\b"@, s, "Jul"@);
    let s = substituted("(?i)\\bAugu\\b"@, s, "Aug"@);
    let s = substituted("(?i)\\bSept\\b"@, s, "Sep"@);
    let s = substituted("(?i)\\bOcto\\b"@, s, "Oct"@);
    let s = substituted("(?i)\\bNove\\b"@, s, "Nov"@);
    let s = substituted("(?i)\\bDece\\b"@, s, "Dec"@);
    s
}

/// The captured text made ready for the calendar: runs of characters that
/// belong to no word become one space, the ends are trimmed, and month stems
/// are shortened.
pub open spec fn date_text(input: Seq<char>) -> Seq<char> {
    with_short_months(trimmed(substituted("\\W+"@, input, " "@)))
}

/// The date the first of the formats finds in the input.
pub open spec fn first_date(formats: Seq<Seq<char>>, input: Seq<char>) -> Option<Seq<char>>
    decreases formats.len(),
{
    if formats.len() == 0 {
        None
    } else {
        match calendar_date(date_text(input), formats[0]) {
            Some(date) => Some(date),
            None => first_date(formats.drop_first(), input),
        }
    }
}

/// Cuts each four-letter month stem down to the three-letter name.
pub fn convert_months(date_str: &str) -> (r: String)
    ensures
        r@ == with_short_months(date_str@),
{
    let s = date_str.to_owned();
    let s = substitute("(?i)\\bJanu\\b", s.as_str(), "Jan");
    let s = substitute("(?i)\\bFebr\\b", s.as_str(), "Feb");
    let s = substitute("(?i)\\bMarc\\b", s.as_str(), "Mar");
    let s = substitute("(?i)\\bApri\\b", s.as_str(), "Apr");
    let s = substitute("(?i)\\bMay\\b", s.as_str(), "May");
    let s = substitute("(?i)\\bJune\\b", s.as_str(), "Jun");
    let s = substitute("(?i)\\bJuly\\b", s.as_str(), "Jul");
    let s = substitute("(?i)\\bAugu\\b", s.as_str(), "Aug");
    let s = substitute("(?i)\\bSept\\b", s.as_str(), "Sep");
    let s = substitute("(?i)\\bOcto\\b", s.as_str(), "Oct");
    let s = substitute("(?i)\\bNove\\b", s.as_str(), "Nov");
    let s = substitute("(?i)\\bDece\\b", s.as_str(), "Dec");
    s
}

/// The date the captured text writes in the given format, as `YYYY-MM-DD`.
/// Declines where it writes none.
pub fn date_from_format(format: &str, input: &str, _current: &Option<String>) -> (r: Option<
    Option<String>,
>)
    ensures
        text_outcome(r) == match calendar_date(date_text(input@), format@) {
            Some(date) => Some(Some(date)),
            None => None,
        },
{
    let spaced = substitute("\\W+", input, " ");
    let sanitized = convert_months(trim(spaced.as_str()));
    match parse_date(sanitized.as_str(), format) {
        Some(date) => Some(Some(date)),
        None => None,
    }
}

/// The date the captured text writes in the first of the formats that fits.
pub fn date_from_formats(formats: &Vec<String>, input: &str, existing: &Option<String>) -> (r:
    Option<Option<String>>)
    ensures
        text_outcome(r) == match first_date(list_view(*formats), input@) {
            Some(date) => Some(Some(date)),
            None => None,
        },
{
    let ghost all = list_view(*formats);
    let mut i: usize = 0;
    proof {
        lemma_list_view(*formats);
        assert(all.subrange(0, all.len() as int) =~= all);
    }
    while i < formats.len()
        invariant
            i <= formats@.len(),
            all == list_view(*formats),
            all.len() == formats@.len(),
            forall|k: int| 0 <= k < formats@.len() ==> #[trigger] all[k] == formats@[k]@,
            first_date(all, input@) == first_date(all.subrange(i as int, all.len() as int), input@),
        decreases formats@.len() - i,
    {
        let result = date_from_format(formats[i].as_str(), input, existing);
        let ghost rest = all.subrange(i as int, all.len() as int);
        proof {
            assert(rest[0] == all[i as int]);
            assert(rest.drop_first() =~= all.subrange(i + 1, all.len() as int));
        }
        if result.is_some() {
            return result;
        }
        i = i + 1;
    }
    None
}

/// Appends a text to a list unless the list holds it already.
pub fn uniq_concat(value: String, result: &Vec<String>) -> (r: Option<Vec<String>>)
    ensures
        list_outcome(r) == Some(appended_once(list_view(*result), value@)),
{
    let mut list = clone_list(result);
    let mut i: usize = 0;
    proof {
        lemma_list_view(list);
        lemma_list_view(*result);
    }
    while i < list.len()
        invariant
            i <= list@.len(),
            list_view(list) == list_view(*result),
            forall|j: int| 0 <= j < list@.len() ==> #[trigger] list_view(list)[j] == list@[j]@,
            list_view(list).len() == list@.len(),
            forall|j: int| 0 <= j < i ==> list_view(list)[j] != value@,
        decreases list@.len() - i,
    {
        if same(list[i].as_str(), value.as_str()) {
            proof {
                assert(list_view(list)[i as int] == value@);
            }
            return Some(list);
        }
        i = i + 1;
    }
    let ghost before = list_view(list);
    list.push(value);
    proof {
        lemma_list_view(list);
        assert(!before.contains(value@));
        assert(list_view(list) =~= before.push(value@));
    }
    Some(list)
}

/// Appends a language to a list unless the list holds it already.
pub fn uniq_concat_language(value: Language, result: &Vec<Language>) -> (r: Option<Vec<Language>>)
    ensures
        r matches Some(l) && l@ == appended_once(result@, value),
{
    let mut list = clone_values(result);
    let mut i: usize = 0;
    while i < list.len()
        invariant
            i <= list@.len(),
            list@ == result@,
            forall|j: int| 0 <= j < i ==> list@[j] != value,
        decreases list@.len() - i,
    {
        if list[i] == value {
            return Some(list);
        }
        i = i + 1;
    }
    proof {
        assert(!list@.contains(value));
    }
    list.push(value);
    Some(list)
}

/// The standard name of the resolution the captured text announces.
pub fn resolution_transform(value: &str, _current: &Option<String>) -> (r: Option<Option<String>>)
    ensures
        text_outcome(r) == match resolution_of(lowercase_of(value@)) {
            Some(name) => Some(Some(name)),
            None => None,
        },
{
    let lowered = to_lower(value);
    let input = lowered.as_str();
    if contains(input, "2160") || contains(input, "4k") {
        Some(Some("2160p".to_owned()))
    } else if contains(input, "1440") || contains(input, "2k") {
        Some(Some("1440p".to_owned()))
    } else if contains(input, "1080") {
        Some(Some("1080p".to_owned()))
    } else if contains(input, "720") {
        Some(Some("720p".to_owned()))
    } else if contains(input, "480") {
        Some(Some("480p".to_owned()))
    } else if contains(input, "360") {
        Some(Some("360p".to_owned()))
    } else if contains(input, "240") {
        Some(Some("240p".to_owned()))
    } else {
        None
    }
}

/// The numbers written in `value`, in order.
pub fn numbers_of(value: &str) -> (r: Vec<i32>)
    ensures
        r@ == numbers_in(value@),
{
    let spans = find_all("\\d+", value);
    let mut numbers: Vec<i32> = Vec::new();
    let mut i: usize = 0;
    while i < spans.len()
        invariant
            i <= spans@.len(),
            spans@ == occurrences("\\d+"@, value@),
            numbers@ == numbers_at(value@, spans@.subrange(0, i as int)),
        decreases spans@.len() - i,
    {
        proof {
            assert(spans@.subrange(0, i + 1).drop_last() =~= spans@.subrange(0, i as int));
        }
        let g = spans[i];
        if g.fits(value) {
            match parse_i32(g.as_str(value)) {
                Some(n) => {
                    numbers.push(n);
                },
                None => {},
            }
        }
        i = i + 1;
    }
    proof {
        assert(spans@.subrange(0, i as int) =~= spans@);
    }
    numbers
}

/// Every number from `from` up to and including `to`.
pub fn numbers_between(from: i32, to: i32) -> (r: Vec<i32>)
    ensures
        r@ == interval(from, to),
{
    let mut list: Vec<i32> = Vec::new();
    if to < from {
        return list;
    }
    let mut next: i32 = from;
    list.push(next);
    while next < to
        invariant
            from <= next <= to,
            list@.len() == next - from + 1,
            forall|j: int| 0 <= j < list@.len() ==> list@[j] == from + j,
        decreases to - next,
    {
        next = next + 1;
        list.push(next);
    }
    proof {
        assert(list@ =~= interval(from, to));
    }
    list
}

/// Whether each number is one more than the number before it.
pub fn is_consecutive(numbers: &Vec<i32>) -> (r: bool)
    ensures
        r == consecutive(numbers@),
{
    let mut i: usize = 1;
    while i < numbers.len()
        invariant
            1 <= i,
            forall|j: int| 0 <= j < i - 1 && j < numbers@.len() - 1 ==> numbers@[j] + 1
                == #[trigger] numbers@[j + 1],
        decreases numbers@.len() - i,
    {
        if numbers[i - 1] == i32::MAX || numbers[i - 1] + 1 != numbers[i] {
            proof {
                assert(numbers@[i - 1] + 1 != numbers@[(i - 1) + 1]);
            }
            return false;
        }
        i = i + 1;
    }
    true
}

/// The episodes, seasons or volumes the captured text stands for.
pub fn range_func(value: &str, _current: &Vec<i32>) -> (r: Option<Vec<i32>>)
    ensures
        numbers_outcome(r) == range_of(numbers_in(value@)),
{
    let numbers = numbers_of(value);
    if numbers.len() == 2 && numbers[0] < numbers[1] {
        Some(numbers_between(numbers[0], numbers[1]))
    } else if numbers.len() > 2 && is_consecutive(&numbers) {
        Some(numbers)
    } else if numbers.len() == 1 {
        Some(numbers)
    } else {
        None
    }
}

/// Runs the first transform on the captured text and the second on what the
/// first returned and on the value the field holds.
pub fn chain_transforms<T, R1, F1: Fn(&str) -> R1, F2: Fn(R1, &T) -> Option<T>>(
    transform1: F1,
    transform2: F2,
    value: &str,
    state: &T,
) -> (r: Option<T>)
    requires
        call_requires(transform1, (value,)),
        forall|mid: R1|
            call_ensures(transform1, (value,), mid) ==> call_requires(transform2, (mid, state)),
    ensures
        exists|mid: R1|
            call_ensures(transform1, (value,), mid) && call_ensures(transform2, (mid, state), r),
{
    let intermediate = transform1(value);
    transform2(intermediate, state)
}

} // verus!
