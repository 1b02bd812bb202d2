//! Pattern matching through the two regular-expression engines the rules are
//! written for: `regress` (ECMAScript syntax with look-around, used by the
//! rule table) and `regex` (used by the title clean-up and the transforms).
//!
//! Neither engine is verified here. What a search returns is named by an
//! uninterpreted function of the pattern text and the subject, and the callers
//! state their results over those names. Offsets count bytes of the subject.

use crate::text::{byte_slice, len_bytes, on_boundary, slice};
use vstd::prelude::*;

verus! {

/// A compiled `regress` pattern.
#[verifier::external_type_specification]
#[verifier::external_body]
pub struct ExScriptRegex(regress::Regex);

/// The error `regress` reports for a pattern it cannot compile.
#[verifier::external_type_specification]
#[verifier::external_body]
pub struct ExScriptRegexError(regress::Error);

/// A compiled `regex` pattern.
#[verifier::external_type_specification]
#[verifier::external_body]
pub struct ExTextRegex(regex::Regex);

/// The error `regex` reports for a pattern it cannot compile.
#[verifier::external_type_specification]
#[verifier::external_body]
pub struct ExTextRegexError(regex::Error);

/// A byte range of a subject string.
#[derive(Clone, Copy, Debug, PartialEq, Eq)]
pub struct GroupMatch {
    pub start: usize,
    pub end: usize,
}

/// The first match of a pattern in a subject: the range of the whole match and
/// that of the first capture group, where the pattern has one and it took part.
#[derive(Clone, Copy, Debug, PartialEq, Eq)]
pub struct StringMatch {
    pub range: GroupMatch,
    pub first_group: Option<GroupMatch>,
}

impl GroupMatch {
    /// Whether the range runs forwards between two character boundaries of `text`.
    pub open spec fn within(self, text: Seq<char>) -> bool {
        self.start <= self.end && on_boundary(text, self.start as int) && on_boundary(
            text,
            self.end as int,
        )
    }

    /// The text the range covers.
    pub open spec fn text_in(self, text: Seq<char>) -> Seq<char> {
        byte_slice(text, self.start as int, self.end as int)
    }

    /// Whether the range runs forwards between two character boundaries of `text`.
    pub fn fits(&self, text: &str) -> (r: bool)
        ensures
            r == self.within(text@),
    {
        self.start <= self.end && self.end <= len_bytes(text) && text.is_char_boundary(self.start)
            && text.is_char_boundary(self.end)
    }

    /// The text the range covers.
    pub fn as_str<'a>(&self, text: &'a str) -> (r: &'a str)
        requires
            self.within(text@),
        ensures
            r@ == self.text_in(text@),
    {
        slice(text, self.start, self.end)
    }
}

impl StringMatch {
    /// The group to read a value from: the first capture group where it took
    /// part and lies within the text, else the whole match.
    pub open spec fn value_range(self, text: Seq<char>) -> GroupMatch {
        match self.first_group {
            Some(g) => if g.within(text) {
                g
            } else {
                self.range
            },
            None => self.range,
        }
    }

    /// The byte offset at which the match starts.
    pub fn start(&self) -> (r: usize)
        ensures
            r == self.range.start,
    {
        self.range.start
    }

    /// The byte offset at which the match ends.
    pub fn end(&self) -> (r: usize)
        ensures
            r == self.range.end,
    {
        self.range.end
    }

    /// Group 0 is the whole match and group 1 the first capture group; no
    /// other group is kept.
    pub fn group(&self, idx: usize) -> (r: Option<GroupMatch>)
        ensures
            idx == 0 ==> r == Some(self.range),
            idx == 1 ==> r == self.first_group,
            idx > 1 ==> r.is_none(),
    {
        if idx == 0 {
            Some(self.range)
        } else if idx == 1 {
            self.first_group
        } else {
            None
        }
    }

    /// The matched text.
    pub fn as_str<'a>(&self, text: &'a str) -> (r: &'a str)
        requires
            self.range.within(text@),
        ensures
            r@ == self.range.text_in(text@),
    {
        self.range.as_str(text)
    }
}

/// The pattern text a `regress` expression was compiled from.
pub uninterp spec fn script_pattern(re: regress::Regex) -> Seq<char>;

/// Whether a `regress` expression was compiled to ignore case.
pub uninterp spec fn script_ignores_case(re: regress::Regex) -> bool;

/// Whether `regress` compiles a pattern under a case flag.
pub uninterp spec fn script_accepts(pattern: Seq<char>, icase: bool) -> bool;

/// What `regress::Regex::find` returns for a pattern, its case flag and a subject.
pub uninterp spec fn script_first_match(pattern: Seq<char>, icase: bool, text: Seq<char>) -> Option<
    StringMatch,
>;

/// The pattern text a `regex` expression was compiled from.
pub uninterp spec fn text_pattern(re: regex::Regex) -> Seq<char>;

/// Whether `regex` compiles a pattern.
pub uninterp spec fn text_accepts(pattern: Seq<char>) -> bool;

/// What `regex::Regex::replace_all` returns for a pattern, a subject and a replacement.
pub uninterp spec fn text_replaced(pattern: Seq<char>, text: Seq<char>, rep: Seq<char>) -> Seq<
    char,
>;

/// The ranges `regex::Regex::find_iter` yields for a pattern and a subject, in order.
pub uninterp spec fn text_matches(pattern: Seq<char>, text: Seq<char>) -> Seq<GroupMatch>;

/// The range of the first capture group in what `regex::Regex::captures`
/// returns for a pattern and a subject, where there is a match and the group took part.
pub uninterp spec fn text_first_group(pattern: Seq<char>, text: Seq<char>) -> Option<GroupMatch>;

/// `regress::Regex::with_flags`, with only the case flag ever set. Whether a
/// pattern compiles depends on the pattern and the flag alone; a compiled
/// expression remembers both.
#[verifier::external_body]
pub(crate) fn script_compile(pattern: &str, icase: bool) -> (r: Result<
    regress::Regex,
    regress::Error,
>)
    ensures
        r.is_ok() == script_accepts(pattern@, icase),
        r matches Ok(re) ==> script_pattern(re) == pattern@ && script_ignores_case(re) == icase,
{
    let mut flags = regress::Flags::default();
    flags.icase = icase;
    regress::Regex::with_flags(pattern, flags)
}

/// `regress::Regex::find`: the first match in `text`, with byte offsets into
/// `text`. The result depends on the pattern, the flag and the subject alone.
#[verifier::external_body]
pub(crate) fn script_find(re: &regress::Regex, text: &str) -> (r: Option<StringMatch>)
    ensures
        r == script_first_match(script_pattern(*re), script_ignores_case(*re), text@),
{
    re.find(text).map(
        |m|
            StringMatch {
                range: GroupMatch { start: m.start(), end: m.end() },
                first_group: m.group(1).map(|g| GroupMatch { start: g.start, end: g.end }),
            },
    )
}

/// `regex::Regex::new`. Whether a pattern compiles depends on the pattern
/// alone; a compiled expression remembers it.
#[verifier::external_body]
pub(crate) fn text_compile(pattern: &str) -> (r: Result<regex::Regex, regex::Error>)
    ensures
        r.is_ok() == text_accepts(pattern@),
        r matches Ok(re) ==> text_pattern(re) == pattern@,
{
    regex::Regex::new(pattern)
}

/// `regex::Regex::replace_all`: `text` with every match replaced by the
/// expansion of `rep`.
#[verifier::external_body]
pub(crate) fn text_replace_all(re: &regex::Regex, text: &str, rep: &str) -> (r: String)
    ensures
        r@ == text_replaced(text_pattern(*re), text@, rep@),
{
    re.replace_all(text, rep).into_owned()
}

/// `regex::Regex::find_iter`: the ranges of the successive matches in `text`.
#[verifier::external_body]
pub(crate) fn text_find_all(re: &regex::Regex, text: &str) -> (r: Vec<GroupMatch>)
    ensures
        r@ == text_matches(text_pattern(*re), text@),
{
    re.find_iter(text).map(|m| GroupMatch { start: m.start(), end: m.end() }).collect()
}

/// `regex::Regex::captures`, of which only the first capture group is kept.
#[verifier::external_body]
pub(crate) fn text_capture_first(re: &regex::Regex, text: &str) -> (r: Option<GroupMatch>)
    ensures
        r == text_first_group(text_pattern(*re), text@),
{
    re.captures(text).and_then(|c| c.get(1)).map(|m| GroupMatch { start: m.start(), end: m.end() })
}

/// Compiles a pattern that ignores case.
pub fn case_insensitive(pattern: &str) -> (r: Result<regress::Regex, regress::Error>)
    ensures
        r.is_ok() == script_accepts(pattern@, true),
        r matches Ok(re) ==> script_pattern(re) == pattern@ && script_ignores_case(re),
{
    script_compile(pattern, true)
}

/// Compiles a pattern that minds case.
pub fn case_sensitive(pattern: &str) -> (r: Result<regress::Regex, regress::Error>)
    ensures
        r.is_ok() == script_accepts(pattern@, false),
        r matches Ok(re) ==> script_pattern(re) == pattern@ && !script_ignores_case(re),
{
    script_compile(pattern, false)
}

/// The first match of a compiled pattern in `subject`.
pub fn find_str(regex: &regress::Regex, subject: &str) -> (r: Option<StringMatch>)
    ensures
        r == script_first_match(script_pattern(*regex), script_ignores_case(*regex), subject@),
{
    script_find(regex, subject)
}

/// `text` with every match of `pattern` replaced by `rep`, where the engine
/// takes the pattern, and `text` itself where it does not.
pub open spec fn substituted(pattern: Seq<char>, text: Seq<char>, rep: Seq<char>) -> Seq<char> {
    if text_accepts(pattern) {
        text_replaced(pattern, text, rep)
    } else {
        text
    }
}

/// The ranges of the successive matches of `pattern` in `text`; none where
/// the engine does not take the pattern.
pub open spec fn occurrences(pattern: Seq<char>, text: Seq<char>) -> Seq<GroupMatch> {
    if text_accepts(pattern) {
        text_matches(pattern, text)
    } else {
        Seq::empty()
    }
}

/// The range of the first capture group of the first match of `pattern` in
/// `text`; none where the engine does not take the pattern.
pub open spec fn captured(pattern: Seq<char>, text: Seq<char>) -> Option<GroupMatch> {
    if text_accepts(pattern) {
        text_first_group(pattern, text)
    } else {
        None
    }
}

/// Replaces every match of `pattern` in `text` by `rep`. A pattern the engine
/// refuses replaces nothing.
pub fn substitute(pattern: &str, text: &str, rep: &str) -> (r: String)
    ensures
        r@ == substituted(pattern@, text@, rep@),
{
    match text_compile(pattern) {
        Ok(re) => text_replace_all(&re, text, rep),
        Err(_) => text.to_owned(),
    }
}

/// Finds the successive matches of `pattern` in `text`. A pattern the engine
/// refuses matches nothing.
pub fn find_all(pattern: &str, text: &str) -> (r: Vec<GroupMatch>)
    ensures
        r@ == occurrences(pattern@, text@),
{
    match text_compile(pattern) {
        Ok(re) => text_find_all(&re, text),
        Err(_) => Vec::new(),
    }
}

/// Finds the first capture group of the first match of `pattern` in `text`. A
/// pattern the engine refuses matches nothing.
pub fn capture_first(pattern: &str, text: &str) -> (r: Option<GroupMatch>)
    ensures
        r == captured(pattern@, text@),
{
    match text_compile(pattern) {
        Ok(re) => text_capture_first(&re, text),
        Err(_) => None,
    }
}

} // verus!
