//! Handlers: the units the parser applies in order. Most are pattern rules,
//! made of a pattern, the field to write, a transform and four options; a few
//! look at what earlier handlers recorded.
//!
//! A handler reads the working title, reads and writes the result and the
//! ledger, and may return a descriptor of its match for the parser to act on.
//! It never changes the working title itself.

use crate::ledger::{
    lookup, other_before, precedes_others, recorded, Lines, Match, MatchLedger, MatchView,
};
use crate::matching::{
    capture_first, captured, find_str, script_first_match, script_ignores_case, script_pattern,
    substitute, substituted, GroupMatch, StringMatch,
};
use crate::record::{
    clone_list, clone_text, clone_values, lemma_list_view, list_view, ParsedTitle, Record,
};
use crate::text::{
    boundary_floor, byte_len, byte_slice, contained, contains, decimal_i32, find, first_occurrence,
    floor_to_boundary, lemma_byte_slice_len, len_bytes, lowercase_of, occurs, occurs_at,
    on_boundary, parse_i32, replace, replaced, same, slice, trimmed, uppercase_of,
};
use crate::transforms::{
    appended_once, chain_transforms, date_from_formats, filled, first_date, identity,
    identity_non_optional, list_outcome, lowercase, numbers_in, numbers_of, range_func, range_of,
    replace_value, replace_with_value, resolution_of, resolution_transform, true_if_found,
    uniq_concat, uniq_concat_language, uppercase, value,
};
use crate::types::codec::Codec;
use crate::types::field::{FlagField, ListField, NumbersField, TextField};
use crate::types::language::Language;
use vstd::prelude::*;
use vstd::utf8::*;

verus! {

/// What a handler works on: the working title, the result so far and the ledger.
pub struct HandlerContext {
    pub title: String,
    pub result: ParsedTitle,
    pub matched: MatchLedger,
}

/// The content of a [`HandlerContext`].
pub struct ContextView {
    pub title: Seq<char>,
    pub result: Record,
    pub matched: Lines,
}

impl View for HandlerContext {
    type V = ContextView;

    open spec fn view(&self) -> ContextView {
        ContextView { title: self.title@, result: self.result@, matched: self.matched@ }
    }
}

/// What an accepted match asks of the parser.
#[derive(Debug)]
pub struct HandlerResult {
    pub raw_match: String,
    pub match_index: usize,
    pub remove: bool,
    pub skip_from_title: bool,
}

/// The content of a [`HandlerResult`].
pub struct HandlerResultView {
    pub raw_match: Seq<char>,
    pub match_index: usize,
    pub remove: bool,
    pub skip_from_title: bool,
}

impl View for HandlerResult {
    type V = HandlerResultView;

    open spec fn view(&self) -> HandlerResultView {
        HandlerResultView {
            raw_match: self.raw_match@,
            match_index: self.match_index,
            remove: self.remove,
            skip_from_title: self.skip_from_title,
        }
    }
}

/// The view of what a handler returns.
pub open spec fn result_view(r: Option<HandlerResult>) -> Option<HandlerResultView> {
    match r {
        Some(d) => Some(d@),
        None => None,
    }
}

/// What one application of a handler comes to: the context after it, and the
/// descriptor it returned.
pub struct Step {
    pub context: ContextView,
    pub result: Option<HandlerResultView>,
}

/// The step that changes nothing and returns nothing.
pub open spec fn declined(ctx: ContextView) -> Step {
    Step { context: ctx, result: None }
}

/// The options of a pattern rule.
#[derive(Clone, Copy, Debug)]
pub struct RegexHandlerOptions {
    /// Do not run once the field holds a value.
    pub skip_if_already_found: bool,
    /// Let the match leave the end of the title where it is.
    pub skip_from_title: bool,
    /// Accept the match only where it starts before every match recorded for another name.
    pub skip_if_first: bool,
    /// Cut the matched text out of the working title.
    pub remove: bool,
}

/// The options a rule has unless it says otherwise: it does not run once its
/// field holds a value, and nothing else.
pub open spec fn plain_options() -> RegexHandlerOptions {
    RegexHandlerOptions {
        skip_if_already_found: true,
        skip_from_title: false,
        skip_if_first: false,
        remove: false,
    }
}

impl Default for RegexHandlerOptions {
    fn default() -> (r: RegexHandlerOptions)
        ensures
            r == plain_options(),
    {
        RegexHandlerOptions {
            skip_if_already_found: true,
            skip_from_title: false,
            skip_if_first: false,
            remove: false,
        }
    }
}

impl RegexHandlerOptions {
    /// These options, with the matched text cut out of the working title.
    pub open spec fn with_removal(self) -> RegexHandlerOptions {
        RegexHandlerOptions { remove: true, ..self }
    }

    /// These options, with the match leaving the end of the title where it is.
    pub open spec fn kept_outside_title(self) -> RegexHandlerOptions {
        RegexHandlerOptions { skip_from_title: true, ..self }
    }

    /// These options, with the match accepted only ahead of every other recorded match.
    pub open spec fn accepted_only_first(self) -> RegexHandlerOptions {
        RegexHandlerOptions { skip_if_first: true, ..self }
    }

    /// These options, with the rule running even where its field holds a value.
    pub open spec fn run_again(self) -> RegexHandlerOptions {
        RegexHandlerOptions { skip_if_already_found: false, ..self }
    }

    /// These options, with the matched text cut out of the working title.
    #[verifier::when_used_as_spec(with_removal)]
    pub fn removing(self) -> (r: RegexHandlerOptions)
        ensures
            r == self.with_removal(),
    {
        RegexHandlerOptions { remove: true, ..self }
    }

    /// These options, with the match leaving the end of the title where it is.
    #[verifier::when_used_as_spec(kept_outside_title)]
    pub fn outside_title(self) -> (r: RegexHandlerOptions)
        ensures
            r == self.kept_outside_title(),
    {
        RegexHandlerOptions { skip_from_title: true, ..self }
    }

    /// These options, with the match accepted only ahead of every other recorded match.
    #[verifier::when_used_as_spec(accepted_only_first)]
    pub fn only_first(self) -> (r: RegexHandlerOptions)
        ensures
            r == self.accepted_only_first(),
    {
        RegexHandlerOptions { skip_if_first: true, ..self }
    }

    /// These options, with the rule running even where its field holds a value.
    #[verifier::when_used_as_spec(run_again)]
    pub fn repeatable(self) -> (r: RegexHandlerOptions)
        ensures
            r == self.run_again(),
    {
        RegexHandlerOptions { skip_if_already_found: false, ..self }
    }
}

/// Values that can tell whether they have been set.
pub trait PropertyIsSet {
    /// Whether the value has been set.
    spec fn holds_value(&self) -> bool;

    /// Whether the value has been set.
    fn is_set(&self) -> (r: bool)
        ensures
            r == self.holds_value(),
    ;
}

impl<T> PropertyIsSet for Option<T> {
    open spec fn holds_value(&self) -> bool {
        self.is_some()
    }

    fn is_set(&self) -> (r: bool) {
        self.is_some()
    }
}

impl PropertyIsSet for bool {
    open spec fn holds_value(&self) -> bool {
        *self
    }

    fn is_set(&self) -> (r: bool) {
        *self
    }
}

impl<T> PropertyIsSet for Vec<T> {
    open spec fn holds_value(&self) -> bool {
        self@.len() > 0
    }

    fn is_set(&self) -> (r: bool) {
        self.len() > 0
    }
}

impl PropertyIsSet for String {
    open spec fn holds_value(&self) -> bool {
        self@.len() > 0
    }

    fn is_set(&self) -> (r: bool) {
        !self.as_str().is_empty()
    }
}

/// How a captured text becomes the value of a text field.
#[derive(Debug)]
pub enum TextTransform {
    /// The captured text.
    Identity,
    /// The captured text in upper case.
    Uppercase,
    /// The captured text in lower case.
    Lowercase,
    /// A template in which `$1` stands for the captured text.
    Value(String),
    /// The standard name of the resolution the captured text announces.
    Resolution,
    /// The date the captured text writes in the first of these formats that fits.
    Date(Vec<String>),
}

/// How a captured text becomes a list of numbers.
#[derive(Clone, Copy, Debug)]
pub enum NumbersTransform {
    /// The numbers written in the text, a pair standing for the whole interval.
    Range,
    /// The one number the text writes.
    Single,
}

/// The field a pattern rule writes, with what it writes there.
#[derive(Debug)]
pub enum Target {
    Text(TextField, TextTransform),
    /// Raises the flag.
    Flag(FlagField),
    /// Appends the filled template unless the list holds it.
    List(ListField, String),
    Numbers(NumbersField, NumbersTransform),
    /// Stores the number the captured text writes.
    Year,
    /// Stores the codec.
    Codec(Codec),
    /// Appends the language unless the list holds it.
    Language(Language),
    /// Stores the captured text, to be replaced by the title proper when the parse ends.
    Title,
}

/// The content of a [`TextTransform`].
pub enum TextTransformView {
    Identity,
    Uppercase,
    Lowercase,
    Value(Seq<char>),
    Resolution,
    Date(Seq<Seq<char>>),
}

/// The content of a [`Target`].
pub enum TargetView {
    Text(TextField, TextTransformView),
    Flag(FlagField),
    List(ListField, Seq<char>),
    Numbers(NumbersField, NumbersTransform),
    Year,
    Codec(Codec),
    Language(Language),
    Title,
}

impl View for TextTransform {
    type V = TextTransformView;

    open spec fn view(&self) -> TextTransformView {
        match self {
            TextTransform::Identity => TextTransformView::Identity,
            TextTransform::Uppercase => TextTransformView::Uppercase,
            TextTransform::Lowercase => TextTransformView::Lowercase,
            TextTransform::Value(template) => TextTransformView::Value(template@),
            TextTransform::Resolution => TextTransformView::Resolution,
            TextTransform::Date(formats) => TextTransformView::Date(list_view(*formats)),
        }
    }
}

impl View for Target {
    type V = TargetView;

    open spec fn view(&self) -> TargetView {
        match self {
            Target::Text(f, t) => TargetView::Text(*f, t@),
            Target::Flag(f) => TargetView::Flag(*f),
            Target::List(f, value) => TargetView::List(*f, value@),
            Target::Numbers(f, t) => TargetView::Numbers(*f, *t),
            Target::Year => TargetView::Year,
            Target::Codec(c) => TargetView::Codec(*c),
            Target::Language(l) => TargetView::Language(*l),
            Target::Title => TargetView::Title,
        }
    }
}

impl TextTransformView {
    /// The text the transform makes of the captured text, if any.
    pub open spec fn outcome(self, clean: Seq<char>) -> Option<Seq<char>> {
        match self {
            TextTransformView::Identity => Some(clean),
            TextTransformView::Uppercase => Some(uppercase_of(clean)),
            TextTransformView::Lowercase => Some(lowercase_of(clean)),
            TextTransformView::Value(template) => Some(filled(template, clean)),
            TextTransformView::Resolution => resolution_of(lowercase_of(clean)),
            TextTransformView::Date(formats) => first_date(formats, clean),
        }
    }
}

impl TextTransform {
    /// Applies the transform.
    pub fn apply(&self, clean: &str, current: &Option<String>) -> (r: Option<String>)
        ensures
            r.is_some() == self@.outcome(clean@).is_some(),
            r matches Some(v) ==> self@.outcome(clean@) == Some(v@),
    {
        let made = match self {
            TextTransform::Identity => identity(clean, current),
            TextTransform::Uppercase => uppercase(clean, current),
            TextTransform::Lowercase => lowercase(clean, current),
            TextTransform::Value(template) => value(template.as_str(), clean, current),
            TextTransform::Resolution => resolution_transform(clean, current),
            TextTransform::Date(formats) => date_from_formats(formats, clean, current),
        };
        match made {
            Some(Some(v)) => Some(v),
            _ => None,
        }
    }
}

impl NumbersTransform {
    /// The numbers the transform makes of the captured text, if any.
    pub open spec fn outcome(self, clean: Seq<char>) -> Option<Seq<i32>> {
        match self {
            NumbersTransform::Range => range_of(numbers_in(clean)),
            NumbersTransform::Single => match decimal_i32(clean) {
                Some(n) => Some(seq![n]),
                None => None,
            },
        }
    }

    /// Applies the transform.
    pub fn apply(&self, clean: &str, current: &Vec<i32>) -> (r: Option<Vec<i32>>)
        ensures
            r.is_some() == self.outcome(clean@).is_some(),
            r matches Some(v) ==> self.outcome(clean@) == Some(v@),
    {
        match self {
            NumbersTransform::Range => range_func(clean, current),
            NumbersTransform::Single => match parse_i32(clean) {
                Some(n) => {
                    let mut one: Vec<i32> = Vec::new();
                    one.push(n);
                    proof {
                        assert(one@ =~= seq![n]);
                    }
                    Some(one)
                },
                None => None,
            },
        }
    }
}

impl TargetView {
    /// Whether the field the target writes holds a value.
    pub open spec fn is_set(self, record: Record) -> bool {
        match self {
            TargetView::Text(f, _) => record.texts[f].is_some(),
            TargetView::Flag(f) => record.flags[f],
            TargetView::List(f, _) => record.lists[f].len() > 0,
            TargetView::Numbers(f, _) => record.numbers[f].len() > 0,
            TargetView::Year => record.year.is_some(),
            TargetView::Codec(_) => record.codec.is_some(),
            TargetView::Language(_) => record.languages.len() > 0,
            TargetView::Title => record.title.len() > 0,
        }
    }

    /// The record after the target wrote what it makes of the captured text;
    /// `None` where its transform declines.
    pub open spec fn applied(self, clean: Seq<char>, record: Record) -> Option<Record> {
        match self {
            TargetView::Text(f, t) => match t.outcome(clean) {
                Some(v) => Some(record.with_text(f, Some(v))),
                None => None,
            },
            TargetView::Flag(f) => if clean.len() == 0 {
                None
            } else {
                Some(record.with_flag(f, true))
            },
            TargetView::List(f, template) => Some(
                record.with_list(f, appended_once(record.lists[f], filled(template, clean))),
            ),
            TargetView::Numbers(f, t) => match t.outcome(clean) {
                Some(v) => Some(record.with_numbers(f, v)),
                None => None,
            },
            TargetView::Year => match decimal_i32(trimmed(clean)) {
                Some(n) => Some(record.with_year(Some(n))),
                None => None,
            },
            TargetView::Codec(c) => Some(record.with_codec(Some(c))),
            TargetView::Language(l) => Some(
                record.with_languages(appended_once(record.languages, l)),
            ),
            TargetView::Title => Some(record.with_title(clean)),
        }
    }
}

impl TextTransform {
    /// A copy of the transform.
    pub fn duplicate(&self) -> (r: TextTransform)
        ensures
            r@ == self@,
    {
        match self {
            TextTransform::Identity => TextTransform::Identity,
            TextTransform::Uppercase => TextTransform::Uppercase,
            TextTransform::Lowercase => TextTransform::Lowercase,
            TextTransform::Value(template) => TextTransform::Value(template.clone()),
            TextTransform::Resolution => TextTransform::Resolution,
            TextTransform::Date(formats) => TextTransform::Date(clone_list(formats)),
        }
    }
}

impl Target {
    /// A copy of the target.
    pub fn duplicate(&self) -> (r: Target)
        ensures
            r@ == self@,
    {
        match self {
            Target::Text(f, t) => Target::Text(*f, t.duplicate()),
            Target::Flag(f) => Target::Flag(*f),
            Target::List(f, value) => Target::List(*f, value.clone()),
            Target::Numbers(f, t) => Target::Numbers(*f, *t),
            Target::Year => Target::Year,
            Target::Codec(c) => Target::Codec(*c),
            Target::Language(l) => Target::Language(*l),
            Target::Title => Target::Title,
        }
    }

    /// Whether the field the target writes holds a value.
    pub fn holds(&self, result: &ParsedTitle) -> (r: bool)
        ensures
            r == self@.is_set(result@),
    {
        match self {
            Target::Text(f, _) => result.text(*f).is_set(),
            Target::Flag(f) => result.flag(*f).is_set(),
            Target::List(f, _) => {
                let list = result.list(*f);
                proof {
                    lemma_list_view(*list);
                }
                list.is_set()
            },
            Target::Numbers(f, _) => result.numbers(*f).is_set(),
            Target::Year => result.year().is_set(),
            Target::Codec(_) => result.codec().is_set(),
            Target::Language(_) => result.languages().is_set(),
            Target::Title => result.title().is_set(),
        }
    }

    /// Writes what the target makes of the captured text, and says whether it
    /// wrote. Where the transform declines, nothing changes.
    pub fn apply(&self, clean: &str, result: &mut ParsedTitle) -> (done: bool)
        ensures
            done == self@.applied(clean@, old(result)@).is_some(),
            done ==> Some(final(result)@) == self@.applied(clean@, old(result)@),
            !done ==> final(result)@ == old(result)@,
    {
        match self {
            Target::Text(f, t) => {
                match t.apply(clean, result.text(*f)) {
                    Some(v) => {
                        result.set_text(*f, Some(v));
                        true
                    },
                    None => false,
                }
            },
            Target::Flag(f) => {
                match true_if_found(clean, &result.flag(*f)) {
                    Some(v) => {
                        result.set_flag(*f, v);
                        true
                    },
                    None => false,
                }
            },
            Target::List(f, template) => {
                let fill = |v: &str| -> (filled_in: String)
                    ensures
                        filled_in@ == filled(template@, v@),
                    { replace_value(template.as_str(), v) };
                let append = |value: String, list: &Vec<String>| -> (made: Option<Vec<String>>)
                    ensures
                        list_outcome(made) == Some(appended_once(list_view(*list), value@)),
                    { uniq_concat(value, list) };
                match chain_transforms(fill, append, clean, result.list(*f)) {
                    Some(v) => {
                        result.set_list(*f, v);
                        true
                    },
                    None => false,
                }
            },
            Target::Numbers(f, t) => {
                match t.apply(clean, result.numbers(*f)) {
                    Some(v) => {
                        result.set_numbers(*f, v);
                        true
                    },
                    None => false,
                }
            },
            Target::Year => {
                match crate::transforms::parse(clean, &result.year()) {
                    Some(v) => {
                        result.set_year(v);
                        true
                    },
                    None => false,
                }
            },
            Target::Codec(c) => {
                result.set_codec(Some(replace_with_value(*c, clean)));
                true
            },
            Target::Language(l) => {
                match uniq_concat_language(replace_with_value(*l, clean), result.languages()) {
                    Some(v) => {
                        result.set_languages(v);
                        true
                    },
                    None => false,
                }
            },
            Target::Title => {
                match identity_non_optional(clean, result.title()) {
                    Some(v) => {
                        result.set_title(v);
                        true
                    },
                    None => false,
                }
            },
        }
    }
}

/// A pattern rule: where the pattern matches, the target writes what it makes
/// of the capture, subject to the options.
pub struct PatternRule {
    pub target: Target,
    pub regex: regress::Regex,
    pub options: RegexHandlerOptions,
}

/// What a handler does.
pub enum Action {
    /// Applies a pattern rule.
    Rule(PatternRule),
    /// Strips hyphens and spaces from the bit depth.
    NormalizeBitDepth,
    /// Strips spaces, dots and hyphens from the codec as it was written.
    NormalizeCodecTag,
    /// Looks for a volume number, from the year's match on.
    Volume(regress::Regex),
    /// Looks for an episode number between the matches that bound it, first
    /// with the strict pattern and then with the loose one.
    EpisodeFallback(regress::Regex, regress::Regex),
    /// Adds Portuguese where the episode's wording or the title suggests it;
    /// the patterns are for the two in that order.
    InferPortuguese(regress::Regex, regress::Regex),
    /// Forgets a bracketed group that another match reaches into.
    DropOverlappingGroup,
    /// Forgets a group that is empty or a lone hyphen.
    DropEmptyGroup,
}

/// A named action.
pub struct Handler {
    pub name: String,
    pub action: Action,
}

/// The content of a compiled pattern: its text, and whether it ignores case.
pub struct PatternView {
    pub text: Seq<char>,
    pub icase: bool,
}

/// The content of a compiled pattern.
pub open spec fn pattern_view(regex: regress::Regex) -> PatternView {
    PatternView { text: script_pattern(regex), icase: script_ignores_case(regex) }
}

impl PatternView {
    /// The first match of the pattern in a text.
    pub open spec fn first_match(self, text: Seq<char>) -> Option<StringMatch> {
        script_first_match(self.text, self.icase, text)
    }
}

/// The content of a [`PatternRule`].
pub struct RuleView {
    pub target: TargetView,
    pub pattern: PatternView,
    pub options: RegexHandlerOptions,
}

/// The content of an [`Action`].
pub enum ActionView {
    Rule(RuleView),
    NormalizeBitDepth,
    NormalizeCodecTag,
    Volume(PatternView),
    EpisodeFallback(PatternView, PatternView),
    InferPortuguese(PatternView, PatternView),
    DropOverlappingGroup,
    DropEmptyGroup,
}

/// The content of a [`Handler`].
pub struct HandlerView {
    pub name: Seq<char>,
    pub action: ActionView,
}

impl View for PatternRule {
    type V = RuleView;

    open spec fn view(&self) -> RuleView {
        RuleView { target: self.target@, pattern: pattern_view(self.regex), options: self.options }
    }
}

impl View for Action {
    type V = ActionView;

    open spec fn view(&self) -> ActionView {
        match self {
            Action::Rule(rule) => ActionView::Rule(rule@),
            Action::NormalizeBitDepth => ActionView::NormalizeBitDepth,
            Action::NormalizeCodecTag => ActionView::NormalizeCodecTag,
            Action::Volume(pattern) => ActionView::Volume(pattern_view(*pattern)),
            Action::EpisodeFallback(strict, loose) => ActionView::EpisodeFallback(
                pattern_view(*strict),
                pattern_view(*loose),
            ),
            Action::InferPortuguese(wording, dubbing) => ActionView::InferPortuguese(
                pattern_view(*wording),
                pattern_view(*dubbing),
            ),
            Action::DropOverlappingGroup => ActionView::DropOverlappingGroup,
            Action::DropEmptyGroup => ActionView::DropEmptyGroup,
        }
    }
}

impl View for Handler {
    type V = HandlerView;

    open spec fn view(&self) -> HandlerView {
        HandlerView { name: self.name@, action: self.action@ }
    }
}

/// The pattern for a bracketed tag that opens the title.
pub open spec fn leading_tag_pattern() -> Seq<char> {
    "^\\[(.*?)\\]"@
}

/// Whether `raw` occurs inside the bracketed tag that opens the title.
pub open spec fn in_leading_tag(title: Seq<char>, tag: Option<GroupMatch>, raw: Seq<char>) -> bool {
    match tag {
        Some(g) => g.within(title) && contained(g.text_in(title), raw),
        None => false,
    }
}

/// What a pattern rule does with the first match of its pattern, given too
/// the contents of a bracketed tag at the start of the title.
///
/// A match that is missing or does not lie within the title, a transform that
/// declines, and (under `skip_if_first`) a match that does not start before
/// every match recorded under another name all leave the context as it is.
/// Otherwise the target's value is written, the match is recorded under the
/// rule's name, and the descriptor carries the options.
pub open spec fn accepted(
    name: Seq<char>,
    target: TargetView,
    options: RegexHandlerOptions,
    found: Option<StringMatch>,
    tag: Option<GroupMatch>,
    ctx: ContextView,
) -> Step {
    match found {
        Some(m) => {
            if !m.range.within(ctx.title) {
                declined(ctx)
            } else if options.skip_if_first && !precedes_others(
                ctx.matched,
                name,
                m.range.start,
            ) {
                declined(ctx)
            } else {
                let raw = m.range.text_in(ctx.title);
                match target.applied(m.value_range(ctx.title).text_in(ctx.title), ctx.result) {
                    None => declined(ctx),
                    Some(record) => Step {
                        context: ContextView {
                            title: ctx.title,
                            result: record,
                            matched: recorded(
                                ctx.matched,
                                name,
                                MatchView { raw_match: raw, match_index: m.range.start },
                            ),
                        },
                        result: Some(
                            HandlerResultView {
                                raw_match: raw,
                                match_index: m.range.start,
                                remove: options.remove,
                                skip_from_title: in_leading_tag(ctx.title, tag, raw)
                                    || options.skip_from_title,
                            },
                        ),
                    },
                }
            }
        },
        None => declined(ctx),
    }
}

/// Decides on the first match of a pattern rule and carries the decision out.
#[verifier::rlimit(50)]
pub fn accept(
    name: &str,
    target: &Target,
    options: &RegexHandlerOptions,
    found: Option<StringMatch>,
    tag: Option<GroupMatch>,
    context: &mut HandlerContext,
) -> (r: Option<HandlerResult>)
    requires
        old(context).matched.wf(),
    ensures
        final(context)@ == accepted(name@, target@, *options, found, tag, old(context)@).context,
        result_view(r) == accepted(name@, target@, *options, found, tag, old(context)@).result,
        final(context).matched.wf(),
{
    let m = match found {
        Some(m) => m,
        None => {
            return None;
        },
    };
    if !m.range.fits(context.title.as_str()) {
        return None;
    }
    if options.skip_if_first && !context.matched.precedes_others(name, m.range.start) {
        return None;
    }
    let raw = m.range.as_str(context.title.as_str()).to_owned();
    let value_range = match m.first_group {
        Some(g) => if g.fits(context.title.as_str()) {
            g
        } else {
            m.range
        },
        None => m.range,
    };
    let clean = value_range.as_str(context.title.as_str()).to_owned();
    let in_tag = match tag {
        Some(g) => g.fits(context.title.as_str()) && contains(
            g.as_str(context.title.as_str()),
            raw.as_str(),
        ),
        None => false,
    };
    if !target.apply(clean.as_str(), &mut context.result) {
        return None;
    }
    context.matched.insert(name, Match { raw_match: raw.clone(), match_index: m.range.start });
    Some(
        HandlerResult {
            raw_match: raw,
            match_index: m.range.start,
            remove: options.remove,
            skip_from_title: in_tag || options.skip_from_title,
        },
    )
}

impl RuleView {
    /// What the rule does in a context: nothing where the field is set and the
    /// rule is gated by it, else what its first match decides.
    pub open spec fn step(self, name: Seq<char>, ctx: ContextView) -> Step {
        if self.options.skip_if_already_found && self.target.is_set(ctx.result) {
            declined(ctx)
        } else {
            accepted(
                name,
                self.target,
                self.options,
                self.pattern.first_match(ctx.title),
                captured(leading_tag_pattern(), ctx.title),
                ctx,
            )
        }
    }
}

impl PatternRule {
    /// Applies the rule under the given name.
    pub fn call(&self, name: &str, context: &mut HandlerContext) -> (r: Option<HandlerResult>)
        requires
            old(context).matched.wf(),
        ensures
            final(context)@ == self@.step(name@, old(context)@).context,
            result_view(r) == self@.step(name@, old(context)@).result,
            final(context).matched.wf(),
    {
        if self.options.skip_if_already_found && self.target.holds(&context.result) {
            return None;
        }
        let found = find_str(&self.regex, context.title.as_str());
        let tag = capture_first("^\\[(.*?)\\]", context.title.as_str());
        accept(name, &self.target, &self.options, found, tag, context)
    }
}

/// Whether a text opens with `[` and closes with `]`.
pub open spec fn bracketed(s: Seq<char>) -> bool {
    let bytes = encode_utf8(s);
    bytes.len() > 0 && bytes[0] == 91 && bytes.last() == 93
}

/// Whether a text opens with `[` and closes with `]`.
pub fn is_bracketed(s: &str) -> (r: bool)
    ensures
        r == bracketed(s@),
{
    broadcast use vstd::slice::axiom_spec_len;
    let bytes = s.as_bytes();
    let n = bytes.len();
    n > 0 && bytes[0] == 91 && bytes[n - 1] == 93
}

/// The byte offset of the leftmost occurrence of `needle` in `hay`.
pub open spec fn offset_of(hay: Seq<char>, needle: Seq<char>) -> Option<int> {
    if contained(hay, needle) {
        Some(choose|at: int| first_occurrence(encode_utf8(hay), encode_utf8(needle), at))
    } else {
        None
    }
}

/// The leftmost occurrence is unique.
pub proof fn lemma_offset_of(hay: Seq<char>, needle: Seq<char>, at: int)
    requires
        first_occurrence(encode_utf8(hay), encode_utf8(needle), at),
    ensures
        offset_of(hay, needle) == Some(at),
{
    let h = encode_utf8(hay);
    let n = encode_utf8(needle);
    assert(occurs_at(h, n, at));
    let other = choose|other: int| first_occurrence(h, n, other);
    if other < at {
        assert(!occurs_at(h, n, other));
    } else if at < other {
        assert(!occurs_at(h, n, at));
    }
}

/// The offset recorded under `name`, or `fallback`.
pub open spec fn offset_or(lines: Lines, name: Seq<char>, fallback: usize) -> usize {
    match lookup(lines, name) {
        Some(m) => m.match_index,
        None => fallback,
    }
}

/// The smaller of two offsets.
pub open spec fn lesser(a: usize, b: usize) -> usize {
    if a <= b {
        a
    } else {
        b
    }
}

/// The smaller of two offsets.
pub fn least(a: usize, b: usize) -> (r: usize)
    ensures
        r == lesser(a, b),
{
    if a <= b {
        a
    } else {
        b
    }
}

/// The bit depth without its hyphens and spaces.
pub open spec fn bit_depth_normalized(ctx: ContextView) -> Step {
    match ctx.result.texts[TextField::BitDepth] {
        Some(depth) => Step {
            context: ContextView {
                result: ctx.result.with_text(
                    TextField::BitDepth,
                    Some(replaced(replaced(depth, "-"@, ""@), " "@, ""@)),
                ),
                ..ctx
            },
            result: None,
        },
        None => declined(ctx),
    }
}

/// Strips hyphens and spaces from the bit depth.
pub fn normalize_bit_depth(context: &mut HandlerContext)
    ensures
        final(context)@ == bit_depth_normalized(old(context)@).context,
        final(context).matched == old(context).matched,
{
    let current = clone_text(context.result.text(TextField::BitDepth));
    match current {
        Some(depth) => {
            proof {
                reveal_strlit("-");
                reveal_strlit(" ");
            }
            let joined = replace(depth.as_str(), "-", "");
            let packed = replace(joined.as_str(), " ", "");
            context.result.set_text(TextField::BitDepth, Some(packed));
        },
        None => {},
    }
}

/// The written codec without its spaces, dots and hyphens.
pub open spec fn codec_tag_normalized(ctx: ContextView) -> Step {
    match ctx.result.texts[TextField::CodecTag] {
        Some(tag) => Step {
            context: ContextView {
                result: ctx.result.with_text(
                    TextField::CodecTag,
                    Some(substituted("[ .-]+"@, tag, ""@)),
                ),
                ..ctx
            },
            result: None,
        },
        None => declined(ctx),
    }
}

/// Strips spaces, dots and hyphens from the codec as it was written.
pub fn normalize_codec_tag(context: &mut HandlerContext)
    ensures
        final(context)@ == codec_tag_normalized(old(context)@).context,
        final(context).matched == old(context).matched,
{
    let current = clone_text(context.result.text(TextField::CodecTag));
    match current {
        Some(tag) => {
            let packed = substitute("[ .-]+", tag.as_str(), "");
            context.result.set_text(TextField::CodecTag, Some(packed));
        },
        None => {},
    }
}

/// Where the search for a volume starts: at the year's match, pulled back to
/// the end of the title and to a character boundary.
pub open spec fn volume_start(ctx: ContextView) -> int {
    let year = offset_or(ctx.matched, "year"@, 0);
    boundary_floor(
        ctx.title,
        if year as int <= byte_len(ctx.title) {
            year as int
        } else {
            byte_len(ctx.title) as int
        },
    )
}

/// What the volume handler does with the first match of its pattern in the
/// title from `start` on: the captured number becomes the only volume, the
/// match is recorded at its offset in the title, and the descriptor asks for
/// its removal.
pub open spec fn volume_found(found: Option<StringMatch>, start: int, ctx: ContextView) -> Step {
    let tail = byte_slice(ctx.title, start, byte_len(ctx.title) as int);
    match found {
        Some(m) => match m.first_group {
            Some(g) => if m.range.within(tail) && g.within(tail) {
                match decimal_i32(g.text_in(tail)) {
                    Some(volume) => Step {
                        context: ContextView {
                            title: ctx.title,
                            result: ctx.result.with_numbers(NumbersField::Volumes, seq![volume]),
                            matched: recorded(
                                ctx.matched,
                                "volumes"@,
                                MatchView {
                                    raw_match: m.range.text_in(tail),
                                    match_index: (m.range.start + start) as usize,
                                },
                            ),
                        },
                        result: Some(
                            HandlerResultView {
                                raw_match: m.range.text_in(tail),
                                match_index: (m.range.start + start) as usize,
                                remove: true,
                                skip_from_title: false,
                            },
                        ),
                    },
                    None => declined(ctx),
                }
            } else {
                declined(ctx)
            },
            None => declined(ctx),
        },
        None => declined(ctx),
    }
}

/// Decides on the first volume match in the title from `start` on.
pub fn accept_volume(found: Option<StringMatch>, start: usize, context: &mut HandlerContext) -> (r:
    Option<HandlerResult>)
    requires
        old(context).matched.wf(),
        on_boundary(old(context).title@, start as int),
    ensures
        final(context)@ == volume_found(found, start as int, old(context)@).context,
        result_view(r) == volume_found(found, start as int, old(context)@).result,
        final(context).matched.wf(),
{
    let m = match found {
        Some(m) => m,
        None => {
            return None;
        },
    };
    let g = match m.first_group {
        Some(g) => g,
        None => {
            return None;
        },
    };
    let total = len_bytes(context.title.as_str());
    proof {
        encode_utf8_valid_utf8(context.title@);
        is_char_boundary_start_end_of_seq(encode_utf8(context.title@));
        lemma_byte_slice_len(context.title@, start as int, total as int);
    }
    let tail = slice(context.title.as_str(), start, total);
    if !m.range.fits(tail) || !g.fits(tail) {
        return None;
    }
    let volume = match parse_i32(g.as_str(tail)) {
        Some(volume) => volume,
        None => {
            return None;
        },
    };
    let raw = m.range.as_str(tail).to_owned();
    let at = m.range.start + start;
    let mut volumes: Vec<i32> = Vec::new();
    volumes.push(volume);
    proof {
        assert(volumes@ =~= seq![volume]);
    }
    context.matched.insert("volumes", Match { raw_match: raw.clone(), match_index: at });
    context.result.set_numbers(NumbersField::Volumes, volumes);
    Some(HandlerResult { raw_match: raw, match_index: at, remove: true, skip_from_title: false })
}

/// Where the search for an episode number ends: at the earliest of the
/// matches for resolution, quality, codec and audio, or at the end of the
/// title, pulled back to a character boundary.
pub open spec fn episode_end(ctx: ContextView) -> int {
    let bound = lesser(
        lesser(
            offset_or(ctx.matched, "resolution"@, usize::MAX),
            offset_or(ctx.matched, "quality"@, usize::MAX),
        ),
        lesser(
            offset_or(ctx.matched, "codec"@, usize::MAX),
            offset_or(ctx.matched, "audio"@, usize::MAX),
        ),
    );
    boundary_floor(
        ctx.title,
        if bound as int <= byte_len(ctx.title) {
            bound as int
        } else {
            byte_len(ctx.title) as int
        },
    )
}

/// Where the looser search for an episode number starts: at the earlier of
/// the matches for year and seasons, or at the start of the title, and never
/// beyond where the search ends.
pub open spec fn episode_start(ctx: ContextView) -> int {
    let year = lookup(ctx.matched, "year"@);
    let seasons = lookup(ctx.matched, "seasons"@);
    let bound: int = match (year, seasons) {
        (Some(y), Some(s)) => lesser(y.match_index, s.match_index) as int,
        (Some(y), None) => y.match_index as int,
        (None, Some(s)) => s.match_index as int,
        (None, None) => 0,
    };
    boundary_floor(
        ctx.title,
        if bound <= episode_end(ctx) {
            bound
        } else {
            episode_end(ctx)
        },
    )
}

/// What the episode fallback does with the first match of the strict pattern
/// in the title up to `end`, and that of the loose pattern between `start`
/// and `end`, which counts only where the strict one found nothing usable.
/// The numbers written in the captured group become the episodes, unless
/// there are none; the descriptor places the match where its text first
/// occurs in the title.
pub open spec fn episode_found(
    strict: Option<StringMatch>,
    loose: Option<StringMatch>,
    start: int,
    end: int,
    ctx: ContextView,
) -> Step {
    let beginning = byte_slice(ctx.title, 0, end);
    let middle = byte_slice(ctx.title, start, end);
    let strict_usable = strict.is_some() && strict.unwrap().range.within(beginning);
    let subject = if strict_usable {
        beginning
    } else {
        middle
    };
    let chosen = if strict_usable {
        strict
    } else {
        loose
    };
    match chosen {
        Some(m) => match m.first_group {
            Some(g) => if m.range.within(subject) && g.within(subject) {
                let numbers = numbers_in(g.text_in(subject));
                let raw = m.range.text_in(subject);
                match offset_of(ctx.title, raw) {
                    Some(at) => if numbers.len() > 0 {
                        Step {
                            context: ContextView {
                                result: ctx.result.with_numbers(NumbersField::Episodes, numbers),
                                ..ctx
                            },
                            result: Some(
                                HandlerResultView {
                                    raw_match: raw,
                                    match_index: at as usize,
                                    remove: false,
                                    skip_from_title: false,
                                },
                            ),
                        }
                    } else {
                        declined(ctx)
                    },
                    None => declined(ctx),
                }
            } else {
                declined(ctx)
            },
            None => declined(ctx),
        },
        None => declined(ctx),
    }
}

/// Decides on a match of one of the episode patterns in `subject`, a part of the title.
fn accept_episode(m: StringMatch, subject: &str, context: &mut HandlerContext) -> (r: Option<
    HandlerResult,
>)
    ensures
        final(context).title == old(context).title,
        final(context).matched == old(context).matched,
        match m.first_group {
            Some(g) => if m.range.within(subject@) && g.within(subject@) {
                let numbers = numbers_in(g.text_in(subject@));
                let raw = m.range.text_in(subject@);
                match offset_of(old(context).title@, raw) {
                    Some(at) => if numbers.len() > 0 {
                        &&& final(context).result@ == old(context).result@.with_numbers(
                            NumbersField::Episodes,
                            numbers,
                        )
                        &&& result_view(r) == Some(
                            HandlerResultView {
                                raw_match: raw,
                                match_index: at as usize,
                                remove: false,
                                skip_from_title: false,
                            },
                        )
                    } else {
                        final(context).result@ == old(context).result@ && r.is_none()
                    },
                    None => final(context).result@ == old(context).result@ && r.is_none(),
                }
            } else {
                final(context).result@ == old(context).result@ && r.is_none()
            },
            None => final(context).result@ == old(context).result@ && r.is_none(),
        },
{
    let g = match m.first_group {
        Some(g) => g,
        None => {
            return None;
        },
    };
    if !m.range.fits(subject) || !g.fits(subject) {
        return None;
    }
    let numbers = numbers_of(g.as_str(subject));
    let raw = m.range.as_str(subject).to_owned();
    let at = match find(context.title.as_str(), raw.as_str()) {
        Some(at) => {
            proof {
                lemma_offset_of(context.title@, raw@, at as int);
            }
            at
        },
        None => {
            return None;
        },
    };
    if numbers.len() == 0 {
        return None;
    }
    context.result.set_numbers(NumbersField::Episodes, numbers);
    Some(HandlerResult { raw_match: raw, match_index: at, remove: false, skip_from_title: false })
}

/// Whether a list of languages holds Portuguese or Spanish.
pub fn speaks_iberian(languages: &Vec<Language>) -> (r: bool)
    ensures
        r == (languages@.contains(Language::Portuguese) || languages@.contains(Language::Spanish)),
{
    let mut i: usize = 0;
    while i < languages.len()
        invariant
            i <= languages@.len(),
            forall|j: int|
                0 <= j < i ==> languages@[j] != Language::Portuguese && languages@[j]
                    != Language::Spanish,
        decreases languages@.len() - i,
    {
        if languages[i] == Language::Portuguese || languages[i] == Language::Spanish {
            return true;
        }
        i = i + 1;
    }
    false
}

/// Portuguese is added where the title names neither Portuguese nor Spanish
/// and one of the two hints was found.
pub open spec fn portuguese_inferred(hinted: bool, ctx: ContextView) -> Step {
    let languages = ctx.result.languages;
    if !languages.contains(Language::Portuguese) && !languages.contains(Language::Spanish)
        && hinted {
        Step {
            context: ContextView {
                result: ctx.result.with_languages(languages.push(Language::Portuguese)),
                ..ctx
            },
            result: None,
        }
    } else {
        declined(ctx)
    }
}

/// Whether the wording of the episode's match or the title hints at Portuguese.
pub open spec fn portuguese_hint(
    episode_hint: PatternView,
    title_hint: PatternView,
    ctx: ContextView,
) -> bool {
    (match lookup(ctx.matched, "episodes"@) {
        Some(e) => episode_hint.first_match(e.raw_match).is_some(),
        None => false,
    }) || title_hint.first_match(ctx.title).is_some()
}

/// A bracketed group is forgotten where a match recorded under another name
/// starts before the group's match ends.
pub open spec fn overlapping_group_dropped(ctx: ContextView) -> Step {
    match lookup(ctx.matched, "group"@) {
        Some(g) => if bracketed(g.raw_match) && other_before(
            ctx.matched,
            "group"@,
            g.match_index,
            byte_len(g.raw_match) as usize,
        ) {
            Step {
                context: ContextView {
                    result: ctx.result.with_text(TextField::Group, None),
                    ..ctx
                },
                result: None,
            }
        } else {
            declined(ctx)
        },
        None => declined(ctx),
    }
}

/// Forgets a bracketed group that another match reaches into.
pub fn drop_overlapping_group(context: &mut HandlerContext)
    ensures
        final(context)@ == overlapping_group_dropped(old(context)@).context,
        final(context).matched == old(context).matched,
{
    let overlapped = match context.matched.get("group") {
        Some(g) => is_bracketed(g.raw_match.as_str()) && context.matched.other_before(
            "group",
            g.match_index,
            len_bytes(g.raw_match.as_str()),
        ),
        None => false,
    };
    if overlapped {
        context.result.set_text(TextField::Group, None);
    }
}

/// A group that is empty or a lone hyphen is forgotten.
pub open spec fn empty_group_dropped(ctx: ContextView) -> Step {
    match ctx.result.texts[TextField::Group] {
        Some(g) => if g == "-"@ || g.len() == 0 {
            Step {
                context: ContextView {
                    result: ctx.result.with_text(TextField::Group, None),
                    ..ctx
                },
                result: None,
            }
        } else {
            declined(ctx)
        },
        None => declined(ctx),
    }
}

/// Forgets a group that is empty or a lone hyphen.
pub fn drop_empty_group(context: &mut HandlerContext)
    ensures
        final(context)@ == empty_group_dropped(old(context)@).context,
        final(context).matched == old(context).matched,
{
    let empty = match context.result.text(TextField::Group) {
        Some(g) => same(g.as_str(), "-") || g.as_str().is_empty(),
        None => false,
    };
    if empty {
        context.result.set_text(TextField::Group, None);
    }
}

impl HandlerView {
    /// What the handler does in a context.
    #[verifier::opaque]
    pub open spec fn step(self, ctx: ContextView) -> Step {
        match self.action {
            ActionView::Rule(rule) => rule.step(self.name, ctx),
            ActionView::NormalizeBitDepth => bit_depth_normalized(ctx),
            ActionView::NormalizeCodecTag => codec_tag_normalized(ctx),
            ActionView::Volume(pattern) => volume_found(
                pattern.first_match(
                    byte_slice(ctx.title, volume_start(ctx), byte_len(ctx.title) as int),
                ),
                volume_start(ctx),
                ctx,
            ),
            ActionView::EpisodeFallback(strict, loose) => if ctx.result.numbers[NumbersField::Episodes].len()
                > 0 {
                declined(ctx)
            } else {
                episode_found(
                    strict.first_match(byte_slice(ctx.title, 0, episode_end(ctx))),
                    loose.first_match(
                        byte_slice(ctx.title, episode_start(ctx), episode_end(ctx)),
                    ),
                    episode_start(ctx),
                    episode_end(ctx),
                    ctx,
                )
            },
            ActionView::InferPortuguese(episode_hint, title_hint) => portuguese_inferred(
                portuguese_hint(episode_hint, title_hint, ctx),
                ctx,
            ),
            ActionView::DropOverlappingGroup => overlapping_group_dropped(ctx),
            ActionView::DropEmptyGroup => empty_group_dropped(ctx),
        }
    }
}

impl Handler {
    /// A handler from an owned name.
    pub fn new_old(name: String, action: Action) -> (r: Handler)
        ensures
            r.name == name,
            r.action == action,
            r@ == (HandlerView { name: name@, action: action@ }),
    {
        Handler { name, action }
    }

    /// A handler from a name.
    pub fn new(name: &str, action: Action) -> (r: Handler)
        ensures
            r.name@ == name@,
            r.action == action,
            r@ == (HandlerView { name: name@, action: action@ }),
    {
        Handler::new_old(name.to_owned(), action)
    }

    /// The handler that applies a pattern rule.
    pub fn from_regex(
        name: &str,
        target: Target,
        regex: regress::Regex,
        options: RegexHandlerOptions,
    ) -> (r: Handler)
        ensures
            r.name@ == name@,
            r.action == Action::Rule(PatternRule { target, regex, options }),
            r@ == (HandlerView {
                name: name@,
                action: ActionView::Rule(
                    RuleView { target: target@, pattern: pattern_view(regex), options },
                ),
            }),
    {
        Handler::new(name, Action::Rule(PatternRule { target, regex, options }))
    }

    /// The name, under which the handler's matches are recorded.
    pub fn get_name(&self) -> (r: &str)
        ensures
            r@ == self.name@,
    {
        self.name.as_str()
    }

    /// Applies the handler: the context becomes what `step` says, and the
    /// descriptor of the match is returned where there is one.
    #[verifier::rlimit(50)]
    pub fn call(&self, context: &mut HandlerContext) -> (r: Option<HandlerResult>)
        requires
            old(context).matched.wf(),
        ensures
            final(context)@ == self@.step(old(context)@).context,
            result_view(r) == self@.step(old(context)@).result,
            final(context).matched.wf(),
    {
        reveal(HandlerView::step);
        match &self.action {
            Action::Rule(rule) => rule.call(self.name.as_str(), context),
            Action::NormalizeBitDepth => {
                normalize_bit_depth(context);
                None
            },
            Action::NormalizeCodecTag => {
                normalize_codec_tag(context);
                None
            },
            Action::Volume(pattern) => {
                let year = match context.matched.get("year") {
                    Some(m) => m.match_index,
                    None => 0,
                };
                let start = floor_to_boundary(context.title.as_str(), year);
                let total = len_bytes(context.title.as_str());
                proof {
                    encode_utf8_valid_utf8(context.title@);
                    is_char_boundary_start_end_of_seq(encode_utf8(context.title@));
                }
                let found = find_str(pattern, slice(context.title.as_str(), start, total));
                accept_volume(found, start, context)
            },
            Action::EpisodeFallback(strict, loose) => {
                if context.result.numbers(NumbersField::Episodes).len() > 0 {
                    return None;
                }
                let resolution = match context.matched.get("resolution") {
                    Some(m) => m.match_index,
                    None => usize::MAX,
                };
                let quality = match context.matched.get("quality") {
                    Some(m) => m.match_index,
                    None => usize::MAX,
                };
                let codec = match context.matched.get("codec") {
                    Some(m) => m.match_index,
                    None => usize::MAX,
                };
                let audio = match context.matched.get("audio") {
                    Some(m) => m.match_index,
                    None => usize::MAX,
                };
                let end = floor_to_boundary(
                    context.title.as_str(),
                    least(least(resolution, quality), least(codec, audio)),
                );
                let year = context.matched.get("year");
                let seasons = context.matched.get("seasons");
                let bound = match (year, seasons) {
                    (Some(y), Some(s)) => least(y.match_index, s.match_index),
                    (Some(y), None) => y.match_index,
                    (None, Some(s)) => s.match_index,
                    (None, None) => 0,
                };
                let start = floor_to_boundary(context.title.as_str(), least(bound, end));
                proof {
                    encode_utf8_valid_utf8(context.title@);
                    is_char_boundary_start_end_of_seq(encode_utf8(context.title@));
                }
                let beginning = slice(context.title.as_str(), 0, end).to_owned();
                let middle = slice(context.title.as_str(), start, end).to_owned();
                let first = find_str(strict, beginning.as_str());
                let usable = match first {
                    Some(m) => m.range.fits(beginning.as_str()),
                    None => false,
                };
                if usable {
                    match first {
                        Some(m) => accept_episode(m, beginning.as_str(), context),
                        None => None,
                    }
                } else {
                    match find_str(loose, middle.as_str()) {
                        Some(m) => accept_episode(m, middle.as_str(), context),
                        None => None,
                    }
                }
            },
            Action::InferPortuguese(episode_hint, title_hint) => {
                if !speaks_iberian(context.result.languages()) {
                    let worded = match context.matched.get("episodes") {
                        Some(e) => find_str(episode_hint, e.raw_match.as_str()).is_some(),
                        None => false,
                    };
                    if worded || find_str(title_hint, context.title.as_str()).is_some() {
                        let mut languages = clone_values(context.result.languages());
                        languages.push(Language::Portuguese);
                        context.result.set_languages(languages);
                    }
                }
                None
            },
            Action::DropOverlappingGroup => {
                drop_overlapping_group(context);
                None
            },
            Action::DropEmptyGroup => {
                drop_empty_group(context);
                None
            },
        }
    }
}

/// A gated rule whose field holds a value does nothing: the context stays as
/// it is and no descriptor is returned.
pub proof fn lemma_gated_rule_declines(rule: RuleView, name: Seq<char>, ctx: ContextView)
    requires
        rule.options.skip_if_already_found,
        rule.target.is_set(ctx.result),
    ensures
        rule.step(name, ctx) == declined(ctx),
{
}

/// Whatever a pattern rule does, it leaves alone every text field but the one
/// it targets, the year unless it targets the year, the codec unless it
/// targets the codec, and it lowers no flag.
pub proof fn lemma_rule_writes_its_field(rule: RuleView, name: Seq<char>, ctx: ContextView)
    requires
        ctx.result.total(),
    ensures
        rule.step(name, ctx).context.result.total(),
        forall|f: TextField|
            !(rule.target matches TargetView::Text(g, _) && g == f) ==> rule.step(
                name,
                ctx,
            ).context.result.texts[f] == ctx.result.texts[f],
        !(rule.target is Year) ==> rule.step(name, ctx).context.result.year == ctx.result.year,
        !(rule.target is Codec) ==> rule.step(name, ctx).context.result.codec == ctx.result.codec,
        forall|f: FlagField| ctx.result.flags[f] ==> rule.step(name, ctx).context.result.flags[f],
{
}

/// Once a text field, the year or the codec holds a value, a gated rule does
/// not change it.
pub proof fn lemma_gated_rule_keeps_set_fields(rule: RuleView, name: Seq<char>, ctx: ContextView)
    requires
        rule.options.skip_if_already_found,
        ctx.result.total(),
    ensures
        forall|f: TextField|
            ctx.result.texts[f].is_some() ==> rule.step(name, ctx).context.result.texts[f]
                == ctx.result.texts[f],
        ctx.result.year.is_some() ==> rule.step(name, ctx).context.result.year == ctx.result.year,
        ctx.result.codec.is_some() ==> rule.step(name, ctx).context.result.codec
            == ctx.result.codec,
        forall|f: FlagField| ctx.result.flags[f] ==> rule.step(name, ctx).context.result.flags[f],
{
    lemma_rule_writes_its_field(rule, name, ctx);
}

/// Under `skip_if_first`, a match is not accepted where a match recorded under
/// another name starts at the same offset or before it: nothing is written,
/// nothing is recorded and no descriptor is returned.
pub proof fn lemma_only_first_is_accepted(
    name: Seq<char>,
    target: TargetView,
    options: RegexHandlerOptions,
    found: StringMatch,
    tag: Option<GroupMatch>,
    ctx: ContextView,
    other: int,
)
    requires
        options.skip_if_first,
        0 <= other < ctx.matched.len(),
        ctx.matched[other].0 != name,
        ctx.matched[other].1.match_index <= found.range.start,
    ensures
        accepted(name, target, options, Some(found), tag, ctx) == declined(ctx),
{
}

/// A rule under `skip_if_first` writes nothing, records nothing and returns
/// nothing where a match recorded under another name starts at the offset of
/// the rule's own match or before it.
pub proof fn lemma_only_first_rule_declines(
    rule: RuleView,
    name: Seq<char>,
    ctx: ContextView,
    found: StringMatch,
    other: int,
)
    requires
        rule.options.skip_if_first,
        rule.pattern.first_match(ctx.title) == Some(found),
        0 <= other < ctx.matched.len(),
        ctx.matched[other].0 != name,
        ctx.matched[other].1.match_index <= found.range.start,
    ensures
        rule.step(name, ctx) == declined(ctx),
{
    lemma_only_first_is_accepted(
        name,
        rule.target,
        rule.options,
        found,
        captured(leading_tag_pattern(), ctx.title),
        ctx,
        other,
    );
}

/// No handler changes the working title.
pub proof fn lemma_step_keeps_title(handler: HandlerView, ctx: ContextView)
    ensures
        handler.step(ctx).context.title == ctx.title,
{
    reveal(HandlerView::step);
}

} // verus!
