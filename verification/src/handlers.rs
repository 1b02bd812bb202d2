//! The rule table: the handlers a parser applies by default, in the order that
//! makes them work. A rule that should claim a stretch of text before a weaker
//! rule sees it stands earlier.
//!
//! The table is data: a list of recipes, each a name with what the handler
//! does and its patterns as text. Handlers are made from recipes by compiling
//! the patterns. Each part of the table is written twice: as the function that
//! lists its recipes, and as the handlers those recipes stand for, which the
//! function is proved to list.

use crate::handler_wrapper::{
    pattern_view, plain_options, Action, ActionView, Handler, HandlerView, NumbersTransform,
    PatternView, RegexHandlerOptions, RuleView, Target, TargetView, TextTransform,
    TextTransformView,
};
use crate::matching::{case_insensitive, case_sensitive, script_accepts};
use crate::parser::Parser;
use crate::record::{lemma_list_view, list_view};
use crate::types::codec::Codec;
use crate::types::field::{FlagField, ListField, NumbersField, TextField};
use crate::types::language::Language;
use crate::ParserError;
use vstd::prelude::*;

verus! {

/// A pattern by its text and its case flag.
pub open spec fn pattern(text: Seq<char>, icase: bool) -> PatternView {
    PatternView { text, icase }
}

/// A handler by its name and its action.
pub open spec fn handler_view(name: Seq<char>, action: ActionView) -> HandlerView {
    HandlerView { name, action }
}

/// The handler that applies a pattern rule.
pub open spec fn rule_view(
    name: Seq<char>,
    target: TargetView,
    text: Seq<char>,
    icase: bool,
    options: RegexHandlerOptions,
) -> HandlerView {
    handler_view(name, ActionView::Rule(RuleView { target, pattern: pattern(text, icase), options }))
}

/// The target that stores a fixed text, in which `$1` stands for the capture.
pub open spec fn fixed_view(field: TextField, template: Seq<char>) -> TargetView {
    TargetView::Text(field, TextTransformView::Value(template))
}

/// The target that appends a fixed text to a list that does not hold it.
pub open spec fn listed_view(field: ListField, value: Seq<char>) -> TargetView {
    TargetView::List(field, value)
}

/// The target that stores the date written in the first of the formats that fits.
pub open spec fn dated_view(formats: Seq<Seq<char>>) -> TargetView {
    TargetView::Text(TextField::Date, TextTransformView::Date(formats))
}

/// The views of a sequence of texts.
pub open spec fn texts_of(texts: Seq<&str>) -> Seq<Seq<char>> {
    Seq::new(texts.len(), |i: int| texts[i]@)
}

/// The text of a pattern that the pattern engine refuses; nothing for one it takes.
pub open spec fn refused(p: PatternView) -> Option<Seq<char>> {
    if script_accepts(p.text, p.icase) {
        None
    } else {
        Some(p.text)
    }
}

/// The first pattern of a handler that the pattern engine refuses.
pub open spec fn first_refused(h: HandlerView) -> Option<Seq<char>> {
    match h.action {
        ActionView::Rule(rule) => refused(rule.pattern),
        ActionView::Volume(p) => refused(p),
        ActionView::EpisodeFallback(a, b) => if refused(a).is_some() {
            refused(a)
        } else {
            refused(b)
        },
        ActionView::InferPortuguese(a, b) => if refused(a).is_some() {
            refused(a)
        } else {
            refused(b)
        },
        _ => None,
    }
}

/// The first pattern among those of the handlers, in their order, that the
/// pattern engine refuses.
pub open spec fn first_refused_in(handlers: Seq<HandlerView>) -> Option<Seq<char>>
    decreases handlers.len(),
{
    if handlers.len() == 0 {
        None
    } else if first_refused(handlers[0]).is_some() {
        first_refused(handlers[0])
    } else {
        first_refused_in(handlers.drop_first())
    }
}

/// What a handler does, with its patterns as text. A flag beside a pattern
/// says whether the pattern ignores case.
pub enum Plan {
    /// A pattern rule: the target, the pattern, its flag and the options.
    Rule(Target, String, bool, RegexHandlerOptions),
    NormalizeBitDepth,
    NormalizeCodecTag,
    Volume(String, bool),
    /// The strict pattern, the loose pattern, and the flag of both.
    EpisodeFallback(String, String, bool),
    /// The pattern for the episode's wording, that for the title, and the flag of both.
    InferPortuguese(String, String, bool),
    DropOverlappingGroup,
    DropEmptyGroup,
}

/// What a handler is made from.
pub struct Recipe {
    pub name: String,
    pub plan: Plan,
}

impl View for Plan {
    type V = ActionView;

    open spec fn view(&self) -> ActionView {
        match self {
            Plan::Rule(target, text, icase, options) => ActionView::Rule(
                RuleView { target: target@, pattern: pattern(text@, *icase), options: *options },
            ),
            Plan::NormalizeBitDepth => ActionView::NormalizeBitDepth,
            Plan::NormalizeCodecTag => ActionView::NormalizeCodecTag,
            Plan::Volume(text, icase) => ActionView::Volume(pattern(text@, *icase)),
            Plan::EpisodeFallback(strict, loose, icase) => ActionView::EpisodeFallback(
                pattern(strict@, *icase),
                pattern(loose@, *icase),
            ),
            Plan::InferPortuguese(wording, dubbing, icase) => ActionView::InferPortuguese(
                pattern(wording@, *icase),
                pattern(dubbing@, *icase),
            ),
            Plan::DropOverlappingGroup => ActionView::DropOverlappingGroup,
            Plan::DropEmptyGroup => ActionView::DropEmptyGroup,
        }
    }
}

impl View for Recipe {
    type V = HandlerView;

    open spec fn view(&self) -> HandlerView {
        HandlerView { name: self.name@, action: self.plan@ }
    }
}

/// The handlers a list of recipes stands for.
pub open spec fn handlers_of(recipes: Seq<Recipe>) -> Seq<HandlerView> {
    Seq::new(recipes.len(), |i: int| recipes[i]@)
}

/// Compiles a pattern for a handler. Fails, with the pattern, where the
/// pattern engine refuses it.
pub fn compile(text: &str, icase: bool) -> (r: Result<regress::Regex, ParserError>)
    ensures
        r.is_ok() == script_accepts(text@, icase),
        r matches Ok(re) ==> pattern_view(re) == pattern(text@, icase),
        r matches Err(ParserError::ParseError(p)) ==> p@ == text@,
{
    let compiled = if icase {
        case_insensitive(text)
    } else {
        case_sensitive(text)
    };
    match compiled {
        Ok(re) => Ok(re),
        Err(_) => Err(ParserError::ParseError(text.to_owned())),
    }
}

/// The handler that applies a pattern rule, made from the pattern's text.
/// Fails, with the pattern, where the pattern engine refuses it.
pub fn pattern_rule(
    name: &str,
    target: Target,
    text: &str,
    icase: bool,
    options: RegexHandlerOptions,
) -> (r: Result<Handler, ParserError>)
    ensures
        r.is_ok() == script_accepts(text@, icase),
        r matches Ok(handler) ==> handler@ == rule_view(name@, target@, text@, icase, options),
        r matches Err(ParserError::ParseError(p)) ==> p@ == text@,
{
    match compile(text, icase) {
        Ok(regex) => Ok(Handler::from_regex(name, target, regex, options)),
        Err(e) => Err(e),
    }
}

impl Recipe {
    /// Makes the handler the recipe stands for. Fails where the pattern
    /// engine refuses one of its patterns, with the first that it refuses.
    pub fn make(&self) -> (r: Result<Handler, ParserError>)
        ensures
            r.is_ok() == first_refused(self@).is_none(),
            r matches Ok(handler) ==> handler@ == self@,
            r matches Err(ParserError::ParseError(p)) ==> first_refused(self@) == Some(p@),
    {
        let name = self.name.as_str();
        match &self.plan {
            Plan::Rule(target, text, icase, options) => pattern_rule(
                name,
                target.duplicate(),
                text.as_str(),
                *icase,
                *options,
            ),
            Plan::NormalizeBitDepth => Ok(Handler::new(name, Action::NormalizeBitDepth)),
            Plan::NormalizeCodecTag => Ok(Handler::new(name, Action::NormalizeCodecTag)),
            Plan::Volume(text, icase) => match compile(text.as_str(), *icase) {
                Ok(regex) => Ok(Handler::new(name, Action::Volume(regex))),
                Err(e) => Err(e),
            },
            Plan::EpisodeFallback(strict, loose, icase) => match compile(strict.as_str(), *icase) {
                Ok(first) => match compile(loose.as_str(), *icase) {
                    Ok(second) => Ok(Handler::new(name, Action::EpisodeFallback(first, second))),
                    Err(e) => Err(e),
                },
                Err(e) => Err(e),
            },
            Plan::InferPortuguese(wording, dubbing, icase) => match compile(
                wording.as_str(),
                *icase,
            ) {
                Ok(first) => match compile(dubbing.as_str(), *icase) {
                    Ok(second) => Ok(Handler::new(name, Action::InferPortuguese(first, second))),
                    Err(e) => Err(e),
                },
                Err(e) => Err(e),
            },
            Plan::DropOverlappingGroup => Ok(Handler::new(name, Action::DropOverlappingGroup)),
            Plan::DropEmptyGroup => Ok(Handler::new(name, Action::DropEmptyGroup)),
        }
    }
}

/// Adds the handlers that the recipes stand for behind those the parser has,
/// in the order of the recipes. Stops at the first pattern that the pattern
/// engine refuses and fails with it; the handlers made before it stay added.
pub fn add_handlers(parser: &mut Parser, recipes: &Vec<Recipe>) -> (r: Result<(), ParserError>)
    ensures
        r.is_ok() == first_refused_in(handlers_of(recipes@)).is_none(),
        r.is_ok() ==> final(parser)@ == old(parser)@ + handlers_of(recipes@),
        r matches Err(ParserError::ParseError(p)) ==> first_refused_in(handlers_of(recipes@))
            == Some(p@),
        kept(old(parser)@, final(parser)@),
{
    let ghost all = handlers_of(recipes@);
    let mut i: usize = 0;
    proof {
        assert(all.subrange(0, all.len() as int) =~= all);
        assert(parser@ =~= old(parser)@ + all.subrange(0, 0));
    }
    while i < recipes.len()
        invariant
            i <= recipes@.len(),
            all == handlers_of(recipes@),
            parser@ == old(parser)@ + all.subrange(0, i as int),
            first_refused_in(all) == first_refused_in(all.subrange(i as int, all.len() as int)),
        decreases recipes@.len() - i,
    {
        let ghost rest = all.subrange(i as int, all.len() as int);
        proof {
            assert(rest[0] == recipes@[i as int]@);
            assert(rest.drop_first() =~= all.subrange(i + 1, all.len() as int));
        }
        match recipes[i].make() {
            Ok(handler) => {
                parser.add_handler(handler);
                proof {
                    assert(parser@ =~= old(parser)@ + all.subrange(0, i + 1));
                }
            },
            Err(e) => {
                return Err(e);
            },
        }
        i = i + 1;
    }
    proof {
        assert(all.subrange(0, i as int) =~= all);
    }
    Ok(())
}

/// Whether `after` starts with the handlers of `before`, in their order.
pub open spec fn kept(before: Seq<HandlerView>, after: Seq<HandlerView>) -> bool {
    &&& before.len() <= after.len()
    &&& forall|i: int| 0 <= i < before.len() ==> after[i] == before[i]
}

/// The target that stores a fixed text, in which `$1` stands for the capture.
fn fixed(field: TextField, template: &str) -> (r: Target)
    ensures
        r@ == fixed_view(field, template@),
{
    Target::Text(field, TextTransform::Value(template.to_owned()))
}

/// The target that appends a fixed text to a list that does not hold it.
fn listed(field: ListField, value: &str) -> (r: Target)
    ensures
        r@ == listed_view(field, value@),
{
    Target::List(field, value.to_owned())
}

/// The target that stores the date written in the first of the formats that fits.
fn dated(formats: &Vec<&str>) -> (r: Target)
    ensures
        r@ == dated_view(texts_of(formats@)),
{
    let mut list: Vec<String> = Vec::new();
    let mut i: usize = 0;
    while i < formats.len()
        invariant
            i <= formats@.len(),
            list@.len() == i,
            forall|j: int| 0 <= j < i ==> (#[trigger] list@[j])@ == formats@[j]@,
        decreases formats@.len() - i,
    {
        list.push(formats[i].to_owned());
        i = i + 1;
    }
    proof {
        lemma_list_view(list);
        assert(list_view(list) =~= texts_of(formats@));
    }
    Target::Text(TextField::Date, TextTransform::Date(list))
}

/// Lists a recipe behind those the table has.
fn list(table: &mut Vec<Recipe>, name: &str, plan: Plan)
    ensures
        handlers_of(final(table)@) == handlers_of(old(table)@).push(handler_view(name@, plan@)),
{
    table.push(Recipe { name: name.to_owned(), plan });
    proof {
        assert(handlers_of(table@) =~= handlers_of(old(table)@).push(handler_view(name@, plan@)));
    }
}

/// Lists a pattern rule that ignores case.
fn insensitive(
    table: &mut Vec<Recipe>,
    name: &str,
    target: Target,
    text: &str,
    options: RegexHandlerOptions,
)
    ensures
        handlers_of(final(table)@) == handlers_of(old(table)@).push(
            rule_view(name@, target@, text@, true, options),
        ),
{
    list(table, name, Plan::Rule(target, text.to_owned(), true, options));
}

/// Lists a pattern rule that minds case.
fn sensitive(
    table: &mut Vec<Recipe>,
    name: &str,
    target: Target,
    text: &str,
    options: RegexHandlerOptions,
)
    ensures
        handlers_of(final(table)@) == handlers_of(old(table)@).push(
            rule_view(name@, target@, text@, false, options),
        ),
{
    list(table, name, Plan::Rule(target, text.to_owned(), false, options));
}

/// Adult and scene marks, extras, pay-per-view, leading sites and episode codes.
pub open spec fn opening_rules(before: Seq<HandlerView>) -> Seq<HandlerView> {
    let plain = plain_options();
    before
        .push(
            rule_view(
                "adult"@,
                TargetView::Flag(FlagField::Adult),
                r"\b(?:xxx|xx)\b"@,
                true,
                plain.removing().outside_title(),
            ),
        )
        .push(
            rule_view(
                "scene"@,
                TargetView::Flag(FlagField::Scene),
                r"^(?=.*(\b\d{3,4}p\b).*([_. ]WEB[_. ])(?!DL)\b)|\b(-CAKES|-GGEZ|-GGWP|-GLHF|-GOSSIP|-NAISU|-KOGI|-PECULATE|-SLOT|-EDITH|-ETHEL|-ELEANOR|-B2B|-SPAMnEGGS|-FTP|-DiRT|-SYNCOPY|-BAE|-SuccessfulCrab|-NHTFS|-SURCODE|-B0MBARDIERS)"@,
                false,
                plain,
            ),
        )
        .push(
            rule_view(
                "extras"@,
                listed_view(ListField::Extras, "NCED"@),
                r"\bNCED\b"@,
                true,
                plain.removing(),
            ),
        )
        .push(
            rule_view(
                "extras"@,
                listed_view(ListField::Extras, "NCOP"@),
                r"\bNCOP\b"@,
                true,
                plain.removing(),
            ),
        )
        .push(
            rule_view(
                "extras"@,
                listed_view(ListField::Extras, "Deleted Scene"@),
                r"\b(?:Deleted[ .-]*)?Scene(?:s)?\b"@,
                true,
                plain,
            ),
        )
        .push(
            rule_view(
                "extras"@,
                listed_view(ListField::Extras, "Featurette"@),
                r"(?:(?<=\b(?:19\d{2}|20\d{2})\b.*)\b(?:Featurettes?)\b|\bFeaturettes?\b(?!.*\b(?:19\d{2}|20\d{2})\b))"@,
                true,
                plain.outside_title(),
            ),
        )
        .push(
            rule_view(
                "extras"@,
                listed_view(ListField::Extras, "Sample"@),
                r"(?:(?<=\b(?:19\d{2}|20\d{2})\b.*)\b(?:Sample)\b|\b(?:Sample)\b(?!.*\b(?:19\d{2}|20\d{2})\b))"@,
                true,
                plain.outside_title(),
            ),
        )
        .push(
            rule_view(
                "extras"@,
                listed_view(ListField::Extras, "Trailer"@),
                r"(?:(?<=\b(?:19\d{2}|20\d{2})\b.*)\b(?:Trailers?)\b|\bTrailers?\b(?!.*\b(?:19\d{2}|20\d{2}|.(Park|And))\b))"@,
                true,
                plain.outside_title(),
            ),
        )
        .push(
            rule_view(
                "ppv"@,
                TargetView::Flag(FlagField::Ppv),
                r"\bPPV\b"@,
                true,
                plain.removing().outside_title(),
            ),
        )
        .push(
            rule_view(
                "ppv"@,
                TargetView::Flag(FlagField::Ppv),
                r"\b\W?Fight.?Nights?\W?\b"@,
                true,
                plain.outside_title(),
            ),
        )
        .push(
            rule_view(
                "site"@,
                TargetView::Text(TextField::Site, TextTransformView::Identity),
                r"^(www?[\.,][\w-]+\.[\w-]+(?:\.[\w-]+)?)\s+-\s*"@,
                true,
                plain.removing().outside_title().repeatable(),
            ),
        )
        .push(
            rule_view(
                "site"@,
                TargetView::Text(TextField::Site, TextTransformView::Identity),
                r"^((?:www?[\.,])?[\w-]+\.[\w-]+(?:\.[\w-]+)*?)\s+-\s*"@,
                true,
                plain.repeatable(),
            ),
        )
        .push(
            rule_view(
                "episode_code"@,
                TargetView::Text(TextField::EpisodeCode, TextTransformView::Uppercase),
                r"[[(]([a-zA-Z0-9]{8})[\])](?=\.[a-zA-Z0-9]{1,5}$|$)"@,
                false,
                plain.removing(),
            ),
        )
        .push(
            rule_view(
                "episode_code"@,
                TargetView::Text(TextField::EpisodeCode, TextTransformView::Uppercase),
                r"\[([A-Z0-9]{8})]"@,
                false,
                plain.removing(),
            ),
        )
}

/// Lists the part of the table for: adult and scene marks, extras, pay-per-view, leading sites and episode codes.
#[verifier::rlimit(50)]
fn list_opening_rules(table: &mut Vec<Recipe>)
    ensures
        handlers_of(final(table)@) == opening_rules(handlers_of(old(table)@)),
{
    let plain = RegexHandlerOptions::default();
    insensitive(
        table,
        "adult",
        Target::Flag(FlagField::Adult),
        r"\b(?:xxx|xx)\b",
        plain.removing().outside_title(),
    );
    sensitive(
        table,
        "scene",
        Target::Flag(FlagField::Scene),
        r"^(?=.*(\b\d{3,4}p\b).*([_. ]WEB[_. ])(?!DL)\b)|\b(-CAKES|-GGEZ|-GGWP|-GLHF|-GOSSIP|-NAISU|-KOGI|-PECULATE|-SLOT|-EDITH|-ETHEL|-ELEANOR|-B2B|-SPAMnEGGS|-FTP|-DiRT|-SYNCOPY|-BAE|-SuccessfulCrab|-NHTFS|-SURCODE|-B0MBARDIERS)",
        plain,
    );
    insensitive(table, "extras", listed(ListField::Extras, "NCED"), r"\bNCED\b", plain.removing());
    insensitive(table, "extras", listed(ListField::Extras, "NCOP"), r"\bNCOP\b", plain.removing());
    insensitive(
        table,
        "extras",
        listed(ListField::Extras, "Deleted Scene"),
        r"\b(?:Deleted[ .-]*)?Scene(?:s)?\b",
        plain,
    );
    insensitive(
        table,
        "extras",
        listed(ListField::Extras, "Featurette"),
        r"(?:(?<=\b(?:19\d{2}|20\d{2})\b.*)\b(?:Featurettes?)\b|\bFeaturettes?\b(?!.*\b(?:19\d{2}|20\d{2})\b))",
        plain.outside_title(),
    );
    insensitive(
        table,
        "extras",
        listed(ListField::Extras, "Sample"),
        r"(?:(?<=\b(?:19\d{2}|20\d{2})\b.*)\b(?:Sample)\b|\b(?:Sample)\b(?!.*\b(?:19\d{2}|20\d{2})\b))",
        plain.outside_title(),
    );
    insensitive(
        table,
        "extras",
        listed(ListField::Extras, "Trailer"),
        r"(?:(?<=\b(?:19\d{2}|20\d{2})\b.*)\b(?:Trailers?)\b|\bTrailers?\b(?!.*\b(?:19\d{2}|20\d{2}|.(Park|And))\b))",
        plain.outside_title(),
    );
    insensitive(
        table,
        "ppv",
        Target::Flag(FlagField::Ppv),
        r"\bPPV\b",
        plain.removing().outside_title(),
    );
    insensitive(
        table,
        "ppv",
        Target::Flag(FlagField::Ppv),
        r"\b\W?Fight.?Nights?\W?\b",
        plain.outside_title(),
    );
    insensitive(
        table,
        "site",
        Target::Text(TextField::Site, TextTransform::Identity),
        r"^(www?[\.,][\w-]+\.[\w-]+(?:\.[\w-]+)?)\s+-\s*",
        plain.removing().outside_title().repeatable(),
    );
    insensitive(
        table,
        "site",
        Target::Text(TextField::Site, TextTransform::Identity),
        r"^((?:www?[\.,])?[\w-]+\.[\w-]+(?:\.[\w-]+)*?)\s+-\s*",
        plain.repeatable(),
    );
    sensitive(
        table,
        "episode_code",
        Target::Text(TextField::EpisodeCode, TextTransform::Uppercase),
        r"[[(]([a-zA-Z0-9]{8})[\])](?=\.[a-zA-Z0-9]{1,5}$|$)",
        plain.removing(),
    );
    sensitive(
        table,
        "episode_code",
        Target::Text(TextField::EpisodeCode, TextTransform::Uppercase),
        r"\[([A-Z0-9]{8})]",
        plain.removing(),
    );
}

/// Resolutions.
pub open spec fn resolution_rules(before: Seq<HandlerView>) -> Seq<HandlerView> {
    let plain = plain_options();
    before
        .push(
            rule_view(
                "resolution"@,
                fixed_view(TextField::Resolution, "2160p"@),
                r"\[?\]?3840x\d{4}[\])?]?"@,
                true,
                plain.removing(),
            ),
        )
        .push(
            rule_view(
                "resolution"@,
                fixed_view(TextField::Resolution, "1080p"@),
                r"\[?\]?1920x\d{3,4}[\])?]?"@,
                true,
                plain.removing(),
            ),
        )
        .push(
            rule_view(
                "resolution"@,
                fixed_view(TextField::Resolution, "720p"@),
                r"\[?\]?1280x\d{3}[\])?]?"@,
                true,
                plain.removing(),
            ),
        )
        .push(
            rule_view(
                "resolution"@,
                fixed_view(TextField::Resolution, "$1p"@),
                r"\[?\]?(\d{3,4}x\d{3,4})[\])?]?p?"@,
                true,
                plain.removing(),
            ),
        )
        .push(
            rule_view(
                "resolution"@,
                fixed_view(TextField::Resolution, "$1p"@),
                r"(480|720|1080)0[pi]"@,
                true,
                plain.removing(),
            ),
        )
        .push(
            rule_view(
                "resolution"@,
                fixed_view(TextField::Resolution, "1440p"@),
                r"(?:QHD|QuadHD|WQHD|2560(\d+)?x(\d+)?1440p?)"@,
                true,
                plain.removing(),
            ),
        )
        .push(
            rule_view(
                "resolution"@,
                fixed_view(TextField::Resolution, "1080p"@),
                r"(?:Full HD|FHD|1920(\d+)?x(\d+)?1080p?)"@,
                true,
                plain.removing(),
            ),
        )
        .push(
            rule_view(
                "resolution"@,
                fixed_view(TextField::Resolution, "2160p"@),
                r"(?:BD|HD|M)(2160p?|4k)"@,
                true,
                plain.removing(),
            ),
        )
        .push(
            rule_view(
                "resolution"@,
                fixed_view(TextField::Resolution, "1080p"@),
                r"(?:BD|HD|M)1080p?"@,
                true,
                plain.removing(),
            ),
        )
        .push(
            rule_view(
                "resolution"@,
                fixed_view(TextField::Resolution, "720p"@),
                r"(?:BD|HD|M)720p?"@,
                true,
                plain.removing(),
            ),
        )
        .push(
            rule_view(
                "resolution"@,
                fixed_view(TextField::Resolution, "480p"@),
                r"(?:BD|HD|M)480p?"@,
                true,
                plain.removing(),
            ),
        )
        .push(
            rule_view(
                "resolution"@,
                TargetView::Text(TextField::Resolution, TextTransformView::Resolution),
                r"\b(?:4k|2160p|1080p|720p|480p)(?!.*\b(?:4k|2160p|1080p|720p|480p)\b)"@,
                true,
                plain.removing(),
            ),
        )
        .push(
            rule_view(
                "resolution"@,
                fixed_view(TextField::Resolution, "2160p"@),
                r"\b4k|21600?[pi]\b"@,
                true,
                plain.removing(),
            ),
        )
        .push(
            rule_view(
                "resolution"@,
                fixed_view(TextField::Resolution, "$1p"@),
                r"(\d{3,4})[pi]"@,
                true,
                plain.removing(),
            ),
        )
        .push(
            rule_view(
                "resolution"@,
                TargetView::Text(TextField::Resolution, TextTransformView::Lowercase),
                r"(240|360|480|576|720|1080|2160|3840)[pi]"@,
                true,
                plain.removing(),
            ),
        )
}

/// Lists the part of the table for: resolutions.
#[verifier::rlimit(50)]
fn list_resolution_rules(table: &mut Vec<Recipe>)
    ensures
        handlers_of(final(table)@) == resolution_rules(handlers_of(old(table)@)),
{
    let plain = RegexHandlerOptions::default();
    insensitive(
        table,
        "resolution",
        fixed(TextField::Resolution, "2160p"),
        r"\[?\]?3840x\d{4}[\])?]?",
        plain.removing(),
    );
    insensitive(
        table,
        "resolution",
        fixed(TextField::Resolution, "1080p"),
        r"\[?\]?1920x\d{3,4}[\])?]?",
        plain.removing(),
    );
    insensitive(
        table,
        "resolution",
        fixed(TextField::Resolution, "720p"),
        r"\[?\]?1280x\d{3}[\])?]?",
        plain.removing(),
    );
    insensitive(
        table,
        "resolution",
        fixed(TextField::Resolution, "$1p"),
        r"\[?\]?(\d{3,4}x\d{3,4})[\])?]?p?",
        plain.removing(),
    );
    insensitive(
        table,
        "resolution",
        fixed(TextField::Resolution, "$1p"),
        r"(480|720|1080)0[pi]",
        plain.removing(),
    );
    insensitive(
        table,
        "resolution",
        fixed(TextField::Resolution, "1440p"),
        r"(?:QHD|QuadHD|WQHD|2560(\d+)?x(\d+)?1440p?)",
        plain.removing(),
    );
    insensitive(
        table,
        "resolution",
        fixed(TextField::Resolution, "1080p"),
        r"(?:Full HD|FHD|1920(\d+)?x(\d+)?1080p?)",
        plain.removing(),
    );
    insensitive(
        table,
        "resolution",
        fixed(TextField::Resolution, "2160p"),
        r"(?:BD|HD|M)(2160p?|4k)",
        plain.removing(),
    );
    insensitive(
        table,
        "resolution",
        fixed(TextField::Resolution, "1080p"),
        r"(?:BD|HD|M)1080p?",
        plain.removing(),
    );
    insensitive(
        table,
        "resolution",
        fixed(TextField::Resolution, "720p"),
        r"(?:BD|HD|M)720p?",
        plain.removing(),
    );
    insensitive(
        table,
        "resolution",
        fixed(TextField::Resolution, "480p"),
        r"(?:BD|HD|M)480p?",
        plain.removing(),
    );
    insensitive(
        table,
        "resolution",
        Target::Text(TextField::Resolution, TextTransform::Resolution),
        r"\b(?:4k|2160p|1080p|720p|480p)(?!.*\b(?:4k|2160p|1080p|720p|480p)\b)",
        plain.removing(),
    );
    insensitive(
        table,
        "resolution",
        fixed(TextField::Resolution, "2160p"),
        r"\b4k|21600?[pi]\b",
        plain.removing(),
    );
    insensitive(
        table,
        "resolution",
        fixed(TextField::Resolution, "$1p"),
        r"(\d{3,4})[pi]",
        plain.removing(),
    );
    insensitive(
        table,
        "resolution",
        Target::Text(TextField::Resolution, TextTransform::Lowercase),
        r"(240|360|480|576|720|1080|2160|3840)[pi]",
        plain.removing(),
    );
}

/// Marks of releases not worth keeping.
pub open spec fn trash_rules(before: Seq<HandlerView>) -> Seq<HandlerView> {
    let plain = plain_options();
    before
        .push(
            rule_view(
                "trash"@,
                TargetView::Flag(FlagField::Trash),
                r"\b(?:H[DQ][ .-]*)?CAM(?!.?(S|E|\()\d+)(?:H[DQ])?(?:[ .-]*Rip|Rp)?\b"@,
                true,
                plain,
            ),
        )
        .push(
            rule_view(
                "trash"@,
                TargetView::Flag(FlagField::Trash),
                r"\b(?:H[DQ][ .-]*)?S[ \.\-]print\b"@,
                true,
                plain,
            ),
        )
        .push(
            rule_view(
                "trash"@,
                TargetView::Flag(FlagField::Trash),
                r"\b(?:HD[ .-]*)?T(?:ELE)?(C|S)(?:INE|YNC)?(?:Rip)?\b"@,
                true,
                plain,
            ),
        )
        .push(
            rule_view(
                "trash"@,
                TargetView::Flag(FlagField::Trash),
                r"\bPre.?DVD(?:Rip)?\b"@,
                true,
                plain,
            ),
        )
        .push(
            rule_view(
                "trash"@,
                TargetView::Flag(FlagField::Trash),
                r"\b(?:DVD?|BD|BR)?[ .-]*Scr(?:eener)?\b"@,
                true,
                plain,
            ),
        )
        .push(
            rule_view(
                "trash"@,
                TargetView::Flag(FlagField::Trash),
                r"\bDVB[ .-]*(?:Rip)?\b"@,
                true,
                plain,
            ),
        )
        .push(
            rule_view(
                "trash"@,
                TargetView::Flag(FlagField::Trash),
                r"\bSAT[ .-]*Rips?\b"@,
                true,
                plain,
            ),
        )
        .push(
            rule_view(
                "trash"@,
                TargetView::Flag(FlagField::Trash),
                r"\bLeaked\b"@,
                true,
                plain.removing(),
            ),
        )
        .push(
            rule_view(
                "trash"@,
                TargetView::Flag(FlagField::Trash),
                r"threesixtyp"@,
                true,
                plain,
            ),
        )
        .push(
            rule_view(
                "trash"@,
                TargetView::Flag(FlagField::Trash),
                r"\bR5|R6\b"@,
                true,
                plain,
            ),
        )
        .push(
            rule_view(
                "trash"@,
                TargetView::Flag(FlagField::Trash),
                r"\b(?:Deleted[ .-]*)?Scene(?:s)?\b"@,
                true,
                plain.removing(),
            ),
        )
        .push(
            rule_view(
                "trash"@,
                TargetView::Flag(FlagField::Trash),
                r"\bHQ.?(Clean)?.?(Aud(io)?)?\b"@,
                true,
                plain.removing(),
            ),
        )
}

/// Lists the part of the table for: marks of releases not worth keeping.
#[verifier::rlimit(50)]
fn list_trash_rules(table: &mut Vec<Recipe>)
    ensures
        handlers_of(final(table)@) == trash_rules(handlers_of(old(table)@)),
{
    let plain = RegexHandlerOptions::default();
    insensitive(
        table,
        "trash",
        Target::Flag(FlagField::Trash),
        r"\b(?:H[DQ][ .-]*)?CAM(?!.?(S|E|\()\d+)(?:H[DQ])?(?:[ .-]*Rip|Rp)?\b",
        plain,
    );
    insensitive(
        table,
        "trash",
        Target::Flag(FlagField::Trash),
        r"\b(?:H[DQ][ .-]*)?S[ \.\-]print\b",
        plain,
    );
    insensitive(
        table,
        "trash",
        Target::Flag(FlagField::Trash),
        r"\b(?:HD[ .-]*)?T(?:ELE)?(C|S)(?:INE|YNC)?(?:Rip)?\b",
        plain,
    );
    insensitive(table, "trash", Target::Flag(FlagField::Trash), r"\bPre.?DVD(?:Rip)?\b", plain);
    insensitive(
        table,
        "trash",
        Target::Flag(FlagField::Trash),
        r"\b(?:DVD?|BD|BR)?[ .-]*Scr(?:eener)?\b",
        plain,
    );
    insensitive(table, "trash", Target::Flag(FlagField::Trash), r"\bDVB[ .-]*(?:Rip)?\b", plain);
    insensitive(table, "trash", Target::Flag(FlagField::Trash), r"\bSAT[ .-]*Rips?\b", plain);
    insensitive(table, "trash", Target::Flag(FlagField::Trash), r"\bLeaked\b", plain.removing());
    insensitive(table, "trash", Target::Flag(FlagField::Trash), r"threesixtyp", plain);
    insensitive(table, "trash", Target::Flag(FlagField::Trash), r"\bR5|R6\b", plain);
    insensitive(
        table,
        "trash",
        Target::Flag(FlagField::Trash),
        r"\b(?:Deleted[ .-]*)?Scene(?:s)?\b",
        plain.removing(),
    );
    insensitive(
        table,
        "trash",
        Target::Flag(FlagField::Trash),
        r"\bHQ.?(Clean)?.?(Aud(io)?)?\b",
        plain.removing(),
    );
}

/// Dates, year ranges, bit rates and years.
pub open spec fn date_rules(before: Seq<HandlerView>) -> Seq<HandlerView> {
    let plain = plain_options();
    before
        .push(
            rule_view(
                "date"@,
                dated_view(seq!["%Y %m %d"@]),
                r"(?:\W|^)([[(]?(?:19[6-9]|20[012])[0-9]([. \-/\\])(?:0[1-9]|1[012])\2(?:0[1-9]|[12][0-9]|3[01])[\]\)]?)(?:\W|$)"@,
                false,
                plain.removing(),
            ),
        )
        .push(
            rule_view(
                "date"@,
                dated_view(seq!["%d %m %Y"@]),
                r"(?:\W|^)(\[?\]?(?:0[1-9]|[12][0-9]|3[01])([. \-/\\])(?:0[1-9]|1[012])\2(?:19[6-9]|20[01])[0-9][\])]?)(?:\W|$)"@,
                false,
                plain.removing(),
            ),
        )
        .push(
            rule_view(
                "date"@,
                dated_view(seq!["%m %d %y"@]),
                r"(?:\W)(\[?\]?(?:0[1-9]|1[012])([. \-/\\])(?:0[1-9]|[12][0-9]|3[01])\2(?:[0][1-9]|[0126789][0-9])[\])]?)(?:\W|$)"@,
                false,
                plain.removing(),
            ),
        )
        .push(
            rule_view(
                "date"@,
                dated_view(seq!["%d %m %y"@]),
                r"(?:\W)(\[?\]?(?:0[1-9]|[12][0-9]|3[01])([. \-/\\])(?:0[1-9]|1[012])\2(?:[0][1-9]|[0126789][0-9])[\])]?)(?:\W|$)"@,
                false,
                plain.removing(),
            ),
        )
        .push(
            rule_view(
                "date"@,
                dated_view(seq![
                    "%d %b %Y"@,
                    "%dst %b %Y"@,
                    "%dnd %b %Y"@,
                    "%drd %b %Y"@,
                    "%dth %b %Y"@,
                    "%d %B %Y"@,
                    "%dst %B %Y"@,
                    "%dnd %B %Y"@,
                    "%drd %B %Y"@,
                    "%dth %B %Y"@,
                ]),
                r"(?:\W|^)([([]?(?:0?[1-9]|[12][0-9]|3[01])[. ]?(?:st|nd|rd|th)?([. \-/\\])(?:feb(?:ruary)?|jan(?:uary)?|mar(?:ch)?|apr(?:il)?|may|june?|july?|aug(?:ust)?|sept?(?:ember)?|oct(?:ober)?|nov(?:ember)?|dec(?:ember)?)\2(?:19[7-9]|20[012])[0-9][)\]]?)(?=\W|$)"@,
                true,
                plain.removing(),
            ),
        )
        .push(
            rule_view(
                "date"@,
                dated_view(seq!["%d %b %y"@]),
                r"(?:\W|^)(\[?\]?(?:0?[1-9]|[12][0-9]|3[01])[. ]?(?:st|nd|rd|th)?([. \-\/\\])(?:feb(?:ruary)?|jan(?:uary)?|mar(?:ch)?|apr(?:il)?|may|june?|july?|aug(?:ust)?|sept?(?:ember)?|oct(?:ober)?|nov(?:ember)?|dec(?:ember)?)\2(?:0[1-9]|[0126789][0-9])[\])]?)(?:\W|$)"@,
                true,
                plain.removing(),
            ),
        )
        .push(
            rule_view(
                "date"@,
                dated_view(seq!["%Y%m%d"@]),
                r"(?:\W|^)(\[?\]?20[012][0-9](?:0[1-9]|1[012])(?:0[1-9]|[12][0-9]|3[01])[\])]?)(?:\W|$)"@,
                false,
                plain.removing(),
            ),
        )
        .push(
            rule_view(
                "complete"@,
                TargetView::Flag(FlagField::Complete),
                r"\b((?:19\d|20[012])\d[ .]?-[ .]?(?:19\d|20[012])\d)\b"@,
                false,
                plain.removing(),
            ),
        )
        .push(
            rule_view(
                "complete"@,
                TargetView::Flag(FlagField::Complete),
                r"[([][ .]?((?:19\d|20[012])\d[ .]?-[ .]?\d{2})[ .]?[)\]]"@,
                false,
                plain.removing(),
            ),
        )
        .push(
            rule_view(
                "bitrate"@,
                TargetView::Text(TextField::Bitrate, TextTransformView::Lowercase),
                r"\b\d+[kmg]bps\b"@,
                true,
                plain.removing(),
            ),
        )
        .push(
            rule_view(
                "year"@,
                TargetView::Year,
                r"\b(20[0-9]{2}|2100)(?!\D*\d{4}\b)"@,
                false,
                plain.removing(),
            ),
        )
        .push(
            rule_view(
                "year"@,
                TargetView::Year,
                r"[([]?(?!^)(?<!\d|Cap[. ]?)((?:19\d|20[012])\d)(?!\d|kbps)[)\]]?"@,
                true,
                plain.removing(),
            ),
        )
        .push(
            rule_view(
                "year"@,
                TargetView::Year,
                r"^[([]?((?:19\d|20[012])\d)(?!\d|kbps)[)\]]?"@,
                true,
                plain.removing(),
            ),
        )
}

/// Lists the part of the table for: dates, year ranges, bit rates and years.
#[verifier::rlimit(50)]
fn list_date_rules(table: &mut Vec<Recipe>)
    ensures
        handlers_of(final(table)@) == date_rules(handlers_of(old(table)@)),
{
    let plain = RegexHandlerOptions::default();
    let formats = vec!["%Y %m %d"];
    proof {
        assert(texts_of(formats@) =~= seq!["%Y %m %d"@]);
    }
    sensitive(
        table,
        "date",
        dated(&formats),
        r"(?:\W|^)([[(]?(?:19[6-9]|20[012])[0-9]([. \-/\\])(?:0[1-9]|1[012])\2(?:0[1-9]|[12][0-9]|3[01])[\]\)]?)(?:\W|$)",
        plain.removing(),
    );
    let formats = vec!["%d %m %Y"];
    proof {
        assert(texts_of(formats@) =~= seq!["%d %m %Y"@]);
    }
    sensitive(
        table,
        "date",
        dated(&formats),
        r"(?:\W|^)(\[?\]?(?:0[1-9]|[12][0-9]|3[01])([. \-/\\])(?:0[1-9]|1[012])\2(?:19[6-9]|20[01])[0-9][\])]?)(?:\W|$)",
        plain.removing(),
    );
    let formats = vec!["%m %d %y"];
    proof {
        assert(texts_of(formats@) =~= seq!["%m %d %y"@]);
    }
    sensitive(
        table,
        "date",
        dated(&formats),
        r"(?:\W)(\[?\]?(?:0[1-9]|1[012])([. \-/\\])(?:0[1-9]|[12][0-9]|3[01])\2(?:[0][1-9]|[0126789][0-9])[\])]?)(?:\W|$)",
        plain.removing(),
    );
    let formats = vec!["%d %m %y"];
    proof {
        assert(texts_of(formats@) =~= seq!["%d %m %y"@]);
    }
    sensitive(
        table,
        "date",
        dated(&formats),
        r"(?:\W)(\[?\]?(?:0[1-9]|[12][0-9]|3[01])([. \-/\\])(?:0[1-9]|1[012])\2(?:[0][1-9]|[0126789][0-9])[\])]?)(?:\W|$)",
        plain.removing(),
    );
    let formats = vec![
        "%d %b %Y",
        "%dst %b %Y",
        "%dnd %b %Y",
        "%drd %b %Y",
        "%dth %b %Y",
        "%d %B %Y",
        "%dst %B %Y",
        "%dnd %B %Y",
        "%drd %B %Y",
        "%dth %B %Y",
    ];
    proof {
        assert(texts_of(formats@) =~= seq![
            "%d %b %Y"@,
            "%dst %b %Y"@,
            "%dnd %b %Y"@,
            "%drd %b %Y"@,
            "%dth %b %Y"@,
            "%d %B %Y"@,
            "%dst %B %Y"@,
            "%dnd %B %Y"@,
            "%drd %B %Y"@,
            "%dth %B %Y"@,
        ]);
    }
    insensitive(
        table,
        "date",
        dated(&formats),
        r"(?:\W|^)([([]?(?:0?[1-9]|[12][0-9]|3[01])[. ]?(?:st|nd|rd|th)?([. \-/\\])(?:feb(?:ruary)?|jan(?:uary)?|mar(?:ch)?|apr(?:il)?|may|june?|july?|aug(?:ust)?|sept?(?:ember)?|oct(?:ober)?|nov(?:ember)?|dec(?:ember)?)\2(?:19[7-9]|20[012])[0-9][)\]]?)(?=\W|$)",
        plain.removing(),
    );
    let formats = vec!["%d %b %y"];
    proof {
        assert(texts_of(formats@) =~= seq!["%d %b %y"@]);
    }
    insensitive(
        table,
        "date",
        dated(&formats),
        r"(?:\W|^)(\[?\]?(?:0?[1-9]|[12][0-9]|3[01])[. ]?(?:st|nd|rd|th)?([. \-\/\\])(?:feb(?:ruary)?|jan(?:uary)?|mar(?:ch)?|apr(?:il)?|may|june?|july?|aug(?:ust)?|sept?(?:ember)?|oct(?:ober)?|nov(?:ember)?|dec(?:ember)?)\2(?:0[1-9]|[0126789][0-9])[\])]?)(?:\W|$)",
        plain.removing(),
    );
    let formats = vec!["%Y%m%d"];
    proof {
        assert(texts_of(formats@) =~= seq!["%Y%m%d"@]);
    }
    sensitive(
        table,
        "date",
        dated(&formats),
        r"(?:\W|^)(\[?\]?20[012][0-9](?:0[1-9]|1[012])(?:0[1-9]|[12][0-9]|3[01])[\])]?)(?:\W|$)",
        plain.removing(),
    );
    sensitive(
        table,
        "complete",
        Target::Flag(FlagField::Complete),
        r"\b((?:19\d|20[012])\d[ .]?-[ .]?(?:19\d|20[012])\d)\b",
        plain.removing(),
    );
    sensitive(
        table,
        "complete",
        Target::Flag(FlagField::Complete),
        r"[([][ .]?((?:19\d|20[012])\d[ .]?-[ .]?\d{2})[ .]?[)\]]",
        plain.removing(),
    );
    insensitive(
        table,
        "bitrate",
        Target::Text(TextField::Bitrate, TextTransform::Lowercase),
        r"\b\d+[kmg]bps\b",
        plain.removing(),
    );
    sensitive(table, "year", Target::Year, r"\b(20[0-9]{2}|2100)(?!\D*\d{4}\b)", plain.removing());
    insensitive(
        table,
        "year",
        Target::Year,
        r"[([]?(?!^)(?<!\d|Cap[. ]?)((?:19\d|20[012])\d)(?!\d|kbps)[)\]]?",
        plain.removing(),
    );
    insensitive(
        table,
        "year",
        Target::Year,
        r"^[([]?((?:19\d|20[012])\d)(?!\d|kbps)[)\]]?",
        plain.removing(),
    );
}

/// Editions.
pub open spec fn edition_rules(before: Seq<HandlerView>) -> Seq<HandlerView> {
    let plain = plain_options();
    before
        .push(
            rule_view(
                "edition"@,
                fixed_view(TextField::Edition, "Anniversary Edition"@),
                r"\b\d{2,3}(th)?[\.\s\-\+_\/(),]Anniversary[\.\s\-\+_\/(),](Edition|Ed)?\b"@,
                true,
                plain.removing(),
            ),
        )
        .push(
            rule_view(
                "edition"@,
                fixed_view(TextField::Edition, "Ultimate Edition"@),
                r"\bUltimate[\.\s\-\+_\/(),]Edition\b"@,
                true,
                plain.removing(),
            ),
        )
        .push(
            rule_view(
                "edition"@,
                fixed_view(TextField::Edition, "Directors Cut"@),
                r#"\bExtended[\.\s\-\+_\/(),]Director\"?s\b"#@,
                true,
                plain.removing(),
            ),
        )
        .push(
            rule_view(
                "extended"@,
                TargetView::Flag(FlagField::Extended),
                r"\bExtended\b"@,
                true,
                plain,
            ),
        )
        .push(
            rule_view(
                "edition"@,
                fixed_view(TextField::Edition, "Extended Edition"@),
                r"\b(custom.?)?Extended\b"@,
                true,
                plain.removing(),
            ),
        )
        .push(
            rule_view(
                "edition"@,
                fixed_view(TextField::Edition, "Directors Cut"@),
                r#"\bDirector\"?s[\.\s\-\+_\/(),]Cut\b"#@,
                true,
                plain.removing(),
            ),
        )
        .push(
            rule_view(
                "edition"@,
                fixed_view(TextField::Edition, "Collectors Edition"@),
                r#"\bCollector\"?s\b"#@,
                true,
                plain.removing(),
            ),
        )
        .push(
            rule_view(
                "edition"@,
                fixed_view(TextField::Edition, "Theatrical"@),
                r"\bTheatrical\b"@,
                true,
                plain.removing(),
            ),
        )
        .push(
            rule_view(
                "edition"@,
                fixed_view(TextField::Edition, "Uncut"@),
                r"\bUncut\b"@,
                true,
                plain.removing(),
            ),
        )
        .push(
            rule_view(
                "edition"@,
                fixed_view(TextField::Edition, "IMAX"@),
                r"\bIMAX\b"@,
                true,
                plain.removing(),
            ),
        )
        .push(
            rule_view(
                "edition"@,
                fixed_view(TextField::Edition, "Diamond Edition"@),
                r"\b\.Diamond\.\b"@,
                true,
                plain.removing(),
            ),
        )
        .push(
            rule_view(
                "remastered"@,
                TargetView::Flag(FlagField::Remastered),
                r"\bRemaster(?:ed)?\b"@,
                true,
                plain,
            ),
        )
        .push(
            rule_view(
                "edition"@,
                fixed_view(TextField::Edition, "Remastered"@),
                r"\bRemaster(?:ed)?\b"@,
                true,
                plain.removing(),
            ),
        )
}

/// Lists the part of the table for: editions.
#[verifier::rlimit(50)]
fn list_edition_rules(table: &mut Vec<Recipe>)
    ensures
        handlers_of(final(table)@) == edition_rules(handlers_of(old(table)@)),
{
    let plain = RegexHandlerOptions::default();
    insensitive(
        table,
        "edition",
        fixed(TextField::Edition, "Anniversary Edition"),
        r"\b\d{2,3}(th)?[\.\s\-\+_\/(),]Anniversary[\.\s\-\+_\/(),](Edition|Ed)?\b",
        plain.removing(),
    );
    insensitive(
        table,
        "edition",
        fixed(TextField::Edition, "Ultimate Edition"),
        r"\bUltimate[\.\s\-\+_\/(),]Edition\b",
        plain.removing(),
    );
    insensitive(
        table,
        "edition",
        fixed(TextField::Edition, "Directors Cut"),
        r#"\bExtended[\.\s\-\+_\/(),]Director\"?s\b"#,
        plain.removing(),
    );
    insensitive(table, "extended", Target::Flag(FlagField::Extended), r"\bExtended\b", plain);
    insensitive(
        table,
        "edition",
        fixed(TextField::Edition, "Extended Edition"),
        r"\b(custom.?)?Extended\b",
        plain.removing(),
    );
    insensitive(
        table,
        "edition",
        fixed(TextField::Edition, "Directors Cut"),
        r#"\bDirector\"?s[\.\s\-\+_\/(),]Cut\b"#,
        plain.removing(),
    );
    insensitive(
        table,
        "edition",
        fixed(TextField::Edition, "Collectors Edition"),
        r#"\bCollector\"?s\b"#,
        plain.removing(),
    );
    insensitive(
        table,
        "edition",
        fixed(TextField::Edition, "Theatrical"),
        r"\bTheatrical\b",
        plain.removing(),
    );
    insensitive(
        table,
        "edition",
        fixed(TextField::Edition, "Uncut"),
        r"\bUncut\b",
        plain.removing(),
    );
    insensitive(
        table,
        "edition",
        fixed(TextField::Edition, "IMAX"),
        r"\bIMAX\b",
        plain.removing(),
    );
    insensitive(
        table,
        "edition",
        fixed(TextField::Edition, "Diamond Edition"),
        r"\b\.Diamond\.\b",
        plain.removing(),
    );
    insensitive(
        table,
        "remastered",
        Target::Flag(FlagField::Remastered),
        r"\bRemaster(?:ed)?\b",
        plain,
    );
    insensitive(
        table,
        "edition",
        fixed(TextField::Edition, "Remastered"),
        r"\bRemaster(?:ed)?\b",
        plain.removing(),
    );
}

/// The flags that go with a release, and regions.
pub open spec fn release_flag_rules(before: Seq<HandlerView>) -> Seq<HandlerView> {
    let plain = plain_options();
    before
        .push(
            rule_view(
                "upscaled"@,
                TargetView::Flag(FlagField::Upscaled),
                r"\b(?:AI.?)?(Upscal(ed?|ing)|Enhanced?)\b"@,
                true,
                plain,
            ),
        )
        .push(
            rule_view(
                "upscaled"@,
                TargetView::Flag(FlagField::Upscaled),
                r"\b(?:iris2|regrade|ups(uhd|fhd|hd|4k))\b"@,
                true,
                plain,
            ),
        )
        .push(
            rule_view(
                "upscaled"@,
                TargetView::Flag(FlagField::Upscaled),
                r"\b\.AI\.\b"@,
                true,
                plain,
            ),
        )
        .push(
            rule_view(
                "convert"@,
                TargetView::Flag(FlagField::Convert),
                r"\bCONVERT\b"@,
                true,
                plain,
            ),
        )
        .push(
            rule_view(
                "hardcoded"@,
                TargetView::Flag(FlagField::Hardcoded),
                r"\bHC|HARDCODED\b"@,
                true,
                plain,
            ),
        )
        .push(
            rule_view(
                "proper"@,
                TargetView::Flag(FlagField::Proper),
                r"\b(?:REAL.)?PROPER\b"@,
                true,
                plain,
            ),
        )
        .push(
            rule_view(
                "repack"@,
                TargetView::Flag(FlagField::Repack),
                r"\bREPACK|RERIP\b"@,
                true,
                plain,
            ),
        )
        .push(
            rule_view(
                "retail"@,
                TargetView::Flag(FlagField::Retail),
                r"\bRetail\b"@,
                true,
                plain,
            ),
        )
        .push(
            rule_view(
                "documentary"@,
                TargetView::Flag(FlagField::Documentary),
                r"\bDOCU(?:menta?ry)?\b"@,
                true,
                plain.outside_title(),
            ),
        )
        .push(
            rule_view(
                "unrated"@,
                TargetView::Flag(FlagField::Unrated),
                r"\bunrated|uncensored\b"@,
                true,
                plain,
            ),
        )
        .push(
            rule_view(
                "region"@,
                TargetView::Text(TextField::Region, TextTransformView::Identity),
                r"R\d\b"@,
                false,
                plain.only_first(),
            ),
        )
}

/// Lists the part of the table for: the flags that go with a release, and regions.
#[verifier::rlimit(50)]
fn list_release_flag_rules(table: &mut Vec<Recipe>)
    ensures
        handlers_of(final(table)@) == release_flag_rules(handlers_of(old(table)@)),
{
    let plain = RegexHandlerOptions::default();
    insensitive(
        table,
        "upscaled",
        Target::Flag(FlagField::Upscaled),
        r"\b(?:AI.?)?(Upscal(ed?|ing)|Enhanced?)\b",
        plain,
    );
    insensitive(
        table,
        "upscaled",
        Target::Flag(FlagField::Upscaled),
        r"\b(?:iris2|regrade|ups(uhd|fhd|hd|4k))\b",
        plain,
    );
    insensitive(table, "upscaled", Target::Flag(FlagField::Upscaled), r"\b\.AI\.\b", plain);
    insensitive(table, "convert", Target::Flag(FlagField::Convert), r"\bCONVERT\b", plain);
    insensitive(
        table,
        "hardcoded",
        Target::Flag(FlagField::Hardcoded),
        r"\bHC|HARDCODED\b",
        plain,
    );
    insensitive(table, "proper", Target::Flag(FlagField::Proper), r"\b(?:REAL.)?PROPER\b", plain);
    insensitive(table, "repack", Target::Flag(FlagField::Repack), r"\bREPACK|RERIP\b", plain);
    insensitive(table, "retail", Target::Flag(FlagField::Retail), r"\bRetail\b", plain);
    insensitive(
        table,
        "documentary",
        Target::Flag(FlagField::Documentary),
        r"\bDOCU(?:menta?ry)?\b",
        plain.outside_title(),
    );
    insensitive(
        table,
        "unrated",
        Target::Flag(FlagField::Unrated),
        r"\bunrated|uncensored\b",
        plain,
    );
    sensitive(
        table,
        "region",
        Target::Text(TextField::Region, TextTransform::Identity),
        r"R\d\b",
        plain.only_first(),
    );
}

/// Sources and qualities.
pub open spec fn quality_rules(before: Seq<HandlerView>) -> Seq<HandlerView> {
    let plain = plain_options();
    before
        .push(
            rule_view(
                "quality"@,
                fixed_view(TextField::Quality, "telesync"@),
                r"\b(?:HD[ .-]*)?T(?:ELE)?S(?:YNC)?(?:Rip)?\b"@,
                true,
                plain.removing(),
            ),
        )
        .push(
            rule_view(
                "quality"@,
                fixed_view(TextField::Quality, "telecine"@),
                r"\b(?:HD[ .-]*)?T(?:ELE)?C(?:INE)?(?:Rip)?\b"@,
                false,
                plain.removing(),
            ),
        )
        .push(
            rule_view(
                "quality"@,
                fixed_view(TextField::Quality, "scr"@),
                r"\b(?:DVD?|BD|BR)?[ .-]*Scr(?:eener)?\b"@,
                true,
                plain.removing(),
            ),
        )
        .push(
            rule_view(
                "quality"@,
                fixed_view(TextField::Quality, "scr"@),
                r"\bP(?:RE)?-?(HD|DVD)(?:Rip)?\b"@,
                true,
                plain.removing(),
            ),
        )
        .push(
            rule_view(
                "quality"@,
                fixed_view(TextField::Quality, "blurayremux"@),
                r"\bBlu[ .-]*Ray\b(?=.*remux)"@,
                true,
                plain.removing(),
            ),
        )
        .push(
            rule_view(
                "quality"@,
                fixed_view(TextField::Quality, "blurayremux"@),
                r"(?:BD|BR|UHD)[- ]?remux"@,
                true,
                plain.removing(),
            ),
        )
        .push(
            rule_view(
                "quality"@,
                fixed_view(TextField::Quality, "blurayremux"@),
                r"(?<=remux.*)\bBlu[ .-]*Ray\b"@,
                true,
                plain.removing(),
            ),
        )
        .push(
            rule_view(
                "quality"@,
                fixed_view(TextField::Quality, "remux"@),
                r"\bremux\b"@,
                true,
                plain.removing(),
            ),
        )
        .push(
            rule_view(
                "quality"@,
                fixed_view(TextField::Quality, "bluray"@),
                r"\bBlu[ .-]*Ray\b(?![ .-]*Rip)"@,
                true,
                plain.removing(),
            ),
        )
        .push(
            rule_view(
                "quality"@,
                fixed_view(TextField::Quality, "uhdrip"@),
                r"\bUHD[ .-]*Rip\b"@,
                true,
                plain.removing(),
            ),
        )
        .push(
            rule_view(
                "quality"@,
                fixed_view(TextField::Quality, "hdrip"@),
                r"\bHD[ .-]*Rip\b"@,
                true,
                plain.removing(),
            ),
        )
        .push(
            rule_view(
                "quality"@,
                fixed_view(TextField::Quality, "hdrip"@),
                r"\bMicro[ .-]*HD\b"@,
                true,
                plain.removing(),
            ),
        )
        .push(
            rule_view(
                "quality"@,
                fixed_view(TextField::Quality, "brrip"@),
                r"\b(?:BR|Blu[ .-]*Ray)[ .-]*Rip\b"@,
                true,
                plain.removing(),
            ),
        )
        .push(
            rule_view(
                "quality"@,
                fixed_view(TextField::Quality, "bdrip"@),
                r"\bBD[ .-]*Rip\b|\bBDR\b|\bBD-RM\b|[[(]BD[\]) .,-]"@,
                true,
                plain.removing(),
            ),
        )
        .push(
            rule_view(
                "quality"@,
                fixed_view(TextField::Quality, "dvdrip"@),
                r"\b(?:HD[ .-]*)?DVD[ .-]*Rip\b"@,
                true,
                plain.removing(),
            ),
        )
        .push(
            rule_view(
                "quality"@,
                fixed_view(TextField::Quality, "vhsrip"@),
                r"\bVHS[ .-]*Rip?\b"@,
                true,
                plain.removing(),
            ),
        )
        .push(
            rule_view(
                "quality"@,
                fixed_view(TextField::Quality, "dvd"@),
                r"\bDVD(?:R\d?|.*Mux)?\b"@,
                true,
                plain.removing(),
            ),
        )
}

/// Lists the part of the table for: sources and qualities.
#[verifier::rlimit(50)]
fn list_quality_rules(table: &mut Vec<Recipe>)
    ensures
        handlers_of(final(table)@) == quality_rules(handlers_of(old(table)@)),
{
    let plain = RegexHandlerOptions::default();
    insensitive(
        table,
        "quality",
        fixed(TextField::Quality, "telesync"),
        r"\b(?:HD[ .-]*)?T(?:ELE)?S(?:YNC)?(?:Rip)?\b",
        plain.removing(),
    );
    sensitive(
        table,
        "quality",
        fixed(TextField::Quality, "telecine"),
        r"\b(?:HD[ .-]*)?T(?:ELE)?C(?:INE)?(?:Rip)?\b",
        plain.removing(),
    );
    insensitive(
        table,
        "quality",
        fixed(TextField::Quality, "scr"),
        r"\b(?:DVD?|BD|BR)?[ .-]*Scr(?:eener)?\b",
        plain.removing(),
    );
    insensitive(
        table,
        "quality",
        fixed(TextField::Quality, "scr"),
        r"\bP(?:RE)?-?(HD|DVD)(?:Rip)?\b",
        plain.removing(),
    );
    insensitive(
        table,
        "quality",
        fixed(TextField::Quality, "blurayremux"),
        r"\bBlu[ .-]*Ray\b(?=.*remux)",
        plain.removing(),
    );
    insensitive(
        table,
        "quality",
        fixed(TextField::Quality, "blurayremux"),
        r"(?:BD|BR|UHD)[- ]?remux",
        plain.removing(),
    );
    insensitive(
        table,
        "quality",
        fixed(TextField::Quality, "blurayremux"),
        r"(?<=remux.*)\bBlu[ .-]*Ray\b",
        plain.removing(),
    );
    insensitive(
        table,
        "quality",
        fixed(TextField::Quality, "remux"),
        r"\bremux\b",
        plain.removing(),
    );
    insensitive(
        table,
        "quality",
        fixed(TextField::Quality, "bluray"),
        r"\bBlu[ .-]*Ray\b(?![ .-]*Rip)",
        plain.removing(),
    );
    insensitive(
        table,
        "quality",
        fixed(TextField::Quality, "uhdrip"),
        r"\bUHD[ .-]*Rip\b",
        plain.removing(),
    );
    insensitive(
        table,
        "quality",
        fixed(TextField::Quality, "hdrip"),
        r"\bHD[ .-]*Rip\b",
        plain.removing(),
    );
    insensitive(
        table,
        "quality",
        fixed(TextField::Quality, "hdrip"),
        r"\bMicro[ .-]*HD\b",
        plain.removing(),
    );
    insensitive(
        table,
        "quality",
        fixed(TextField::Quality, "brrip"),
        r"\b(?:BR|Blu[ .-]*Ray)[ .-]*Rip\b",
        plain.removing(),
    );
    insensitive(
        table,
        "quality",
        fixed(TextField::Quality, "bdrip"),
        r"\bBD[ .-]*Rip\b|\bBDR\b|\bBD-RM\b|[[(]BD[\]) .,-]",
        plain.removing(),
    );
    insensitive(
        table,
        "quality",
        fixed(TextField::Quality, "dvdrip"),
        r"\b(?:HD[ .-]*)?DVD[ .-]*Rip\b",
        plain.removing(),
    );
    insensitive(
        table,
        "quality",
        fixed(TextField::Quality, "vhsrip"),
        r"\bVHS[ .-]*Rip?\b",
        plain.removing(),
    );
    insensitive(
        table,
        "quality",
        fixed(TextField::Quality, "dvd"),
        r"\bDVD(?:R\d?|.*Mux)?\b",
        plain.removing(),
    );
}

/// Sources and qualities, continued.
pub open spec fn more_quality_rules(before: Seq<HandlerView>) -> Seq<HandlerView> {
    let plain = plain_options();
    before
        .push(
            rule_view(
                "quality"@,
                fixed_view(TextField::Quality, "vhs"@),
                r"\bVHS\b"@,
                true,
                plain.removing(),
            ),
        )
        .push(
            rule_view(
                "quality"@,
                fixed_view(TextField::Quality, "ppvrip"@),
                r"\bPPVRip\b"@,
                true,
                plain.removing(),
            ),
        )
        .push(
            rule_view(
                "quality"@,
                fixed_view(TextField::Quality, "hdtvrip"@),
                r"\bHD.?TV.?Rip\b"@,
                true,
                plain.removing(),
            ),
        )
        .push(
            rule_view(
                "quality"@,
                fixed_view(TextField::Quality, "hdtv"@),
                r"\bHD.?TV\b"@,
                true,
                plain.removing(),
            ),
        )
        .push(
            rule_view(
                "quality"@,
                fixed_view(TextField::Quality, "hdtv"@),
                r"\bDVB[ .-]*(?:Rip)?\b"@,
                true,
                plain.removing(),
            ),
        )
        .push(
            rule_view(
                "quality"@,
                fixed_view(TextField::Quality, "satrip"@),
                r"\bSAT[ .-]*Rips?\b"@,
                true,
                plain.removing(),
            ),
        )
        .push(
            rule_view(
                "quality"@,
                fixed_view(TextField::Quality, "tvrip"@),
                r"\bTVRips?\b"@,
                true,
                plain.removing(),
            ),
        )
        .push(
            rule_view(
                "quality"@,
                fixed_view(TextField::Quality, "r5"@),
                r"\bR5\b"@,
                true,
                plain.removing(),
            ),
        )
        .push(
            rule_view(
                "quality"@,
                fixed_view(TextField::Quality, "webmux"@),
                r"\b(?:DL|WEB|BD|BR)MUX\b"@,
                true,
                plain.removing(),
            ),
        )
        .push(
            rule_view(
                "quality"@,
                fixed_view(TextField::Quality, "webrip"@),
                r"\bWEB[ .-]*Rip\b"@,
                true,
                plain.removing(),
            ),
        )
        .push(
            rule_view(
                "quality"@,
                fixed_view(TextField::Quality, "webdlrip"@),
                r"\bWEB[ .-]?DL[ .-]?Rip\b"@,
                true,
                plain.removing(),
            ),
        )
        .push(
            rule_view(
                "quality"@,
                fixed_view(TextField::Quality, "webdl"@),
                r"\bWEB[ .-]*(DL|.BDrip|.DLRIP)\b"@,
                true,
                plain.removing(),
            ),
        )
        .push(
            rule_view(
                "quality"@,
                fixed_view(TextField::Quality, "web"@),
                r"\b(?<!\w.)WEB\b|\bWEB(?!([ \.\-\(\],]+\d))\b"@,
                true,
                plain.removing().outside_title(),
            ),
        )
        .push(
            rule_view(
                "quality"@,
                fixed_view(TextField::Quality, "cam"@),
                r"\b(?:H[DQ][ .-]*)?CAM(?!.?(S|E|\()\d+)(?:H[DQ])?(?:[ .-]*Rip|Rp)?\b"@,
                true,
                plain.removing().outside_title(),
            ),
        )
        .push(
            rule_view(
                "quality"@,
                fixed_view(TextField::Quality, "cam"@),
                r"\b(?:H[DQ][ .-]*)?S[ \.\-]print"@,
                true,
                plain.removing().outside_title(),
            ),
        )
        .push(
            rule_view(
                "quality"@,
                fixed_view(TextField::Quality, "pdtv"@),
                r"\bPDTV\b"@,
                true,
                plain.removing(),
            ),
        )
}

/// Lists the part of the table for: sources and qualities, continued.
#[verifier::rlimit(50)]
fn list_more_quality_rules(table: &mut Vec<Recipe>)
    ensures
        handlers_of(final(table)@) == more_quality_rules(handlers_of(old(table)@)),
{
    let plain = RegexHandlerOptions::default();
    insensitive(table, "quality", fixed(TextField::Quality, "vhs"), r"\bVHS\b", plain.removing());
    insensitive(
        table,
        "quality",
        fixed(TextField::Quality, "ppvrip"),
        r"\bPPVRip\b",
        plain.removing(),
    );
    insensitive(
        table,
        "quality",
        fixed(TextField::Quality, "hdtvrip"),
        r"\bHD.?TV.?Rip\b",
        plain.removing(),
    );
    insensitive(
        table,
        "quality",
        fixed(TextField::Quality, "hdtv"),
        r"\bHD.?TV\b",
        plain.removing(),
    );
    insensitive(
        table,
        "quality",
        fixed(TextField::Quality, "hdtv"),
        r"\bDVB[ .-]*(?:Rip)?\b",
        plain.removing(),
    );
    insensitive(
        table,
        "quality",
        fixed(TextField::Quality, "satrip"),
        r"\bSAT[ .-]*Rips?\b",
        plain.removing(),
    );
    insensitive(
        table,
        "quality",
        fixed(TextField::Quality, "tvrip"),
        r"\bTVRips?\b",
        plain.removing(),
    );
    insensitive(table, "quality", fixed(TextField::Quality, "r5"), r"\bR5\b", plain.removing());
    insensitive(
        table,
        "quality",
        fixed(TextField::Quality, "webmux"),
        r"\b(?:DL|WEB|BD|BR)MUX\b",
        plain.removing(),
    );
    insensitive(
        table,
        "quality",
        fixed(TextField::Quality, "webrip"),
        r"\bWEB[ .-]*Rip\b",
        plain.removing(),
    );
    insensitive(
        table,
        "quality",
        fixed(TextField::Quality, "webdlrip"),
        r"\bWEB[ .-]?DL[ .-]?Rip\b",
        plain.removing(),
    );
    insensitive(
        table,
        "quality",
        fixed(TextField::Quality, "webdl"),
        r"\bWEB[ .-]*(DL|.BDrip|.DLRIP)\b",
        plain.removing(),
    );
    insensitive(
        table,
        "quality",
        fixed(TextField::Quality, "web"),
        r"\b(?<!\w.)WEB\b|\bWEB(?!([ \.\-\(\],]+\d))\b",
        plain.removing().outside_title(),
    );
    insensitive(
        table,
        "quality",
        fixed(TextField::Quality, "cam"),
        r"\b(?:H[DQ][ .-]*)?CAM(?!.?(S|E|\()\d+)(?:H[DQ])?(?:[ .-]*Rip|Rp)?\b",
        plain.removing().outside_title(),
    );
    insensitive(
        table,
        "quality",
        fixed(TextField::Quality, "cam"),
        r"\b(?:H[DQ][ .-]*)?S[ \.\-]print",
        plain.removing().outside_title(),
    );
    insensitive(
        table,
        "quality",
        fixed(TextField::Quality, "pdtv"),
        r"\bPDTV\b",
        plain.removing(),
    );
}

/// Bit depth, dynamic range and codec.
pub open spec fn video_rules(before: Seq<HandlerView>) -> Seq<HandlerView> {
    let plain = plain_options();
    before
        .push(
            rule_view(
                "bit_depth"@,
                fixed_view(TextField::BitDepth, "10bit"@),
                r"\bhevc\s?10\b"@,
                true,
                plain,
            ),
        )
        .push(
            rule_view(
                "bit_depth"@,
                fixed_view(TextField::BitDepth, "$1bit"@),
                r"(?:8|10|12)[-\.]?(?=bit)"@,
                true,
                plain.removing(),
            ),
        )
        .push(
            rule_view(
                "bit_depth"@,
                fixed_view(TextField::BitDepth, "10bit"@),
                r"\bhdr10\b"@,
                true,
                plain,
            ),
        )
        .push(
            rule_view(
                "bit_depth"@,
                fixed_view(TextField::BitDepth, "10bit"@),
                r"\bhi10\b"@,
                true,
                plain,
            ),
        )
        .push(handler_view("bit_depth"@, ActionView::NormalizeBitDepth))
        .push(
            rule_view(
                "hdr"@,
                listed_view(ListField::Hdr, "DV"@),
                r"\bDV\b|dolby.?vision|\bDoVi\b"@,
                true,
                plain.removing().repeatable(),
            ),
        )
        .push(
            rule_view(
                "hdr"@,
                listed_view(ListField::Hdr, "HDR10+"@),
                r"HDR10(?:\+|[-\.\s]?plus)"@,
                true,
                plain.removing().repeatable(),
            ),
        )
        .push(
            rule_view(
                "hdr"@,
                listed_view(ListField::Hdr, "HDR"@),
                r"\bHDR(?:10)?\b"@,
                true,
                plain.removing().repeatable(),
            ),
        )
        .push(
            rule_view(
                "hdr"@,
                listed_view(ListField::Hdr, "SDR"@),
                r"\bSDR\b"@,
                true,
                plain.removing().repeatable(),
            ),
        )
        .push(
            rule_view(
                "codec_tag"@,
                TargetView::Text(TextField::CodecTag, TextTransformView::Lowercase),
                r"\b(?:[hx][. -]?26[45]|hevc|avc|xvid|divx|av1|mpe?g\d*)\b"@,
                true,
                plain,
            ),
        )
        .push(
            rule_view(
                "codec"@,
                TargetView::Codec(Codec::Avc),
                r"\b[hx][\. \-]?264\b"@,
                true,
                plain.removing(),
            ),
        )
        .push(
            rule_view(
                "codec"@,
                TargetView::Codec(Codec::Hevc),
                r"\b[hx][\. \-]?265\b"@,
                true,
                plain.removing(),
            ),
        )
        .push(
            rule_view(
                "codec"@,
                TargetView::Codec(Codec::Hevc),
                r"HEVC10(bit)?\b|\b[xh][\. \-]?265\b"@,
                true,
                plain.removing(),
            ),
        )
        .push(
            rule_view(
                "codec"@,
                TargetView::Codec(Codec::Hevc),
                r"\bhevc(?:\s?10)?\b"@,
                true,
                plain.removing().repeatable(),
            ),
        )
        .push(
            rule_view(
                "codec"@,
                TargetView::Codec(Codec::Xvid),
                r"\bdivx|xvid\b"@,
                true,
                plain.removing().repeatable(),
            ),
        )
        .push(
            rule_view(
                "codec"@,
                TargetView::Codec(Codec::Avc),
                r"\bavc\b"@,
                true,
                plain.removing().repeatable(),
            ),
        )
        .push(
            rule_view(
                "codec"@,
                TargetView::Codec(Codec::Av1),
                r"\bav1\b"@,
                true,
                plain.removing().repeatable(),
            ),
        )
        .push(
            rule_view(
                "codec"@,
                TargetView::Codec(Codec::Mpeg),
                r"\b(?:mpe?g\d*)\b"@,
                true,
                plain.removing().repeatable(),
            ),
        )
        .push(handler_view("codec"@, ActionView::NormalizeCodecTag))
}

/// Lists the part of the table for: bit depth, dynamic range and codec.
#[verifier::rlimit(50)]
fn list_video_rules(table: &mut Vec<Recipe>)
    ensures
        handlers_of(final(table)@) == video_rules(handlers_of(old(table)@)),
{
    let plain = RegexHandlerOptions::default();
    insensitive(table, "bit_depth", fixed(TextField::BitDepth, "10bit"), r"\bhevc\s?10\b", plain);
    insensitive(
        table,
        "bit_depth",
        fixed(TextField::BitDepth, "$1bit"),
        r"(?:8|10|12)[-\.]?(?=bit)",
        plain.removing(),
    );
    insensitive(table, "bit_depth", fixed(TextField::BitDepth, "10bit"), r"\bhdr10\b", plain);
    insensitive(table, "bit_depth", fixed(TextField::BitDepth, "10bit"), r"\bhi10\b", plain);
    list(table, "bit_depth", Plan::NormalizeBitDepth);
    insensitive(
        table,
        "hdr",
        listed(ListField::Hdr, "DV"),
        r"\bDV\b|dolby.?vision|\bDoVi\b",
        plain.removing().repeatable(),
    );
    insensitive(
        table,
        "hdr",
        listed(ListField::Hdr, "HDR10+"),
        r"HDR10(?:\+|[-\.\s]?plus)",
        plain.removing().repeatable(),
    );
    insensitive(
        table,
        "hdr",
        listed(ListField::Hdr, "HDR"),
        r"\bHDR(?:10)?\b",
        plain.removing().repeatable(),
    );
    insensitive(
        table,
        "hdr",
        listed(ListField::Hdr, "SDR"),
        r"\bSDR\b",
        plain.removing().repeatable(),
    );
    insensitive(
        table,
        "codec_tag",
        Target::Text(TextField::CodecTag, TextTransform::Lowercase),
        r"\b(?:[hx][. -]?26[45]|hevc|avc|xvid|divx|av1|mpe?g\d*)\b",
        plain,
    );
    insensitive(
        table,
        "codec",
        Target::Codec(Codec::Avc),
        r"\b[hx][\. \-]?264\b",
        plain.removing(),
    );
    insensitive(
        table,
        "codec",
        Target::Codec(Codec::Hevc),
        r"\b[hx][\. \-]?265\b",
        plain.removing(),
    );
    insensitive(
        table,
        "codec",
        Target::Codec(Codec::Hevc),
        r"HEVC10(bit)?\b|\b[xh][\. \-]?265\b",
        plain.removing(),
    );
    insensitive(
        table,
        "codec",
        Target::Codec(Codec::Hevc),
        r"\bhevc(?:\s?10)?\b",
        plain.removing().repeatable(),
    );
    insensitive(
        table,
        "codec",
        Target::Codec(Codec::Xvid),
        r"\bdivx|xvid\b",
        plain.removing().repeatable(),
    );
    insensitive(
        table,
        "codec",
        Target::Codec(Codec::Avc),
        r"\bavc\b",
        plain.removing().repeatable(),
    );
    insensitive(
        table,
        "codec",
        Target::Codec(Codec::Av1),
        r"\bav1\b",
        plain.removing().repeatable(),
    );
    insensitive(
        table,
        "codec",
        Target::Codec(Codec::Mpeg),
        r"\b(?:mpe?g\d*)\b",
        plain.removing().repeatable(),
    );
    list(table, "codec", Plan::NormalizeCodecTag);
}

/// Channels.
pub open spec fn channel_rules(before: Seq<HandlerView>) -> Seq<HandlerView> {
    let plain = plain_options();
    before
        .push(
            rule_view(
                "channels"@,
                listed_view(ListField::Channels, "5.1"@),
                r"\bDDP?5[ \.\_]1\b"@,
                true,
                plain,
            ),
        )
        .push(
            rule_view(
                "channels"@,
                listed_view(ListField::Channels, "5.1"@),
                r"\b5\.1(ch)?\b"@,
                true,
                plain,
            ),
        )
        .push(
            rule_view(
                "channels"@,
                listed_view(ListField::Channels, "7.1"@),
                r"\b7[\.\- ]1(.?ch(annel)?)?\b"@,
                true,
                plain,
            ),
        )
        .push(
            rule_view(
                "channels"@,
                listed_view(ListField::Channels, "2.0"@),
                r"\b2\.0\b"@,
                true,
                plain,
            ),
        )
        .push(
            rule_view(
                "channels"@,
                listed_view(ListField::Channels, "stereo"@),
                r"\bstereo\b"@,
                true,
                plain,
            ),
        )
        .push(
            rule_view(
                "channels"@,
                listed_view(ListField::Channels, "mono"@),
                r"\bmono\b"@,
                true,
                plain,
            ),
        )
        .push(
            rule_view(
                "channels"@,
                listed_view(ListField::Channels, "5.1"@),
                r"\b(?:x[2-4]|5[\W]1(?:x[2-4])?)\b"@,
                true,
                plain.removing(),
            ),
        )
        .push(
            rule_view(
                "channels"@,
                listed_view(ListField::Channels, "2.0"@),
                r"\b2\.0(?:x[2-4])\b"@,
                true,
                plain.removing(),
            ),
        )
}

/// Lists the part of the table for: channels.
#[verifier::rlimit(50)]
fn list_channel_rules(table: &mut Vec<Recipe>)
    ensures
        handlers_of(final(table)@) == channel_rules(handlers_of(old(table)@)),
{
    let plain = RegexHandlerOptions::default();
    insensitive(
        table,
        "channels",
        listed(ListField::Channels, "5.1"),
        r"\bDDP?5[ \.\_]1\b",
        plain,
    );
    insensitive(table, "channels", listed(ListField::Channels, "5.1"), r"\b5\.1(ch)?\b", plain);
    insensitive(
        table,
        "channels",
        listed(ListField::Channels, "7.1"),
        r"\b7[\.\- ]1(.?ch(annel)?)?\b",
        plain,
    );
    insensitive(table, "channels", listed(ListField::Channels, "2.0"), r"\b2\.0\b", plain);
    insensitive(table, "channels", listed(ListField::Channels, "stereo"), r"\bstereo\b", plain);
    insensitive(table, "channels", listed(ListField::Channels, "mono"), r"\bmono\b", plain);
    insensitive(
        table,
        "channels",
        listed(ListField::Channels, "5.1"),
        r"\b(?:x[2-4]|5[\W]1(?:x[2-4])?)\b",
        plain.removing(),
    );
    insensitive(
        table,
        "channels",
        listed(ListField::Channels, "2.0"),
        r"\b2\.0(?:x[2-4])\b",
        plain.removing(),
    );
}

/// Audio formats, trailing groups, containers and volumes.
pub open spec fn audio_rules(before: Seq<HandlerView>) -> Seq<HandlerView> {
    let plain = plain_options();
    before
        .push(
            rule_view(
                "audio"@,
                listed_view(ListField::Audio, "dolby digital plus"@),
                r"\bDDP5[ \.\_]1\b"@,
                true,
                plain.removing().only_first(),
            ),
        )
        .push(
            rule_view(
                "audio"@,
                listed_view(ListField::Audio, "dts lossless"@),
                r"\b(?!.+HR)(DTS.?HD.?Ma(ster)?|DTS.?X)\b"@,
                true,
                plain.removing().repeatable(),
            ),
        )
        .push(
            rule_view(
                "audio"@,
                listed_view(ListField::Audio, "dts"@),
                r"\bDTS(?!(.?HD.?Ma(ster)?|.X)).?(HD.?HR|HD)?\b"@,
                true,
                plain.removing().repeatable(),
            ),
        )
        .push(
            rule_view(
                "audio"@,
                listed_view(ListField::Audio, "atmos"@),
                r"\b(Dolby.?)?Atmos\b"@,
                true,
                plain.removing().repeatable(),
            ),
        )
        .push(
            rule_view(
                "audio"@,
                listed_view(ListField::Audio, "truehd"@),
                r"\b(TrueHD|\.True\.)\b"@,
                true,
                plain.removing().outside_title().repeatable(),
            ),
        )
        .push(
            rule_view(
                "audio"@,
                listed_view(ListField::Audio, "truehd"@),
                r"\bTRUE\b"@,
                false,
                plain.removing().outside_title().repeatable(),
            ),
        )
        .push(
            rule_view(
                "audio"@,
                listed_view(ListField::Audio, "flac"@),
                r"\bFLAC(?:\+?2\.0)?(x[2-4])?\b"@,
                true,
                plain.removing().repeatable(),
            ),
        )
        .push(
            rule_view(
                "audio"@,
                listed_view(ListField::Audio, "eac3"@),
                r"\bEAC-?3(?:[. -]?[256]\.[01])?\b"@,
                true,
                plain.removing().repeatable(),
            ),
        )
        .push(
            rule_view(
                "audio"@,
                listed_view(ListField::Audio, "ac3"@),
                r"\bAC-?3(x2)?(?:[ .-](5\.1)?[x+]2\.?0?x?3?)?\b"@,
                true,
                plain.removing().repeatable(),
            ),
        )
        .push(
            rule_view(
                "audio"@,
                listed_view(ListField::Audio, "dolby digital plus"@),
                r"\b(DD2?[\+p]2?(.?5.1)?|DD Plus|Dolby Digital Plus)\b"@,
                true,
                plain.removing().repeatable(),
            ),
        )
        .push(
            rule_view(
                "audio"@,
                listed_view(ListField::Audio, "dolby digital"@),
                r"\b(DD|Dolby.?Digital.?)2?(5.?1)?(?!.?(Plus|P|\+))\b"@,
                true,
                plain.removing().repeatable(),
            ),
        )
        .push(
            rule_view(
                "audio"@,
                listed_view(ListField::Audio, "dolby digital"@),
                r"\bDolbyD\b"@,
                true,
                plain.removing().only_first(),
            ),
        )
        .push(
            rule_view(
                "audio"@,
                listed_view(ListField::Audio, "aac"@),
                r"\bQ?Q?AAC(x?2)?\b"@,
                true,
                plain.removing().repeatable(),
            ),
        )
        .push(
            rule_view(
                "audio"@,
                listed_view(ListField::Audio, "hq clean audio"@),
                r"\b(H[DQ])?.?(Clean.?Aud(io)?)\b"@,
                true,
                plain.removing().repeatable(),
            ),
        )
        .push(
            rule_view(
                "group"@,
                TargetView::Text(TextField::Group, TextTransformView::Identity),
                r"- ?(?!\d+$|S\d+|\d+x|ep?\d+|[^[]+]$)([^\-. []+[^\-. [)\]\d][^\-. [)\]]*)(?:\[[\w.-]+])?(?=\.\w{2,4}$|$)"@,
                true,
                plain,
            ),
        )
        .push(
            rule_view(
                "group"@,
                TargetView::Text(TextField::Group, TextTransformView::Identity),
                r"(?<=\b\d\.\d\.)([a-z][a-z0-9]+)$"@,
                true,
                plain,
            ),
        )
        .push(
            rule_view(
                "container"@,
                TargetView::Text(TextField::Container, TextTransformView::Lowercase),
                r"\.?[\[(]?\b(MKV|AVI|MP4|WMV|MPG|MPEG)\b[\])]?"@,
                true,
                plain,
            ),
        )
        .push(
            rule_view(
                "volumes"@,
                TargetView::Numbers(NumbersField::Volumes, NumbersTransform::Range),
                r"\bvol(?:s|umes?)?[. -]*(?:\d{1,2}[., +/\\&-]+)+\d{1,2}\b"@,
                true,
                plain.removing(),
            ),
        )
        .push(
            handler_view("volumes"@, ActionView::Volume(pattern(r"\bvol(?:ume)?[. -]*(\d{1,2})"@, true))),
        )
}

/// Lists the part of the table for: audio formats, trailing groups, containers and volumes.
#[verifier::rlimit(50)]
fn list_audio_rules(table: &mut Vec<Recipe>)
    ensures
        handlers_of(final(table)@) == audio_rules(handlers_of(old(table)@)),
{
    let plain = RegexHandlerOptions::default();
    insensitive(
        table,
        "audio",
        listed(ListField::Audio, "dolby digital plus"),
        r"\bDDP5[ \.\_]1\b",
        plain.removing().only_first(),
    );
    insensitive(
        table,
        "audio",
        listed(ListField::Audio, "dts lossless"),
        r"\b(?!.+HR)(DTS.?HD.?Ma(ster)?|DTS.?X)\b",
        plain.removing().repeatable(),
    );
    insensitive(
        table,
        "audio",
        listed(ListField::Audio, "dts"),
        r"\bDTS(?!(.?HD.?Ma(ster)?|.X)).?(HD.?HR|HD)?\b",
        plain.removing().repeatable(),
    );
    insensitive(
        table,
        "audio",
        listed(ListField::Audio, "atmos"),
        r"\b(Dolby.?)?Atmos\b",
        plain.removing().repeatable(),
    );
    insensitive(
        table,
        "audio",
        listed(ListField::Audio, "truehd"),
        r"\b(TrueHD|\.True\.)\b",
        plain.removing().outside_title().repeatable(),
    );
    sensitive(
        table,
        "audio",
        listed(ListField::Audio, "truehd"),
        r"\bTRUE\b",
        plain.removing().outside_title().repeatable(),
    );
    insensitive(
        table,
        "audio",
        listed(ListField::Audio, "flac"),
        r"\bFLAC(?:\+?2\.0)?(x[2-4])?\b",
        plain.removing().repeatable(),
    );
    insensitive(
        table,
        "audio",
        listed(ListField::Audio, "eac3"),
        r"\bEAC-?3(?:[. -]?[256]\.[01])?\b",
        plain.removing().repeatable(),
    );
    insensitive(
        table,
        "audio",
        listed(ListField::Audio, "ac3"),
        r"\bAC-?3(x2)?(?:[ .-](5\.1)?[x+]2\.?0?x?3?)?\b",
        plain.removing().repeatable(),
    );
    insensitive(
        table,
        "audio",
        listed(ListField::Audio, "dolby digital plus"),
        r"\b(DD2?[\+p]2?(.?5.1)?|DD Plus|Dolby Digital Plus)\b",
        plain.removing().repeatable(),
    );
    insensitive(
        table,
        "audio",
        listed(ListField::Audio, "dolby digital"),
        r"\b(DD|Dolby.?Digital.?)2?(5.?1)?(?!.?(Plus|P|\+))\b",
        plain.removing().repeatable(),
    );
    insensitive(
        table,
        "audio",
        listed(ListField::Audio, "dolby digital"),
        r"\bDolbyD\b",
        plain.removing().only_first(),
    );
    insensitive(
        table,
        "audio",
        listed(ListField::Audio, "aac"),
        r"\bQ?Q?AAC(x?2)?\b",
        plain.removing().repeatable(),
    );
    insensitive(
        table,
        "audio",
        listed(ListField::Audio, "hq clean audio"),
        r"\b(H[DQ])?.?(Clean.?Aud(io)?)\b",
        plain.removing().repeatable(),
    );
    insensitive(
        table,
        "group",
        Target::Text(TextField::Group, TextTransform::Identity),
        r"- ?(?!\d+$|S\d+|\d+x|ep?\d+|[^[]+]$)([^\-. []+[^\-. [)\]\d][^\-. [)\]]*)(?:\[[\w.-]+])?(?=\.\w{2,4}$|$)",
        plain,
    );
    insensitive(
        table,
        "group",
        Target::Text(TextField::Group, TextTransform::Identity),
        r"(?<=\b\d\.\d\.)([a-z][a-z0-9]+)$",
        plain,
    );
    insensitive(
        table,
        "container",
        Target::Text(TextField::Container, TextTransform::Lowercase),
        r"\.?[\[(]?\b(MKV|AVI|MP4|WMV|MPG|MPEG)\b[\])]?",
        plain,
    );
    insensitive(
        table,
        "volumes",
        Target::Numbers(NumbersField::Volumes, NumbersTransform::Range),
        r"\bvol(?:s|umes?)?[. -]*(?:\d{1,2}[., +/\\&-]+)+\d{1,2}\b",
        plain.removing(),
    );
    list(table, "volumes", Plan::Volume(r"\bvol(?:ume)?[. -]*(\d{1,2})".to_owned(), true));
}

/// Complete collections.
pub open spec fn complete_rules(before: Seq<HandlerView>) -> Seq<HandlerView> {
    let plain = plain_options();
    before
        .push(
            rule_view(
                "languages"@,
                TargetView::Language(Language::Spanish),
                r"\b(temporadas?|completa)\b"@,
                true,
                plain.repeatable(),
            ),
        )
        .push(
            rule_view(
                "complete"@,
                TargetView::Flag(FlagField::Complete),
                r"(?:\bthe\W)?(?:\bcomplete|collection|dvd)?\b[ .]?\bbox[ .-]?set\b"@,
                true,
                plain,
            ),
        )
        .push(
            rule_view(
                "complete"@,
                TargetView::Flag(FlagField::Complete),
                r"(?:\bthe\W)?(?:\bcomplete|collection|dvd)?\b[ .]?\bmini[ .-]?series\b"@,
                true,
                plain,
            ),
        )
        .push(
            rule_view(
                "complete"@,
                TargetView::Flag(FlagField::Complete),
                r"(?:\bthe\W)?(?:\bcomplete|full|all)\b.*\b(?:series|seasons|collection|episodes|set|pack|movies)\b"@,
                true,
                plain,
            ),
        )
        .push(
            rule_view(
                "complete"@,
                TargetView::Flag(FlagField::Complete),
                r"\b(?:series|seasons|movies?)\b.*\b(?:complete|collection)\b"@,
                true,
                plain,
            ),
        )
        .push(
            rule_view(
                "complete"@,
                TargetView::Flag(FlagField::Complete),
                r"(?:\bthe\W)?\bultimate\b[ .]\bcollection\b"@,
                true,
                plain.repeatable(),
            ),
        )
        .push(
            rule_view(
                "complete"@,
                TargetView::Flag(FlagField::Complete),
                r"\bcollection\b.*\b(?:set|pack|movies)\b"@,
                true,
                plain,
            ),
        )
        .push(
            rule_view(
                "complete"@,
                TargetView::Flag(FlagField::Complete),
                r"\bcollection\b"@,
                true,
                plain.outside_title(),
            ),
        )
        .push(
            rule_view(
                "complete"@,
                TargetView::Flag(FlagField::Complete),
                r"duology|trilogy|quadr[oi]logy|tetralogy|pentalogy|hexalogy|heptalogy|anthology"@,
                true,
                plain.repeatable(),
            ),
        )
        .push(
            rule_view(
                "complete"@,
                TargetView::Flag(FlagField::Complete),
                r"\bcomplete\b"@,
                true,
                plain,
            ),
        )
        .push(
            rule_view(
                "complete"@,
                TargetView::Flag(FlagField::Complete),
                r"\bcompleta\b"@,
                true,
                plain.removing(),
            ),
        )
        .push(
            rule_view(
                "complete"@,
                TargetView::Flag(FlagField::Complete),
                r"\bsaga\b"@,
                true,
                plain.outside_title(),
            ),
        )
}

/// Lists the part of the table for: complete collections.
#[verifier::rlimit(50)]
fn list_complete_rules(table: &mut Vec<Recipe>)
    ensures
        handlers_of(final(table)@) == complete_rules(handlers_of(old(table)@)),
{
    let plain = RegexHandlerOptions::default();
    insensitive(
        table,
        "languages",
        Target::Language(Language::Spanish),
        r"\b(temporadas?|completa)\b",
        plain.repeatable(),
    );
    insensitive(
        table,
        "complete",
        Target::Flag(FlagField::Complete),
        r"(?:\bthe\W)?(?:\bcomplete|collection|dvd)?\b[ .]?\bbox[ .-]?set\b",
        plain,
    );
    insensitive(
        table,
        "complete",
        Target::Flag(FlagField::Complete),
        r"(?:\bthe\W)?(?:\bcomplete|collection|dvd)?\b[ .]?\bmini[ .-]?series\b",
        plain,
    );
    insensitive(
        table,
        "complete",
        Target::Flag(FlagField::Complete),
        r"(?:\bthe\W)?(?:\bcomplete|full|all)\b.*\b(?:series|seasons|collection|episodes|set|pack|movies)\b",
        plain,
    );
    insensitive(
        table,
        "complete",
        Target::Flag(FlagField::Complete),
        r"\b(?:series|seasons|movies?)\b.*\b(?:complete|collection)\b",
        plain,
    );
    insensitive(
        table,
        "complete",
        Target::Flag(FlagField::Complete),
        r"(?:\bthe\W)?\bultimate\b[ .]\bcollection\b",
        plain.repeatable(),
    );
    insensitive(
        table,
        "complete",
        Target::Flag(FlagField::Complete),
        r"\bcollection\b.*\b(?:set|pack|movies)\b",
        plain,
    );
    insensitive(
        table,
        "complete",
        Target::Flag(FlagField::Complete),
        r"\bcollection\b",
        plain.outside_title(),
    );
    insensitive(
        table,
        "complete",
        Target::Flag(FlagField::Complete),
        r"duology|trilogy|quadr[oi]logy|tetralogy|pentalogy|hexalogy|heptalogy|anthology",
        plain.repeatable(),
    );
    insensitive(table, "complete", Target::Flag(FlagField::Complete), r"\bcomplete\b", plain);
    insensitive(
        table,
        "complete",
        Target::Flag(FlagField::Complete),
        r"\bcompleta\b",
        plain.removing(),
    );
    insensitive(
        table,
        "complete",
        Target::Flag(FlagField::Complete),
        r"\bsaga\b",
        plain.outside_title(),
    );
}

/// Seasons.
pub open spec fn season_rules(before: Seq<HandlerView>) -> Seq<HandlerView> {
    let plain = plain_options();
    before
        .push(
            rule_view(
                "seasons"@,
                TargetView::Numbers(NumbersField::Seasons, NumbersTransform::Range),
                r"(?:complete\W|seasons?\W|\W|^)((?:s\d{1,2}[., +/\\&-]+)+s\d{1,2}\b)"@,
                true,
                plain.removing(),
            ),
        )
        .push(
            rule_view(
                "seasons"@,
                TargetView::Numbers(NumbersField::Seasons, NumbersTransform::Range),
                r"(?:complete\W|seasons?\W|\W|^)[([]?(s\d{2,}-\d{2,}\b)[)\]]?"@,
                true,
                plain.removing(),
            ),
        )
        .push(
            rule_view(
                "seasons"@,
                TargetView::Numbers(NumbersField::Seasons, NumbersTransform::Range),
                r"(?:complete\W|seasons?\W|\W|^)[([]?(s[1-9]-[2-9])[)\]]?"@,
                true,
                plain.removing(),
            ),
        )
        .push(
            rule_view(
                "seasons"@,
                TargetView::Numbers(NumbersField::Seasons, NumbersTransform::Range),
                r"\d+(?:.+)?(?:a.?)?\d+(?:(?:.+)?(?:temporadas?))"@,
                true,
                plain.removing(),
            ),
        )
        .push(
            rule_view(
                "seasons"@,
                TargetView::Numbers(NumbersField::Seasons, NumbersTransform::Range),
                r"(?:(?:\bthe\W)?\bcomplete\W)?(?:seasons?|temporadas?)[. ]?[-:]?[. ]?[([]?((?:\d{1,2}[., /\\&]+)+\d{1,2}\b)[)\]]?"@,
                true,
                plain.removing(),
            ),
        )
        .push(
            rule_view(
                "seasons"@,
                TargetView::Numbers(NumbersField::Seasons, NumbersTransform::Range),
                r"(?:(?:\bthe\W)?\bcomplete\W)?(?:seasons?|temporadas?)[. ]?[-:]?[. ]?[([]?((?:\d{1,2}[.-]+)+[1-9]\d?\b)[)\]]?"@,
                true,
                plain.removing(),
            ),
        )
        .push(
            rule_view(
                "seasons"@,
                TargetView::Numbers(NumbersField::Seasons, NumbersTransform::Range),
                r"(?:(?:\bthe\W)?\bcomplete\W)?season[. ]?[([]?((?:\d{1,2}[. -]+)+[1-9]\d?\b)[)\]]?(?!.*\.\w{2,4}$)"@,
                true,
                plain.removing(),
            ),
        )
        .push(
            rule_view(
                "seasons"@,
                TargetView::Numbers(NumbersField::Seasons, NumbersTransform::Range),
                r"(?:(?:\bthe\W)?\bcomplete\W)?\bseasons?\b[. -]?(\d{1,2}[. -]?(?:to|thru|and|\+|:)[. -]?\d{1,2})\b"@,
                true,
                plain.removing(),
            ),
        )
        .push(
            rule_view(
                "seasons"@,
                TargetView::Numbers(NumbersField::Seasons, NumbersTransform::Single),
                r"(?:(?:\bthe\W)?\bcomplete\W)?(?:saison|seizoen|season|series|temp(?:orada)?):?[. ]?(\d{1,2})\b"@,
                true,
                plain,
            ),
        )
        .push(
            rule_view(
                "seasons"@,
                TargetView::Numbers(NumbersField::Seasons, NumbersTransform::Single),
                r"(\d{1,2})-?[. _]?(?:sez(?:on)?)(?:\W?\D|$)"@,
                true,
                plain,
            ),
        )
        .push(
            rule_view(
                "seasons"@,
                TargetView::Numbers(NumbersField::Seasons, NumbersTransform::Single),
                r"(?:\D|^)(\d{1,2})?[a]?[. ]*temporada"@,
                true,
                plain.removing(),
            ),
        )
        .push(
            rule_view(
                "seasons"@,
                TargetView::Numbers(NumbersField::Seasons, NumbersTransform::Single),
                r"t(\d{1,3})(?:[ex]+|$)"@,
                true,
                plain.removing(),
            ),
        )
        .push(
            rule_view(
                "seasons"@,
                TargetView::Numbers(NumbersField::Seasons, NumbersTransform::Single),
                r"(?:(?:\bthe\W)?\bcomplete)?s(\d{1,3})(?:[\Wex]|\d{2}\b|$)"@,
                true,
                plain.repeatable(),
            ),
        )
}

/// Lists the part of the table for: seasons.
#[verifier::rlimit(50)]
fn list_season_rules(table: &mut Vec<Recipe>)
    ensures
        handlers_of(final(table)@) == season_rules(handlers_of(old(table)@)),
{
    let plain = RegexHandlerOptions::default();
    insensitive(
        table,
        "seasons",
        Target::Numbers(NumbersField::Seasons, NumbersTransform::Range),
        r"(?:complete\W|seasons?\W|\W|^)((?:s\d{1,2}[., +/\\&-]+)+s\d{1,2}\b)",
        plain.removing(),
    );
    insensitive(
        table,
        "seasons",
        Target::Numbers(NumbersField::Seasons, NumbersTransform::Range),
        r"(?:complete\W|seasons?\W|\W|^)[([]?(s\d{2,}-\d{2,}\b)[)\]]?",
        plain.removing(),
    );
    insensitive(
        table,
        "seasons",
        Target::Numbers(NumbersField::Seasons, NumbersTransform::Range),
        r"(?:complete\W|seasons?\W|\W|^)[([]?(s[1-9]-[2-9])[)\]]?",
        plain.removing(),
    );
    insensitive(
        table,
        "seasons",
        Target::Numbers(NumbersField::Seasons, NumbersTransform::Range),
        r"\d+(?:.+)?(?:a.?)?\d+(?:(?:.+)?(?:temporadas?))",
        plain.removing(),
    );
    insensitive(
        table,
        "seasons",
        Target::Numbers(NumbersField::Seasons, NumbersTransform::Range),
        r"(?:(?:\bthe\W)?\bcomplete\W)?(?:seasons?|temporadas?)[. ]?[-:]?[. ]?[([]?((?:\d{1,2}[., /\\&]+)+\d{1,2}\b)[)\]]?",
        plain.removing(),
    );
    insensitive(
        table,
        "seasons",
        Target::Numbers(NumbersField::Seasons, NumbersTransform::Range),
        r"(?:(?:\bthe\W)?\bcomplete\W)?(?:seasons?|temporadas?)[. ]?[-:]?[. ]?[([]?((?:\d{1,2}[.-]+)+[1-9]\d?\b)[)\]]?",
        plain.removing(),
    );
    insensitive(
        table,
        "seasons",
        Target::Numbers(NumbersField::Seasons, NumbersTransform::Range),
        r"(?:(?:\bthe\W)?\bcomplete\W)?season[. ]?[([]?((?:\d{1,2}[. -]+)+[1-9]\d?\b)[)\]]?(?!.*\.\w{2,4}$)",
        plain.removing(),
    );
    insensitive(
        table,
        "seasons",
        Target::Numbers(NumbersField::Seasons, NumbersTransform::Range),
        r"(?:(?:\bthe\W)?\bcomplete\W)?\bseasons?\b[. -]?(\d{1,2}[. -]?(?:to|thru|and|\+|:)[. -]?\d{1,2})\b",
        plain.removing(),
    );
    insensitive(
        table,
        "seasons",
        Target::Numbers(NumbersField::Seasons, NumbersTransform::Single),
        r"(?:(?:\bthe\W)?\bcomplete\W)?(?:saison|seizoen|season|series|temp(?:orada)?):?[. ]?(\d{1,2})\b",
        plain,
    );
    insensitive(
        table,
        "seasons",
        Target::Numbers(NumbersField::Seasons, NumbersTransform::Single),
        r"(\d{1,2})-?[. _]?(?:sez(?:on)?)(?:\W?\D|$)",
        plain,
    );
    insensitive(
        table,
        "seasons",
        Target::Numbers(NumbersField::Seasons, NumbersTransform::Single),
        r"(?:\D|^)(\d{1,2})?[a]?[. ]*temporada",
        plain.removing(),
    );
    insensitive(
        table,
        "seasons",
        Target::Numbers(NumbersField::Seasons, NumbersTransform::Single),
        r"t(\d{1,3})(?:[ex]+|$)",
        plain.removing(),
    );
    insensitive(
        table,
        "seasons",
        Target::Numbers(NumbersField::Seasons, NumbersTransform::Single),
        r"(?:(?:\bthe\W)?\bcomplete)?s(\d{1,3})(?:[\Wex]|\d{2}\b|$)",
        plain.repeatable(),
    );
}

/// Seasons, continued.
pub open spec fn more_season_rules(before: Seq<HandlerView>) -> Seq<HandlerView> {
    let plain = plain_options();
    before
        .push(
            rule_view(
                "seasons"@,
                TargetView::Numbers(NumbersField::Seasons, NumbersTransform::Single),
                r"(?:(?:\bthe\W)?\bcomplete\W)?(?:\W|^)(\d{1,2})[. ]?(?:st|nd|rd|th)[. ]*season"@,
                true,
                plain,
            ),
        )
        .push(
            rule_view(
                "seasons"@,
                TargetView::Numbers(NumbersField::Seasons, NumbersTransform::Single),
                r"(?<=S)\d{2}(?=E\d+)"@,
                true,
                plain,
            ),
        )
        .push(
            rule_view(
                "seasons"@,
                TargetView::Numbers(NumbersField::Seasons, NumbersTransform::Single),
                r"(?:\D|^)(\d{1,2})[x]\d{1,3}(?:\D|$)"@,
                true,
                plain,
            ),
        )
        .push(
            rule_view(
                "seasons"@,
                TargetView::Numbers(NumbersField::Seasons, NumbersTransform::Single),
                r"\bSn([1-9])(?:\D|$)"@,
                true,
                plain,
            ),
        )
        .push(
            rule_view(
                "seasons"@,
                TargetView::Numbers(NumbersField::Seasons, NumbersTransform::Single),
                r"[[(](\d{1,2})\.\d{1,3}[)\]]"@,
                true,
                plain,
            ),
        )
        .push(
            rule_view(
                "seasons"@,
                TargetView::Numbers(NumbersField::Seasons, NumbersTransform::Single),
                r"-\s?(\d{1,2})\.\d{2,3}\s?-"@,
                true,
                plain,
            ),
        )
        .push(
            rule_view(
                "seasons"@,
                TargetView::Numbers(NumbersField::Seasons, NumbersTransform::Single),
                r"(?:^|\/)(\d{1,2})-\d{2}\b(?!-\d)"@,
                true,
                plain,
            ),
        )
        .push(
            rule_view(
                "seasons"@,
                TargetView::Numbers(NumbersField::Seasons, NumbersTransform::Single),
                r"[^\w-](\d{1,2})-\d{2}(?=\.\w{2,4}$)"@,
                true,
                plain,
            ),
        )
        .push(
            rule_view(
                "seasons"@,
                TargetView::Numbers(NumbersField::Seasons, NumbersTransform::Single),
                r"(?<!\bEp?(?:isode)? ?\d+\b.*)\b(\d{2})[ ._]\d{2}(?:.F)?\.\w{2,4}$"@,
                true,
                plain,
            ),
        )
        .push(
            rule_view(
                "seasons"@,
                TargetView::Numbers(NumbersField::Seasons, NumbersTransform::Single),
                r"\bEp(?:isode)?\W+(\d{1,2})\.\d{1,3}\b"@,
                true,
                plain,
            ),
        )
        .push(
            rule_view(
                "seasons"@,
                TargetView::Numbers(NumbersField::Seasons, NumbersTransform::Range),
                r"\bSeasons?\b.*\b(\d{1,2}-\d{1,2})\b"@,
                true,
                plain,
            ),
        )
        .push(
            rule_view(
                "seasons"@,
                TargetView::Numbers(NumbersField::Seasons, NumbersTransform::Single),
                r"(?:\W|^)(\d{1,2})(?:e|ep)\d{1,3}(?:\W|$)"@,
                true,
                plain,
            ),
        )
}

/// Lists the part of the table for: seasons, continued.
#[verifier::rlimit(50)]
fn list_more_season_rules(table: &mut Vec<Recipe>)
    ensures
        handlers_of(final(table)@) == more_season_rules(handlers_of(old(table)@)),
{
    let plain = RegexHandlerOptions::default();
    insensitive(
        table,
        "seasons",
        Target::Numbers(NumbersField::Seasons, NumbersTransform::Single),
        r"(?:(?:\bthe\W)?\bcomplete\W)?(?:\W|^)(\d{1,2})[. ]?(?:st|nd|rd|th)[. ]*season",
        plain,
    );
    insensitive(
        table,
        "seasons",
        Target::Numbers(NumbersField::Seasons, NumbersTransform::Single),
        r"(?<=S)\d{2}(?=E\d+)",
        plain,
    );
    insensitive(
        table,
        "seasons",
        Target::Numbers(NumbersField::Seasons, NumbersTransform::Single),
        r"(?:\D|^)(\d{1,2})[x]\d{1,3}(?:\D|$)",
        plain,
    );
    insensitive(
        table,
        "seasons",
        Target::Numbers(NumbersField::Seasons, NumbersTransform::Single),
        r"\bSn([1-9])(?:\D|$)",
        plain,
    );
    insensitive(
        table,
        "seasons",
        Target::Numbers(NumbersField::Seasons, NumbersTransform::Single),
        r"[[(](\d{1,2})\.\d{1,3}[)\]]",
        plain,
    );
    insensitive(
        table,
        "seasons",
        Target::Numbers(NumbersField::Seasons, NumbersTransform::Single),
        r"-\s?(\d{1,2})\.\d{2,3}\s?-",
        plain,
    );
    insensitive(
        table,
        "seasons",
        Target::Numbers(NumbersField::Seasons, NumbersTransform::Single),
        r"(?:^|\/)(\d{1,2})-\d{2}\b(?!-\d)",
        plain,
    );
    insensitive(
        table,
        "seasons",
        Target::Numbers(NumbersField::Seasons, NumbersTransform::Single),
        r"[^\w-](\d{1,2})-\d{2}(?=\.\w{2,4}$)",
        plain,
    );
    insensitive(
        table,
        "seasons",
        Target::Numbers(NumbersField::Seasons, NumbersTransform::Single),
        r"(?<!\bEp?(?:isode)? ?\d+\b.*)\b(\d{2})[ ._]\d{2}(?:.F)?\.\w{2,4}$",
        plain,
    );
    insensitive(
        table,
        "seasons",
        Target::Numbers(NumbersField::Seasons, NumbersTransform::Single),
        r"\bEp(?:isode)?\W+(\d{1,2})\.\d{1,3}\b",
        plain,
    );
    insensitive(
        table,
        "seasons",
        Target::Numbers(NumbersField::Seasons, NumbersTransform::Range),
        r"\bSeasons?\b.*\b(\d{1,2}-\d{1,2})\b",
        plain,
    );
    insensitive(
        table,
        "seasons",
        Target::Numbers(NumbersField::Seasons, NumbersTransform::Single),
        r"(?:\W|^)(\d{1,2})(?:e|ep)\d{1,3}(?:\W|$)",
        plain,
    );
}

/// Episodes.
pub open spec fn episode_rules(before: Seq<HandlerView>) -> Seq<HandlerView> {
    let plain = plain_options();
    before
        .push(
            rule_view(
                "episodes"@,
                TargetView::Numbers(NumbersField::Episodes, NumbersTransform::Range),
                r"(?:[\W\d]|^)e[ .]?[([]?(\d{1,3}(?:[ .-]*(?:[&+]|e){1,2}[ .]?\d{1,3})+)(?:\W|$)"@,
                true,
                plain,
            ),
        )
        .push(
            rule_view(
                "episodes"@,
                TargetView::Numbers(NumbersField::Episodes, NumbersTransform::Range),
                r"(?:[\W\d]|^)ep[ .]?[([]?(\d{1,3}(?:[ .-]*(?:[&+]|ep){1,2}[ .]?\d{1,3})+)(?:\W|$)"@,
                true,
                plain,
            ),
        )
        .push(
            rule_view(
                "episodes"@,
                TargetView::Numbers(NumbersField::Episodes, NumbersTransform::Range),
                r"(?:[\W\d]|^)\d+[x][ .]?[([]?(\d{1,3}(?:[ .]?[x][ .]?\d{1,3})+)(?:\W|$)"@,
                true,
                plain,
            ),
        )
        .push(
            rule_view(
                "episodes"@,
                TargetView::Numbers(NumbersField::Episodes, NumbersTransform::Range),
                r"(?:[\W\d]|^)episodes?[ .]?[([]?(\d{1,3}(?:[ .+]*[&+][ .]?\d{1,3})+)(?:\W|$)"@,
                true,
                plain,
            ),
        )
        .push(
            rule_view(
                "episodes"@,
                TargetView::Numbers(NumbersField::Episodes, NumbersTransform::Range),
                r"[([]?(?:\D|^)(\d{1,3}[ .]?ao[ .]?\d{1,3})[)\]]?(?:\W|$)"@,
                true,
                plain,
            ),
        )
        .push(
            rule_view(
                "episodes"@,
                TargetView::Numbers(NumbersField::Episodes, NumbersTransform::Range),
                r"(?:[\W\d]|^)(?:e|eps?|episodes?|\d+[x])[ .]*[([]?(\d{1,3}(?:-\d{1,3})+)(?:\W|$)"@,
                true,
                plain,
            ),
        )
        .push(
            rule_view(
                "episodes"@,
                TargetView::Numbers(NumbersField::Episodes, NumbersTransform::Single),
                r"[st]\d{1,2}[. ]?[x-]?[. ]?(?:e|x|ep|-|\.)[. ]?(\d{1,4})(?:[abc]|v0?[1-4]|\D|$)"@,
                true,
                plain.removing(),
            ),
        )
        .push(
            rule_view(
                "episodes"@,
                TargetView::Numbers(NumbersField::Episodes, NumbersTransform::Single),
                r"\b[st]\d{2}(\d{2})\b"@,
                true,
                plain,
            ),
        )
        .push(
            rule_view(
                "episodes"@,
                TargetView::Numbers(NumbersField::Episodes, NumbersTransform::Range),
                r"(?:\W|^)(\d{1,3}(?:[ .]*~[ .]*\d{1,3})+)(?:\W|$)"@,
                true,
                plain,
            ),
        )
        .push(
            rule_view(
                "episodes"@,
                TargetView::Numbers(NumbersField::Episodes, NumbersTransform::Range),
                r"-\s(\d{1,3}[ .]*-[ .]*\d{1,3})(?!-\d)(?:\W|$)"@,
                true,
                plain,
            ),
        )
        .push(
            rule_view(
                "episodes"@,
                TargetView::Numbers(NumbersField::Episodes, NumbersTransform::Range),
                r"s\d{1,2}\s?\((\d{1,3}[ .]*-[ .]*\d{1,3})\)"@,
                true,
                plain,
            ),
        )
        .push(
            rule_view(
                "episodes"@,
                TargetView::Numbers(NumbersField::Episodes, NumbersTransform::Single),
                r"(?:^|\/)\d{1,2}-(\d{2})\b(?!-\d)"@,
                false,
                plain,
            ),
        )
        .push(
            rule_view(
                "episodes"@,
                TargetView::Numbers(NumbersField::Episodes, NumbersTransform::Single),
                r"(?<!\d-)\b\d{1,2}-(\d{2})(?=\.\w{2,4}$)"@,
                false,
                plain,
            ),
        )
        .push(
            rule_view(
                "episodes"@,
                TargetView::Numbers(NumbersField::Episodes, NumbersTransform::Single),
                r"(?<=^\[.+].+)[. ]+-[. ]+(\d{1,4})[. ]+(?=\W)"@,
                true,
                plain,
            ),
        )
        .push(
            rule_view(
                "episodes"@,
                TargetView::Numbers(NumbersField::Episodes, NumbersTransform::Range),
                r"(?<!seasons?\W*)(?:[ .([-]|^)(\d{1,3}(?:[ .]?[,&+~][ .]?\d{1,3})+)(?:[ .)\]-]|$)"@,
                true,
                plain,
            ),
        )
        .push(
            rule_view(
                "episodes"@,
                TargetView::Numbers(NumbersField::Episodes, NumbersTransform::Range),
                r"(?<!seasons?\W*)(?:[ .([-]|^)(\d{1,3}(?:-\d{1,3})+)(?:[ .)(\]]|-\D|$)"@,
                true,
                plain,
            ),
        )
}

/// Lists the part of the table for: episodes.
#[verifier::rlimit(50)]
fn list_episode_rules(table: &mut Vec<Recipe>)
    ensures
        handlers_of(final(table)@) == episode_rules(handlers_of(old(table)@)),
{
    let plain = RegexHandlerOptions::default();
    insensitive(
        table,
        "episodes",
        Target::Numbers(NumbersField::Episodes, NumbersTransform::Range),
        r"(?:[\W\d]|^)e[ .]?[([]?(\d{1,3}(?:[ .-]*(?:[&+]|e){1,2}[ .]?\d{1,3})+)(?:\W|$)",
        plain,
    );
    insensitive(
        table,
        "episodes",
        Target::Numbers(NumbersField::Episodes, NumbersTransform::Range),
        r"(?:[\W\d]|^)ep[ .]?[([]?(\d{1,3}(?:[ .-]*(?:[&+]|ep){1,2}[ .]?\d{1,3})+)(?:\W|$)",
        plain,
    );
    insensitive(
        table,
        "episodes",
        Target::Numbers(NumbersField::Episodes, NumbersTransform::Range),
        r"(?:[\W\d]|^)\d+[x][ .]?[([]?(\d{1,3}(?:[ .]?[x][ .]?\d{1,3})+)(?:\W|$)",
        plain,
    );
    insensitive(
        table,
        "episodes",
        Target::Numbers(NumbersField::Episodes, NumbersTransform::Range),
        r"(?:[\W\d]|^)episodes?[ .]?[([]?(\d{1,3}(?:[ .+]*[&+][ .]?\d{1,3})+)(?:\W|$)",
        plain,
    );
    insensitive(
        table,
        "episodes",
        Target::Numbers(NumbersField::Episodes, NumbersTransform::Range),
        r"[([]?(?:\D|^)(\d{1,3}[ .]?ao[ .]?\d{1,3})[)\]]?(?:\W|$)",
        plain,
    );
    insensitive(
        table,
        "episodes",
        Target::Numbers(NumbersField::Episodes, NumbersTransform::Range),
        r"(?:[\W\d]|^)(?:e|eps?|episodes?|\d+[x])[ .]*[([]?(\d{1,3}(?:-\d{1,3})+)(?:\W|$)",
        plain,
    );
    insensitive(
        table,
        "episodes",
        Target::Numbers(NumbersField::Episodes, NumbersTransform::Single),
        r"[st]\d{1,2}[. ]?[x-]?[. ]?(?:e|x|ep|-|\.)[. ]?(\d{1,4})(?:[abc]|v0?[1-4]|\D|$)",
        plain.removing(),
    );
    insensitive(
        table,
        "episodes",
        Target::Numbers(NumbersField::Episodes, NumbersTransform::Single),
        r"\b[st]\d{2}(\d{2})\b",
        plain,
    );
    insensitive(
        table,
        "episodes",
        Target::Numbers(NumbersField::Episodes, NumbersTransform::Range),
        r"(?:\W|^)(\d{1,3}(?:[ .]*~[ .]*\d{1,3})+)(?:\W|$)",
        plain,
    );
    insensitive(
        table,
        "episodes",
        Target::Numbers(NumbersField::Episodes, NumbersTransform::Range),
        r"-\s(\d{1,3}[ .]*-[ .]*\d{1,3})(?!-\d)(?:\W|$)",
        plain,
    );
    insensitive(
        table,
        "episodes",
        Target::Numbers(NumbersField::Episodes, NumbersTransform::Range),
        r"s\d{1,2}\s?\((\d{1,3}[ .]*-[ .]*\d{1,3})\)",
        plain,
    );
    sensitive(
        table,
        "episodes",
        Target::Numbers(NumbersField::Episodes, NumbersTransform::Single),
        r"(?:^|\/)\d{1,2}-(\d{2})\b(?!-\d)",
        plain,
    );
    sensitive(
        table,
        "episodes",
        Target::Numbers(NumbersField::Episodes, NumbersTransform::Single),
        r"(?<!\d-)\b\d{1,2}-(\d{2})(?=\.\w{2,4}$)",
        plain,
    );
    insensitive(
        table,
        "episodes",
        Target::Numbers(NumbersField::Episodes, NumbersTransform::Single),
        r"(?<=^\[.+].+)[. ]+-[. ]+(\d{1,4})[. ]+(?=\W)",
        plain,
    );
    insensitive(
        table,
        "episodes",
        Target::Numbers(NumbersField::Episodes, NumbersTransform::Range),
        r"(?<!seasons?\W*)(?:[ .([-]|^)(\d{1,3}(?:[ .]?[,&+~][ .]?\d{1,3})+)(?:[ .)\]-]|$)",
        plain,
    );
    insensitive(
        table,
        "episodes",
        Target::Numbers(NumbersField::Episodes, NumbersTransform::Range),
        r"(?<!seasons?\W*)(?:[ .([-]|^)(\d{1,3}(?:-\d{1,3})+)(?:[ .)(\]]|-\D|$)",
        plain,
    );
}

/// Episodes, continued.
pub open spec fn more_episode_rules(before: Seq<HandlerView>) -> Seq<HandlerView> {
    let plain = plain_options();
    before
        .push(
            rule_view(
                "episodes"@,
                TargetView::Numbers(NumbersField::Episodes, NumbersTransform::Single),
                r"\bEp(?:isode)?\W+\d{1,2}\.(\d{1,3})\b"@,
                true,
                plain,
            ),
        )
        .push(
            rule_view(
                "episodes"@,
                TargetView::Numbers(NumbersField::Episodes, NumbersTransform::Single),
                r"(?:\b[e]p?(?:isode)?|cap(?:itulo)?|epis[o]dio)[. ]?[-:#]?[. ]?(\d{1,4})(?:[abc]|v0?[1-4]|\W|$)"@,
                true,
                plain,
            ),
        )
        .push(
            rule_view(
                "episodes"@,
                TargetView::Numbers(NumbersField::Episodes, NumbersTransform::Single),
                r"\b(\d{1,3})-?[ ._-]*ser(?:i?[iyj]a|\b)"@,
                true,
                plain,
            ),
        )
        .push(
            rule_view(
                "episodes"@,
                TargetView::Numbers(NumbersField::Episodes, NumbersTransform::Single),
                r"(?:\D|^)\d{1,2}[. ]?[x][. ]?(\d{1,3})(?:[abc]|v0?[1-4]|\D|$)"@,
                true,
                plain,
            ),
        )
        .push(
            rule_view(
                "episodes"@,
                TargetView::Numbers(NumbersField::Episodes, NumbersTransform::Single),
                r"(?<=S\d{2}E)\d+"@,
                true,
                plain,
            ),
        )
        .push(
            rule_view(
                "episodes"@,
                TargetView::Numbers(NumbersField::Episodes, NumbersTransform::Single),
                r"[[(]\d{1,2}\.(\d{1,3})[)\]]"@,
                false,
                plain,
            ),
        )
        .push(
            rule_view(
                "episodes"@,
                TargetView::Numbers(NumbersField::Episodes, NumbersTransform::Single),
                r"\b[Ss]\d{1,2}[ .](\d{1,2})\b"@,
                false,
                plain,
            ),
        )
        .push(
            rule_view(
                "episodes"@,
                TargetView::Numbers(NumbersField::Episodes, NumbersTransform::Single),
                r"-\s?\d{1,2}\.(\d{2,3})\s?-"@,
                false,
                plain,
            ),
        )
        .push(
            rule_view(
                "episodes"@,
                TargetView::Numbers(NumbersField::Episodes, NumbersTransform::Single),
                r"(?<=\D|^)(\d{1,3})[. ]?(?:of|iz)[. ]?\d{1,3}(?=\D|$)"@,
                true,
                plain,
            ),
        )
        .push(
            rule_view(
                "episodes"@,
                TargetView::Numbers(NumbersField::Episodes, NumbersTransform::Single),
                r"\b\d{2}[ ._-](\d{2})(?:.F)?\.\w{2,4}$"@,
                false,
                plain,
            ),
        )
        .push(
            rule_view(
                "episodes"@,
                TargetView::Numbers(NumbersField::Episodes, NumbersTransform::Single),
                r"(?<!^)\[(\d{2,3})](?!(?:\.\w{2,4})?$)"@,
                false,
                plain,
            ),
        )
        .push(
            rule_view(
                "episodes"@,
                TargetView::Numbers(NumbersField::Episodes, NumbersTransform::Single),
                r"(\d+)(?=.?\[([A-Z0-9]{8})])"@,
                true,
                plain,
            ),
        )
        .push(
            rule_view(
                "episodes"@,
                TargetView::Numbers(NumbersField::Episodes, NumbersTransform::Single),
                r"(?<![xh])\b264\b|\b265\b"@,
                true,
                plain.removing(),
            ),
        )
        .push(
            rule_view(
                "episodes"@,
                TargetView::Numbers(NumbersField::Episodes, NumbersTransform::Single),
                r"(?<!\bMovie\s-\s)(?<=\s-\s)\d+(?=\s[-(\s])"@,
                true,
                plain.removing(),
            ),
        )
        .push(
            rule_view(
                "episodes"@,
                TargetView::Numbers(NumbersField::Episodes, NumbersTransform::Single),
                r"(?:\W|^)(?:\d+)?(?:e|ep)(\d{1,3})(?:\W|$)"@,
                true,
                plain,
            ),
        )
        .push(
            handler_view(
                "episodes"@,
                ActionView::EpisodeFallback(
                    pattern(
                        r"(?<!movie\W*|film\W*|^)(?:[ .]+-[ .]+|[([][ .]*)(\d{1,4})(?:a|b|v\d|\.\d)?(?:\W|$)(?!movie|film|\d+)"@,
                        true,
                    ),
                    pattern(r"^(?:[\[\(-][ .]?)?(\d{1,4})(?:a|b|v\d)?(?:\W|$)(?!movie|film)"@, true),
                ),
            ),
        )
}

/// Lists the part of the table for: episodes, continued.
#[verifier::rlimit(50)]
fn list_more_episode_rules(table: &mut Vec<Recipe>)
    ensures
        handlers_of(final(table)@) == more_episode_rules(handlers_of(old(table)@)),
{
    let plain = RegexHandlerOptions::default();
    insensitive(
        table,
        "episodes",
        Target::Numbers(NumbersField::Episodes, NumbersTransform::Single),
        r"\bEp(?:isode)?\W+\d{1,2}\.(\d{1,3})\b",
        plain,
    );
    insensitive(
        table,
        "episodes",
        Target::Numbers(NumbersField::Episodes, NumbersTransform::Single),
        r"(?:\b[e]p?(?:isode)?|cap(?:itulo)?|epis[o]dio)[. ]?[-:#]?[. ]?(\d{1,4})(?:[abc]|v0?[1-4]|\W|$)",
        plain,
    );
    insensitive(
        table,
        "episodes",
        Target::Numbers(NumbersField::Episodes, NumbersTransform::Single),
        r"\b(\d{1,3})-?[ ._-]*ser(?:i?[iyj]a|\b)",
        plain,
    );
    insensitive(
        table,
        "episodes",
        Target::Numbers(NumbersField::Episodes, NumbersTransform::Single),
        r"(?:\D|^)\d{1,2}[. ]?[x][. ]?(\d{1,3})(?:[abc]|v0?[1-4]|\D|$)",
        plain,
    );
    insensitive(
        table,
        "episodes",
        Target::Numbers(NumbersField::Episodes, NumbersTransform::Single),
        r"(?<=S\d{2}E)\d+",
        plain,
    );
    sensitive(
        table,
        "episodes",
        Target::Numbers(NumbersField::Episodes, NumbersTransform::Single),
        r"[[(]\d{1,2}\.(\d{1,3})[)\]]",
        plain,
    );
    sensitive(
        table,
        "episodes",
        Target::Numbers(NumbersField::Episodes, NumbersTransform::Single),
        r"\b[Ss]\d{1,2}[ .](\d{1,2})\b",
        plain,
    );
    sensitive(
        table,
        "episodes",
        Target::Numbers(NumbersField::Episodes, NumbersTransform::Single),
        r"-\s?\d{1,2}\.(\d{2,3})\s?-",
        plain,
    );
    insensitive(
        table,
        "episodes",
        Target::Numbers(NumbersField::Episodes, NumbersTransform::Single),
        r"(?<=\D|^)(\d{1,3})[. ]?(?:of|iz)[. ]?\d{1,3}(?=\D|$)",
        plain,
    );
    sensitive(
        table,
        "episodes",
        Target::Numbers(NumbersField::Episodes, NumbersTransform::Single),
        r"\b\d{2}[ ._-](\d{2})(?:.F)?\.\w{2,4}$",
        plain,
    );
    sensitive(
        table,
        "episodes",
        Target::Numbers(NumbersField::Episodes, NumbersTransform::Single),
        r"(?<!^)\[(\d{2,3})](?!(?:\.\w{2,4})?$)",
        plain,
    );
    insensitive(
        table,
        "episodes",
        Target::Numbers(NumbersField::Episodes, NumbersTransform::Single),
        r"(\d+)(?=.?\[([A-Z0-9]{8})])",
        plain,
    );
    insensitive(
        table,
        "episodes",
        Target::Numbers(NumbersField::Episodes, NumbersTransform::Single),
        r"(?<![xh])\b264\b|\b265\b",
        plain.removing(),
    );
    insensitive(
        table,
        "episodes",
        Target::Numbers(NumbersField::Episodes, NumbersTransform::Single),
        r"(?<!\bMovie\s-\s)(?<=\s-\s)\d+(?=\s[-(\s])",
        plain.removing(),
    );
    insensitive(
        table,
        "episodes",
        Target::Numbers(NumbersField::Episodes, NumbersTransform::Single),
        r"(?:\W|^)(?:\d+)?(?:e|ep)(\d{1,3})(?:\W|$)",
        plain,
    );
    list(
        table,
        "episodes",
        Plan::EpisodeFallback(
            r"(?<!movie\W*|film\W*|^)(?:[ .]+-[ .]+|[([][ .]*)(\d{1,4})(?:a|b|v\d|\.\d)?(?:\W|$)(?!movie|film|\d+)".to_owned(),
            r"^(?:[\[\(-][ .]?)?(\d{1,4})(?:a|b|v\d)?(?:\W|$)(?!movie|film)".to_owned(),
            true,
        ),
    );
}

/// Languages, by name and by code.
pub open spec fn language_rules(before: Seq<HandlerView>) -> Seq<HandlerView> {
    let plain = plain_options();
    before
        .push(
            rule_view(
                "languages"@,
                TargetView::Language(Language::English),
                r"\bengl?(?:sub[A-Z]*)?\b"@,
                true,
                plain.repeatable(),
            ),
        )
        .push(
            rule_view(
                "languages"@,
                TargetView::Language(Language::English),
                r"\beng?sub[A-Z]*\b"@,
                true,
                plain.repeatable(),
            ),
        )
        .push(
            rule_view(
                "languages"@,
                TargetView::Language(Language::English),
                r"\bing(?:l[e]s)?\b"@,
                true,
                plain.repeatable(),
            ),
        )
        .push(
            rule_view(
                "languages"@,
                TargetView::Language(Language::English),
                r"\besub\b"@,
                true,
                plain.removing().repeatable(),
            ),
        )
        .push(
            rule_view(
                "languages"@,
                TargetView::Language(Language::English),
                r"\benglish\W+(?:subs?|sdh|hi)\b"@,
                true,
                plain.repeatable(),
            ),
        )
        .push(
            rule_view(
                "languages"@,
                TargetView::Language(Language::English),
                r"\beng?\b"@,
                true,
                plain.outside_title().repeatable(),
            ),
        )
        .push(
            rule_view(
                "languages"@,
                TargetView::Language(Language::English),
                r"\benglish?\b"@,
                true,
                plain.only_first().repeatable(),
            ),
        )
        .push(
            rule_view(
                "languages"@,
                TargetView::Language(Language::Japanese),
                r"\b(?:JP|JAP|JPN)\b"@,
                true,
                plain.repeatable(),
            ),
        )
        .push(
            rule_view(
                "languages"@,
                TargetView::Language(Language::Japanese),
                r"\b(japanese|japon[e]s)\b"@,
                true,
                plain.only_first().repeatable(),
            ),
        )
        .push(
            rule_view(
                "languages"@,
                TargetView::Language(Language::Korean),
                r"\b(?:KOR|kor[ .-]?sub)\b"@,
                true,
                plain.repeatable(),
            ),
        )
        .push(
            rule_view(
                "languages"@,
                TargetView::Language(Language::Korean),
                r"\b(korean|coreano)\b"@,
                true,
                plain.only_first().repeatable(),
            ),
        )
        .push(
            rule_view(
                "languages"@,
                TargetView::Language(Language::Chinese),
                r"\b(?:traditional\W*chinese|chinese\W*traditional)(?:\Wchi)?\b"@,
                true,
                plain.removing().repeatable(),
            ),
        )
        .push(
            rule_view(
                "languages"@,
                TargetView::Language(Language::Chinese),
                r"\bzh-hant\b"@,
                true,
                plain.repeatable(),
            ),
        )
        .push(
            rule_view(
                "languages"@,
                TargetView::Language(Language::Chinese),
                r"\b(?:mand[ae]rin|ch[sn])\b"@,
                true,
                plain.repeatable(),
            ),
        )
        .push(
            rule_view(
                "languages"@,
                TargetView::Language(Language::Chinese),
                r"(?<!shang-?)\bCH(?:I|T)\b"@,
                true,
                plain.outside_title().repeatable(),
            ),
        )
        .push(
            rule_view(
                "languages"@,
                TargetView::Language(Language::Chinese),
                r"\b(chinese|chin[e]s)\b"@,
                true,
                plain.only_first().repeatable(),
            ),
        )
        .push(
            rule_view(
                "languages"@,
                TargetView::Language(Language::Chinese),
                r"\bzh-hans\b"@,
                true,
                plain.repeatable(),
            ),
        )
        .push(
            rule_view(
                "languages"@,
                TargetView::Language(Language::French),
                r"\bFR(?:ench|a|e|anc[e]s)?\b"@,
                true,
                plain.repeatable(),
            ),
        )
        .push(
            rule_view(
                "subbed"@,
                TargetView::Flag(FlagField::Subbed),
                r"\bVOST(?:FR?|A)?\b"@,
                true,
                plain,
            ),
        )
}

/// Lists the part of the table for: languages, by name and by code.
#[verifier::rlimit(50)]
fn list_language_rules(table: &mut Vec<Recipe>)
    ensures
        handlers_of(final(table)@) == language_rules(handlers_of(old(table)@)),
{
    let plain = RegexHandlerOptions::default();
    insensitive(
        table,
        "languages",
        Target::Language(Language::English),
        r"\bengl?(?:sub[A-Z]*)?\b",
        plain.repeatable(),
    );
    insensitive(
        table,
        "languages",
        Target::Language(Language::English),
        r"\beng?sub[A-Z]*\b",
        plain.repeatable(),
    );
    insensitive(
        table,
        "languages",
        Target::Language(Language::English),
        r"\bing(?:l[e]s)?\b",
        plain.repeatable(),
    );
    insensitive(
        table,
        "languages",
        Target::Language(Language::English),
        r"\besub\b",
        plain.removing().repeatable(),
    );
    insensitive(
        table,
        "languages",
        Target::Language(Language::English),
        r"\benglish\W+(?:subs?|sdh|hi)\b",
        plain.repeatable(),
    );
    insensitive(
        table,
        "languages",
        Target::Language(Language::English),
        r"\beng?\b",
        plain.outside_title().repeatable(),
    );
    insensitive(
        table,
        "languages",
        Target::Language(Language::English),
        r"\benglish?\b",
        plain.only_first().repeatable(),
    );
    insensitive(
        table,
        "languages",
        Target::Language(Language::Japanese),
        r"\b(?:JP|JAP|JPN)\b",
        plain.repeatable(),
    );
    insensitive(
        table,
        "languages",
        Target::Language(Language::Japanese),
        r"\b(japanese|japon[e]s)\b",
        plain.only_first().repeatable(),
    );
    insensitive(
        table,
        "languages",
        Target::Language(Language::Korean),
        r"\b(?:KOR|kor[ .-]?sub)\b",
        plain.repeatable(),
    );
    insensitive(
        table,
        "languages",
        Target::Language(Language::Korean),
        r"\b(korean|coreano)\b",
        plain.only_first().repeatable(),
    );
    insensitive(
        table,
        "languages",
        Target::Language(Language::Chinese),
        r"\b(?:traditional\W*chinese|chinese\W*traditional)(?:\Wchi)?\b",
        plain.removing().repeatable(),
    );
    insensitive(
        table,
        "languages",
        Target::Language(Language::Chinese),
        r"\bzh-hant\b",
        plain.repeatable(),
    );
    insensitive(
        table,
        "languages",
        Target::Language(Language::Chinese),
        r"\b(?:mand[ae]rin|ch[sn])\b",
        plain.repeatable(),
    );
    insensitive(
        table,
        "languages",
        Target::Language(Language::Chinese),
        r"(?<!shang-?)\bCH(?:I|T)\b",
        plain.outside_title().repeatable(),
    );
    insensitive(
        table,
        "languages",
        Target::Language(Language::Chinese),
        r"\b(chinese|chin[e]s)\b",
        plain.only_first().repeatable(),
    );
    insensitive(
        table,
        "languages",
        Target::Language(Language::Chinese),
        r"\bzh-hans\b",
        plain.repeatable(),
    );
    insensitive(
        table,
        "languages",
        Target::Language(Language::French),
        r"\bFR(?:ench|a|e|anc[e]s)?\b",
        plain.repeatable(),
    );
    insensitive(table, "subbed", Target::Flag(FlagField::Subbed), r"\bVOST(?:FR?|A)?\b", plain);
}

/// Languages, continued.
pub open spec fn second_language_rules(before: Seq<HandlerView>) -> Seq<HandlerView> {
    let plain = plain_options();
    before
        .push(
            rule_view(
                "languages"@,
                TargetView::Language(Language::French),
                r"\b(VOST(?:FR?|A)?)\b"@,
                true,
                plain.repeatable(),
            ),
        )
        .push(
            rule_view(
                "languages"@,
                TargetView::Language(Language::French),
                r"\b(VF[FQIB2]?|(TRUE|SUB)?.?FRENCH|(VOST)?FR2?)\b"@,
                true,
                plain.removing().repeatable(),
            ),
        )
        .push(
            rule_view(
                "languages"@,
                TargetView::Language(Language::LatinAmericanSpanish),
                r"\bspanish\W?latin|american\W*(?:spa|esp?)"@,
                true,
                plain.removing().outside_title().repeatable(),
            ),
        )
        .push(
            rule_view(
                "languages"@,
                TargetView::Language(Language::Spanish),
                r"\b(?:\bla\b.+(?:cia\b))"@,
                true,
                plain.outside_title().repeatable(),
            ),
        )
        .push(
            rule_view(
                "languages"@,
                TargetView::Language(Language::LatinAmericanSpanish),
                r"\b(?:audio.)?lat(?:in?|ino)?\b"@,
                true,
                plain.repeatable(),
            ),
        )
        .push(
            rule_view(
                "languages"@,
                TargetView::Language(Language::Spanish),
                r"\b(?:audio.)?(?:ESP?|spa|(en[ .]+)?espa[n]ola?|castellano)\b"@,
                true,
                plain.repeatable(),
            ),
        )
        .push(
            rule_view(
                "languages"@,
                TargetView::Language(Language::Spanish),
                r"\bes(?=[ .,/-]+(?:[A-Z]{2}[ .,/-]+){2,})\b"@,
                true,
                plain.outside_title().repeatable(),
            ),
        )
        .push(
            rule_view(
                "languages"@,
                TargetView::Language(Language::Spanish),
                r"\b(?<=[ .,/-]+(?:[A-Z]{2}[ .,/-]+){2,})es\b"@,
                true,
                plain.outside_title().repeatable(),
            ),
        )
        .push(
            rule_view(
                "languages"@,
                TargetView::Language(Language::Spanish),
                r"\b(?<=[ .,/-]+[A-Z]{2}[ .,/-]+)es(?=[ .,/-]+[A-Z]{2}[ .,/-]+)\b"@,
                true,
                plain.outside_title().repeatable(),
            ),
        )
        .push(
            rule_view(
                "languages"@,
                TargetView::Language(Language::Spanish),
                r"\bes(?=\.(?:ass|ssa|srt|sub|idx)$)"@,
                true,
                plain.outside_title().repeatable(),
            ),
        )
        .push(
            rule_view(
                "languages"@,
                TargetView::Language(Language::Spanish),
                r"\bspanish\W+subs?\b"@,
                true,
                plain.repeatable(),
            ),
        )
        .push(
            rule_view(
                "languages"@,
                TargetView::Language(Language::Spanish),
                r"\b(spanish|espanhol)\b"@,
                true,
                plain.only_first().repeatable(),
            ),
        )
        .push(
            rule_view(
                "languages"@,
                TargetView::Language(Language::Portuguese),
                r"\b(?:p[rt]|en|port)[. (\\/-]*BR\b"@,
                true,
                plain.removing().repeatable(),
            ),
        )
        .push(
            rule_view(
                "languages"@,
                TargetView::Language(Language::Portuguese),
                r"\bbr(?:a|azil|azilian)\W+(?:pt|por)\b"@,
                true,
                plain.removing().repeatable(),
            ),
        )
        .push(
            rule_view(
                "languages"@,
                TargetView::Language(Language::Portuguese),
                r"\b(?:leg(?:endado|endas?)?|dub(?:lado)?|portugu[e]se?)[. -]*BR\b"@,
                true,
                plain.repeatable(),
            ),
        )
        .push(
            rule_view(
                "languages"@,
                TargetView::Language(Language::Portuguese),
                r"\bleg(?:endado|endas?)\b"@,
                true,
                plain.repeatable(),
            ),
        )
        .push(
            rule_view(
                "languages"@,
                TargetView::Language(Language::Portuguese),
                r"\bportugu[e]s[ea]?\b"@,
                true,
                plain.repeatable(),
            ),
        )
}

/// Lists the part of the table for: languages, continued.
#[verifier::rlimit(50)]
fn list_second_language_rules(table: &mut Vec<Recipe>)
    ensures
        handlers_of(final(table)@) == second_language_rules(handlers_of(old(table)@)),
{
    let plain = RegexHandlerOptions::default();
    insensitive(
        table,
        "languages",
        Target::Language(Language::French),
        r"\b(VOST(?:FR?|A)?)\b",
        plain.repeatable(),
    );
    insensitive(
        table,
        "languages",
        Target::Language(Language::French),
        r"\b(VF[FQIB2]?|(TRUE|SUB)?.?FRENCH|(VOST)?FR2?)\b",
        plain.removing().repeatable(),
    );
    insensitive(
        table,
        "languages",
        Target::Language(Language::LatinAmericanSpanish),
        r"\bspanish\W?latin|american\W*(?:spa|esp?)",
        plain.removing().outside_title().repeatable(),
    );
    insensitive(
        table,
        "languages",
        Target::Language(Language::Spanish),
        r"\b(?:\bla\b.+(?:cia\b))",
        plain.outside_title().repeatable(),
    );
    insensitive(
        table,
        "languages",
        Target::Language(Language::LatinAmericanSpanish),
        r"\b(?:audio.)?lat(?:in?|ino)?\b",
        plain.repeatable(),
    );
    insensitive(
        table,
        "languages",
        Target::Language(Language::Spanish),
        r"\b(?:audio.)?(?:ESP?|spa|(en[ .]+)?espa[n]ola?|castellano)\b",
        plain.repeatable(),
    );
    insensitive(
        table,
        "languages",
        Target::Language(Language::Spanish),
        r"\bes(?=[ .,/-]+(?:[A-Z]{2}[ .,/-]+){2,})\b",
        plain.outside_title().repeatable(),
    );
    insensitive(
        table,
        "languages",
        Target::Language(Language::Spanish),
        r"\b(?<=[ .,/-]+(?:[A-Z]{2}[ .,/-]+){2,})es\b",
        plain.outside_title().repeatable(),
    );
    insensitive(
        table,
        "languages",
        Target::Language(Language::Spanish),
        r"\b(?<=[ .,/-]+[A-Z]{2}[ .,/-]+)es(?=[ .,/-]+[A-Z]{2}[ .,/-]+)\b",
        plain.outside_title().repeatable(),
    );
    insensitive(
        table,
        "languages",
        Target::Language(Language::Spanish),
        r"\bes(?=\.(?:ass|ssa|srt|sub|idx)$)",
        plain.outside_title().repeatable(),
    );
    insensitive(
        table,
        "languages",
        Target::Language(Language::Spanish),
        r"\bspanish\W+subs?\b",
        plain.repeatable(),
    );
    insensitive(
        table,
        "languages",
        Target::Language(Language::Spanish),
        r"\b(spanish|espanhol)\b",
        plain.only_first().repeatable(),
    );
    insensitive(
        table,
        "languages",
        Target::Language(Language::Portuguese),
        r"\b(?:p[rt]|en|port)[. (\\/-]*BR\b",
        plain.removing().repeatable(),
    );
    insensitive(
        table,
        "languages",
        Target::Language(Language::Portuguese),
        r"\bbr(?:a|azil|azilian)\W+(?:pt|por)\b",
        plain.removing().repeatable(),
    );
    insensitive(
        table,
        "languages",
        Target::Language(Language::Portuguese),
        r"\b(?:leg(?:endado|endas?)?|dub(?:lado)?|portugu[e]se?)[. -]*BR\b",
        plain.repeatable(),
    );
    insensitive(
        table,
        "languages",
        Target::Language(Language::Portuguese),
        r"\bleg(?:endado|endas?)\b",
        plain.repeatable(),
    );
    insensitive(
        table,
        "languages",
        Target::Language(Language::Portuguese),
        r"\bportugu[e]s[ea]?\b",
        plain.repeatable(),
    );
}

/// Languages, continued.
pub open spec fn third_language_rules(before: Seq<HandlerView>) -> Seq<HandlerView> {
    let plain = plain_options();
    before
        .push(
            rule_view(
                "languages"@,
                TargetView::Language(Language::Portuguese),
                r"\bPT[. -]*(?:PT|ENG?|sub(?:s|titles?))\b"@,
                true,
                plain.repeatable(),
            ),
        )
        .push(
            rule_view(
                "languages"@,
                TargetView::Language(Language::Portuguese),
                r"\bpt(?=\.(?:ass|ssa|srt|sub|idx)$)"@,
                true,
                plain.outside_title().repeatable(),
            ),
        )
        .push(
            rule_view(
                "languages"@,
                TargetView::Language(Language::Portuguese),
                r"\bpor\b"@,
                true,
                plain.outside_title().repeatable(),
            ),
        )
        .push(
            rule_view(
                "languages"@,
                TargetView::Language(Language::Italian),
                r"\b-?ITA\b"@,
                true,
                plain.removing().repeatable(),
            ),
        )
        .push(
            rule_view(
                "languages"@,
                TargetView::Language(Language::Italian),
                r"\b(?<!w{3}\.\w+\.)IT(?=[ .,/-]+(?:[a-zA-Z]{2}[ .,/-]+){2,})\b"@,
                false,
                plain.outside_title().repeatable(),
            ),
        )
        .push(
            rule_view(
                "languages"@,
                TargetView::Language(Language::Italian),
                r"\bit(?=\.(?:ass|ssa|srt|sub|idx)$)"@,
                true,
                plain.outside_title().repeatable(),
            ),
        )
        .push(
            rule_view(
                "languages"@,
                TargetView::Language(Language::Italian),
                r"\bitaliano?\b"@,
                true,
                plain.only_first().repeatable(),
            ),
        )
        .push(
            rule_view(
                "languages"@,
                TargetView::Language(Language::Greek),
                r"\bgreek[ .-]*(?:audio|lang(?:uage)?|subs?(?:titles?)?)?\b"@,
                true,
                plain.only_first().repeatable(),
            ),
        )
        .push(
            rule_view(
                "languages"@,
                TargetView::Language(Language::German),
                r"\b(?:GER|DEU)\b"@,
                true,
                plain.outside_title().repeatable(),
            ),
        )
        .push(
            rule_view(
                "languages"@,
                TargetView::Language(Language::German),
                r"\bde(?=[ .,/-]+(?:[A-Z]{2}[ .,/-]+){2,})\b"@,
                true,
                plain.outside_title().repeatable(),
            ),
        )
        .push(
            rule_view(
                "languages"@,
                TargetView::Language(Language::German),
                r"\b(?<=[ .,/-]+(?:[A-Z]{2}[ .,/-]+){2,})de\b"@,
                true,
                plain.outside_title().repeatable(),
            ),
        )
        .push(
            rule_view(
                "languages"@,
                TargetView::Language(Language::German),
                r"\b(?<=[ .,/-]+[A-Z]{2}[ .,/-]+)de(?=[ .,/-]+[A-Z]{2}[ .,/-]+)\b"@,
                true,
                plain.outside_title().repeatable(),
            ),
        )
        .push(
            rule_view(
                "languages"@,
                TargetView::Language(Language::German),
                r"\bde(?=\.(?:ass|ssa|srt|sub|idx)$)"@,
                true,
                plain.outside_title().repeatable(),
            ),
        )
        .push(
            rule_view(
                "languages"@,
                TargetView::Language(Language::German),
                r"\b(german|alem[a]o)\b"@,
                true,
                plain.only_first().repeatable(),
            ),
        )
        .push(
            rule_view(
                "languages"@,
                TargetView::Language(Language::Russian),
                r"\bRUS?\b"@,
                true,
                plain.repeatable(),
            ),
        )
        .push(
            rule_view(
                "languages"@,
                TargetView::Language(Language::Russian),
                r"\b(russian|russo)\b"@,
                true,
                plain.only_first().repeatable(),
            ),
        )
        .push(
            rule_view(
                "languages"@,
                TargetView::Language(Language::Ukrainian),
                r"\bUKR\b"@,
                true,
                plain.repeatable(),
            ),
        )
}

/// Lists the part of the table for: languages, continued.
#[verifier::rlimit(50)]
fn list_third_language_rules(table: &mut Vec<Recipe>)
    ensures
        handlers_of(final(table)@) == third_language_rules(handlers_of(old(table)@)),
{
    let plain = RegexHandlerOptions::default();
    insensitive(
        table,
        "languages",
        Target::Language(Language::Portuguese),
        r"\bPT[. -]*(?:PT|ENG?|sub(?:s|titles?))\b",
        plain.repeatable(),
    );
    insensitive(
        table,
        "languages",
        Target::Language(Language::Portuguese),
        r"\bpt(?=\.(?:ass|ssa|srt|sub|idx)$)",
        plain.outside_title().repeatable(),
    );
    insensitive(
        table,
        "languages",
        Target::Language(Language::Portuguese),
        r"\bpor\b",
        plain.outside_title().repeatable(),
    );
    insensitive(
        table,
        "languages",
        Target::Language(Language::Italian),
        r"\b-?ITA\b",
        plain.removing().repeatable(),
    );
    sensitive(
        table,
        "languages",
        Target::Language(Language::Italian),
        r"\b(?<!w{3}\.\w+\.)IT(?=[ .,/-]+(?:[a-zA-Z]{2}[ .,/-]+){2,})\b",
        plain.outside_title().repeatable(),
    );
    insensitive(
        table,
        "languages",
        Target::Language(Language::Italian),
        r"\bit(?=\.(?:ass|ssa|srt|sub|idx)$)",
        plain.outside_title().repeatable(),
    );
    insensitive(
        table,
        "languages",
        Target::Language(Language::Italian),
        r"\bitaliano?\b",
        plain.only_first().repeatable(),
    );
    insensitive(
        table,
        "languages",
        Target::Language(Language::Greek),
        r"\bgreek[ .-]*(?:audio|lang(?:uage)?|subs?(?:titles?)?)?\b",
        plain.only_first().repeatable(),
    );
    insensitive(
        table,
        "languages",
        Target::Language(Language::German),
        r"\b(?:GER|DEU)\b",
        plain.outside_title().repeatable(),
    );
    insensitive(
        table,
        "languages",
        Target::Language(Language::German),
        r"\bde(?=[ .,/-]+(?:[A-Z]{2}[ .,/-]+){2,})\b",
        plain.outside_title().repeatable(),
    );
    insensitive(
        table,
        "languages",
        Target::Language(Language::German),
        r"\b(?<=[ .,/-]+(?:[A-Z]{2}[ .,/-]+){2,})de\b",
        plain.outside_title().repeatable(),
    );
    insensitive(
        table,
        "languages",
        Target::Language(Language::German),
        r"\b(?<=[ .,/-]+[A-Z]{2}[ .,/-]+)de(?=[ .,/-]+[A-Z]{2}[ .,/-]+)\b",
        plain.outside_title().repeatable(),
    );
    insensitive(
        table,
        "languages",
        Target::Language(Language::German),
        r"\bde(?=\.(?:ass|ssa|srt|sub|idx)$)",
        plain.outside_title().repeatable(),
    );
    insensitive(
        table,
        "languages",
        Target::Language(Language::German),
        r"\b(german|alem[a]o)\b",
        plain.only_first().repeatable(),
    );
    insensitive(
        table,
        "languages",
        Target::Language(Language::Russian),
        r"\bRUS?\b",
        plain.repeatable(),
    );
    insensitive(
        table,
        "languages",
        Target::Language(Language::Russian),
        r"\b(russian|russo)\b",
        plain.only_first().repeatable(),
    );
    insensitive(
        table,
        "languages",
        Target::Language(Language::Ukrainian),
        r"\bUKR\b",
        plain.repeatable(),
    );
}

/// Languages, continued.
pub open spec fn fourth_language_rules(before: Seq<HandlerView>) -> Seq<HandlerView> {
    let plain = plain_options();
    before
        .push(
            rule_view(
                "languages"@,
                TargetView::Language(Language::Ukrainian),
                r"\bukrainian\b"@,
                true,
                plain.only_first().repeatable(),
            ),
        )
        .push(
            rule_view(
                "languages"@,
                TargetView::Language(Language::Hindi),
                r"\bhin(?:di)?\b"@,
                true,
                plain.repeatable(),
            ),
        )
        .push(
            rule_view(
                "languages"@,
                TargetView::Language(Language::Telugu),
                r"\b(?:(?<!w{3}\.\w+\.)tel(?!\W*aviv)|telugu)\b"@,
                true,
                plain.removing().repeatable(),
            ),
        )
        .push(
            rule_view(
                "languages"@,
                TargetView::Language(Language::Tamil),
                r"\bt[a]m(?:il)?\b"@,
                true,
                plain.removing().repeatable(),
            ),
        )
        .push(
            rule_view(
                "languages"@,
                TargetView::Language(Language::Malayalam),
                r"\b(?:(?<!w{3}\.\w+\.)MAL(?:ay)?|malayalam)\b"@,
                true,
                plain.removing().only_first().repeatable(),
            ),
        )
        .push(
            rule_view(
                "languages"@,
                TargetView::Language(Language::Kannada),
                r"\b(?:(?<!w{3}\.\w+\.)KAN(?:nada)?|kannada)\b"@,
                true,
                plain.removing().repeatable(),
            ),
        )
        .push(
            rule_view(
                "languages"@,
                TargetView::Language(Language::Marathi),
                r"\b(?:(?<!w{3}\.\w+\.)MAR(?:a(?:thi)?)?|marathi)\b"@,
                true,
                plain.repeatable(),
            ),
        )
        .push(
            rule_view(
                "languages"@,
                TargetView::Language(Language::Gujarati),
                r"\b(?:(?<!w{3}\.\w+\.)GUJ(?:arati)?|gujarati)\b"@,
                true,
                plain.repeatable(),
            ),
        )
        .push(
            rule_view(
                "languages"@,
                TargetView::Language(Language::Punjabi),
                r"\b(?:(?<!w{3}\.\w+\.)PUN(?:jabi)?|punjabi)\b"@,
                true,
                plain.repeatable(),
            ),
        )
        .push(
            rule_view(
                "languages"@,
                TargetView::Language(Language::Bengali),
                r"\b(?:(?<!w{3}\.\w+\.)BEN(?!.\bThe|and|of\b)(?:gali)?|bengali)\b"@,
                true,
                plain.only_first().repeatable(),
            ),
        )
        .push(
            rule_view(
                "languages"@,
                TargetView::Language(Language::Lithuanian),
                r"\b(?<!YTS\.)LT\b"@,
                false,
                plain.outside_title().repeatable(),
            ),
        )
        .push(
            rule_view(
                "languages"@,
                TargetView::Language(Language::Lithuanian),
                r"\blithuanian\b"@,
                true,
                plain.only_first().repeatable(),
            ),
        )
        .push(
            rule_view(
                "languages"@,
                TargetView::Language(Language::Latvian),
                r"\blatvian\b"@,
                true,
                plain.only_first().repeatable(),
            ),
        )
        .push(
            rule_view(
                "languages"@,
                TargetView::Language(Language::Estonian),
                r"\bestonian\b"@,
                true,
                plain.only_first().repeatable(),
            ),
        )
        .push(
            rule_view(
                "languages"@,
                TargetView::Language(Language::Polish),
                r"\b(?:(?<!w{3}\.\w+\.)PL|pol)\b"@,
                true,
                plain.repeatable(),
            ),
        )
        .push(
            rule_view(
                "languages"@,
                TargetView::Language(Language::Polish),
                r"\b(polish|polon[e]s|polaco)\b"@,
                true,
                plain.only_first().repeatable(),
            ),
        )
        .push(
            rule_view(
                "languages"@,
                TargetView::Language(Language::Czech),
                r"\bCZ[EH]?\b"@,
                true,
                plain.only_first().repeatable(),
            ),
        )
}

/// Lists the part of the table for: languages, continued.
#[verifier::rlimit(50)]
fn list_fourth_language_rules(table: &mut Vec<Recipe>)
    ensures
        handlers_of(final(table)@) == fourth_language_rules(handlers_of(old(table)@)),
{
    let plain = RegexHandlerOptions::default();
    insensitive(
        table,
        "languages",
        Target::Language(Language::Ukrainian),
        r"\bukrainian\b",
        plain.only_first().repeatable(),
    );
    insensitive(
        table,
        "languages",
        Target::Language(Language::Hindi),
        r"\bhin(?:di)?\b",
        plain.repeatable(),
    );
    insensitive(
        table,
        "languages",
        Target::Language(Language::Telugu),
        r"\b(?:(?<!w{3}\.\w+\.)tel(?!\W*aviv)|telugu)\b",
        plain.removing().repeatable(),
    );
    insensitive(
        table,
        "languages",
        Target::Language(Language::Tamil),
        r"\bt[a]m(?:il)?\b",
        plain.removing().repeatable(),
    );
    insensitive(
        table,
        "languages",
        Target::Language(Language::Malayalam),
        r"\b(?:(?<!w{3}\.\w+\.)MAL(?:ay)?|malayalam)\b",
        plain.removing().only_first().repeatable(),
    );
    insensitive(
        table,
        "languages",
        Target::Language(Language::Kannada),
        r"\b(?:(?<!w{3}\.\w+\.)KAN(?:nada)?|kannada)\b",
        plain.removing().repeatable(),
    );
    insensitive(
        table,
        "languages",
        Target::Language(Language::Marathi),
        r"\b(?:(?<!w{3}\.\w+\.)MAR(?:a(?:thi)?)?|marathi)\b",
        plain.repeatable(),
    );
    insensitive(
        table,
        "languages",
        Target::Language(Language::Gujarati),
        r"\b(?:(?<!w{3}\.\w+\.)GUJ(?:arati)?|gujarati)\b",
        plain.repeatable(),
    );
    insensitive(
        table,
        "languages",
        Target::Language(Language::Punjabi),
        r"\b(?:(?<!w{3}\.\w+\.)PUN(?:jabi)?|punjabi)\b",
        plain.repeatable(),
    );
    insensitive(
        table,
        "languages",
        Target::Language(Language::Bengali),
        r"\b(?:(?<!w{3}\.\w+\.)BEN(?!.\bThe|and|of\b)(?:gali)?|bengali)\b",
        plain.only_first().repeatable(),
    );
    sensitive(
        table,
        "languages",
        Target::Language(Language::Lithuanian),
        r"\b(?<!YTS\.)LT\b",
        plain.outside_title().repeatable(),
    );
    insensitive(
        table,
        "languages",
        Target::Language(Language::Lithuanian),
        r"\blithuanian\b",
        plain.only_first().repeatable(),
    );
    insensitive(
        table,
        "languages",
        Target::Language(Language::Latvian),
        r"\blatvian\b",
        plain.only_first().repeatable(),
    );
    insensitive(
        table,
        "languages",
        Target::Language(Language::Estonian),
        r"\bestonian\b",
        plain.only_first().repeatable(),
    );
    insensitive(
        table,
        "languages",
        Target::Language(Language::Polish),
        r"\b(?:(?<!w{3}\.\w+\.)PL|pol)\b",
        plain.repeatable(),
    );
    insensitive(
        table,
        "languages",
        Target::Language(Language::Polish),
        r"\b(polish|polon[e]s|polaco)\b",
        plain.only_first().repeatable(),
    );
    insensitive(
        table,
        "languages",
        Target::Language(Language::Czech),
        r"\bCZ[EH]?\b",
        plain.only_first().repeatable(),
    );
}

/// Languages, continued.
pub open spec fn fifth_language_rules(before: Seq<HandlerView>) -> Seq<HandlerView> {
    let plain = plain_options();
    before
        .push(
            rule_view(
                "languages"@,
                TargetView::Language(Language::Czech),
                r"\bczech\b"@,
                true,
                plain.only_first().repeatable(),
            ),
        )
        .push(
            rule_view(
                "languages"@,
                TargetView::Language(Language::Slovak),
                r"\bslo(?:vak|vakian|subs|[\]_)]?\.\w{2,4}$)\b"@,
                true,
                plain.outside_title().repeatable(),
            ),
        )
        .push(
            rule_view(
                "languages"@,
                TargetView::Language(Language::Hungarian),
                r"\bHU\b"@,
                false,
                plain.outside_title().repeatable(),
            ),
        )
        .push(
            rule_view(
                "languages"@,
                TargetView::Language(Language::Hungarian),
                r"\bHUN(?:garian)?\b"@,
                true,
                plain.outside_title().repeatable(),
            ),
        )
        .push(
            rule_view(
                "languages"@,
                TargetView::Language(Language::Romanian),
                r"\bROM(?:anian)?\b"@,
                true,
                plain.outside_title().repeatable(),
            ),
        )
        .push(
            rule_view(
                "languages"@,
                TargetView::Language(Language::Romanian),
                r"\bRO(?=[ .,/-]*(?:[A-Z]{2}[ .,/-]+)*sub)"@,
                true,
                plain.repeatable(),
            ),
        )
        .push(
            rule_view(
                "languages"@,
                TargetView::Language(Language::Bulgarian),
                r"\bbul(?:garian)?\b"@,
                true,
                plain.outside_title().repeatable(),
            ),
        )
        .push(
            rule_view(
                "languages"@,
                TargetView::Language(Language::Serbian),
                r"\b(?:srp|serbian)\b"@,
                true,
                plain.repeatable(),
            ),
        )
        .push(
            rule_view(
                "languages"@,
                TargetView::Language(Language::Croatian),
                r"\b(?:HRV|croatian)\b"@,
                true,
                plain.repeatable(),
            ),
        )
        .push(
            rule_view(
                "languages"@,
                TargetView::Language(Language::Croatian),
                r"\bHR(?=[ .,/-]*(?:[A-Z]{2}[ .,/-]+)*sub)\b"@,
                true,
                plain.repeatable(),
            ),
        )
        .push(
            rule_view(
                "languages"@,
                TargetView::Language(Language::Slovenian),
                r"\bslovenian\b"@,
                true,
                plain.outside_title().repeatable(),
            ),
        )
        .push(
            rule_view(
                "languages"@,
                TargetView::Language(Language::Dutch),
                r"\b(?:(?<!w{3}\.\w+\.)NL|dut|holand[e]s)\b"@,
                true,
                plain.repeatable(),
            ),
        )
        .push(
            rule_view(
                "languages"@,
                TargetView::Language(Language::Dutch),
                r"\bdutch\b"@,
                true,
                plain.outside_title().repeatable(),
            ),
        )
        .push(
            rule_view(
                "languages"@,
                TargetView::Language(Language::Dutch),
                r"\bflemish\b"@,
                true,
                plain.repeatable(),
            ),
        )
        .push(
            rule_view(
                "languages"@,
                TargetView::Language(Language::Danish),
                r"\b(?:DK|danska|dansub|nordic)\b"@,
                true,
                plain.repeatable(),
            ),
        )
        .push(
            rule_view(
                "languages"@,
                TargetView::Language(Language::Danish),
                r"\b(danish|dinamarqu[e]s)\b"@,
                true,
                plain.outside_title().repeatable(),
            ),
        )
        .push(
            rule_view(
                "languages"@,
                TargetView::Language(Language::Danish),
                r"\bdan\b(?=.*\.(?:srt|vtt|ssa|ass|sub|idx)$)"@,
                true,
                plain.outside_title().repeatable(),
            ),
        )
}

/// Lists the part of the table for: languages, continued.
#[verifier::rlimit(50)]
fn list_fifth_language_rules(table: &mut Vec<Recipe>)
    ensures
        handlers_of(final(table)@) == fifth_language_rules(handlers_of(old(table)@)),
{
    let plain = RegexHandlerOptions::default();
    insensitive(
        table,
        "languages",
        Target::Language(Language::Czech),
        r"\bczech\b",
        plain.only_first().repeatable(),
    );
    insensitive(
        table,
        "languages",
        Target::Language(Language::Slovak),
        r"\bslo(?:vak|vakian|subs|[\]_)]?\.\w{2,4}$)\b",
        plain.outside_title().repeatable(),
    );
    sensitive(
        table,
        "languages",
        Target::Language(Language::Hungarian),
        r"\bHU\b",
        plain.outside_title().repeatable(),
    );
    insensitive(
        table,
        "languages",
        Target::Language(Language::Hungarian),
        r"\bHUN(?:garian)?\b",
        plain.outside_title().repeatable(),
    );
    insensitive(
        table,
        "languages",
        Target::Language(Language::Romanian),
        r"\bROM(?:anian)?\b",
        plain.outside_title().repeatable(),
    );
    insensitive(
        table,
        "languages",
        Target::Language(Language::Romanian),
        r"\bRO(?=[ .,/-]*(?:[A-Z]{2}[ .,/-]+)*sub)",
        plain.repeatable(),
    );
    insensitive(
        table,
        "languages",
        Target::Language(Language::Bulgarian),
        r"\bbul(?:garian)?\b",
        plain.outside_title().repeatable(),
    );
    insensitive(
        table,
        "languages",
        Target::Language(Language::Serbian),
        r"\b(?:srp|serbian)\b",
        plain.repeatable(),
    );
    insensitive(
        table,
        "languages",
        Target::Language(Language::Croatian),
        r"\b(?:HRV|croatian)\b",
        plain.repeatable(),
    );
    insensitive(
        table,
        "languages",
        Target::Language(Language::Croatian),
        r"\bHR(?=[ .,/-]*(?:[A-Z]{2}[ .,/-]+)*sub)\b",
        plain.repeatable(),
    );
    insensitive(
        table,
        "languages",
        Target::Language(Language::Slovenian),
        r"\bslovenian\b",
        plain.outside_title().repeatable(),
    );
    insensitive(
        table,
        "languages",
        Target::Language(Language::Dutch),
        r"\b(?:(?<!w{3}\.\w+\.)NL|dut|holand[e]s)\b",
        plain.repeatable(),
    );
    insensitive(
        table,
        "languages",
        Target::Language(Language::Dutch),
        r"\bdutch\b",
        plain.outside_title().repeatable(),
    );
    insensitive(
        table,
        "languages",
        Target::Language(Language::Dutch),
        r"\bflemish\b",
        plain.repeatable(),
    );
    insensitive(
        table,
        "languages",
        Target::Language(Language::Danish),
        r"\b(?:DK|danska|dansub|nordic)\b",
        plain.repeatable(),
    );
    insensitive(
        table,
        "languages",
        Target::Language(Language::Danish),
        r"\b(danish|dinamarqu[e]s)\b",
        plain.outside_title().repeatable(),
    );
    insensitive(
        table,
        "languages",
        Target::Language(Language::Danish),
        r"\bdan\b(?=.*\.(?:srt|vtt|ssa|ass|sub|idx)$)",
        plain.outside_title().repeatable(),
    );
}

/// Languages, continued.
pub open spec fn sixth_language_rules(before: Seq<HandlerView>) -> Seq<HandlerView> {
    let plain = plain_options();
    before
        .push(
            rule_view(
                "languages"@,
                TargetView::Language(Language::Finnish),
                r"\b(?:(?<!w{3}\.\w+\.)FI|finsk|finsub|nordic)\b"@,
                true,
                plain.repeatable(),
            ),
        )
        .push(
            rule_view(
                "languages"@,
                TargetView::Language(Language::Finnish),
                r"\bfinnish\b"@,
                true,
                plain.outside_title().repeatable(),
            ),
        )
        .push(
            rule_view(
                "languages"@,
                TargetView::Language(Language::Swedish),
                r"\b(?:(?<!w{3}\.\w+\.)SE|swe|swesubs?|sv(?:ensk)?|nordic)\b"@,
                true,
                plain.repeatable(),
            ),
        )
        .push(
            rule_view(
                "languages"@,
                TargetView::Language(Language::Swedish),
                r"\b(swedish|sueco)\b"@,
                true,
                plain.outside_title().repeatable(),
            ),
        )
        .push(
            rule_view(
                "languages"@,
                TargetView::Language(Language::Norwegian),
                r"\b(?:NOR|norsk|norsub|nordic)\b"@,
                true,
                plain.repeatable(),
            ),
        )
        .push(
            rule_view(
                "languages"@,
                TargetView::Language(Language::Norwegian),
                r"\b(norwegian|noruegu[e]s|bokm[a]l|nob|nor(?=[\]_)]?\.\w{2,4}$))\b"@,
                true,
                plain.outside_title().repeatable(),
            ),
        )
        .push(
            rule_view(
                "languages"@,
                TargetView::Language(Language::Arabic),
                r"\b(?:arabic|[a]rabe|ara)\b"@,
                true,
                plain.only_first().repeatable(),
            ),
        )
        .push(
            rule_view(
                "languages"@,
                TargetView::Language(Language::Arabic),
                r"\barab.*(?:audio|lang(?:uage)?|sub(?:s|titles?)?)\b"@,
                true,
                plain.outside_title().repeatable(),
            ),
        )
        .push(
            rule_view(
                "languages"@,
                TargetView::Language(Language::Arabic),
                r"\bar(?=\.(?:ass|ssa|srt|sub|idx)$)"@,
                true,
                plain.outside_title().repeatable(),
            ),
        )
        .push(
            rule_view(
                "languages"@,
                TargetView::Language(Language::Turkish),
                r"\b(?:turkish|tur(?:co)?)\b"@,
                true,
                plain.outside_title().repeatable(),
            ),
        )
        .push(
            rule_view(
                "languages"@,
                TargetView::Language(Language::Turkish),
                r"\b(TVBU|tivibu|bitturk(.net)?|turktorrent)\b"@,
                true,
                plain.outside_title().repeatable(),
            ),
        )
        .push(
            rule_view(
                "languages"@,
                TargetView::Language(Language::Vietnamese),
                r"\bvietnamese\b|\bvie(?=[\]_)]?\.\w{2,4}$)"@,
                true,
                plain.outside_title().repeatable(),
            ),
        )
        .push(
            rule_view(
                "languages"@,
                TargetView::Language(Language::Indonesian),
                r"\bind(?:onesian)?\b"@,
                true,
                plain.outside_title().repeatable(),
            ),
        )
        .push(
            rule_view(
                "languages"@,
                TargetView::Language(Language::Thai),
                r"\b(thai|tailand[e]s)\b"@,
                true,
                plain.only_first().repeatable(),
            ),
        )
        .push(
            rule_view(
                "languages"@,
                TargetView::Language(Language::Thai),
                r"\b(THA|tha)\b"@,
                false,
                plain.outside_title().repeatable(),
            ),
        )
        .push(
            rule_view(
                "languages"@,
                TargetView::Language(Language::Malay),
                r"\b(?:malay|may(?=[\]_)]?\.\w{2,4}$)|(?<=subs?\([a-z,]+)may)\b"@,
                true,
                plain.only_first().repeatable(),
            ),
        )
        .push(
            rule_view(
                "languages"@,
                TargetView::Language(Language::Hebrew),
                r"\bheb(?:rew|raico)?\b"@,
                true,
                plain.outside_title().repeatable(),
            ),
        )
}

/// Lists the part of the table for: languages, continued.
#[verifier::rlimit(50)]
fn list_sixth_language_rules(table: &mut Vec<Recipe>)
    ensures
        handlers_of(final(table)@) == sixth_language_rules(handlers_of(old(table)@)),
{
    let plain = RegexHandlerOptions::default();
    insensitive(
        table,
        "languages",
        Target::Language(Language::Finnish),
        r"\b(?:(?<!w{3}\.\w+\.)FI|finsk|finsub|nordic)\b",
        plain.repeatable(),
    );
    insensitive(
        table,
        "languages",
        Target::Language(Language::Finnish),
        r"\bfinnish\b",
        plain.outside_title().repeatable(),
    );
    insensitive(
        table,
        "languages",
        Target::Language(Language::Swedish),
        r"\b(?:(?<!w{3}\.\w+\.)SE|swe|swesubs?|sv(?:ensk)?|nordic)\b",
        plain.repeatable(),
    );
    insensitive(
        table,
        "languages",
        Target::Language(Language::Swedish),
        r"\b(swedish|sueco)\b",
        plain.outside_title().repeatable(),
    );
    insensitive(
        table,
        "languages",
        Target::Language(Language::Norwegian),
        r"\b(?:NOR|norsk|norsub|nordic)\b",
        plain.repeatable(),
    );
    insensitive(
        table,
        "languages",
        Target::Language(Language::Norwegian),
        r"\b(norwegian|noruegu[e]s|bokm[a]l|nob|nor(?=[\]_)]?\.\w{2,4}$))\b",
        plain.outside_title().repeatable(),
    );
    insensitive(
        table,
        "languages",
        Target::Language(Language::Arabic),
        r"\b(?:arabic|[a]rabe|ara)\b",
        plain.only_first().repeatable(),
    );
    insensitive(
        table,
        "languages",
        Target::Language(Language::Arabic),
        r"\barab.*(?:audio|lang(?:uage)?|sub(?:s|titles?)?)\b",
        plain.outside_title().repeatable(),
    );
    insensitive(
        table,
        "languages",
        Target::Language(Language::Arabic),
        r"\bar(?=\.(?:ass|ssa|srt|sub|idx)$)",
        plain.outside_title().repeatable(),
    );
    insensitive(
        table,
        "languages",
        Target::Language(Language::Turkish),
        r"\b(?:turkish|tur(?:co)?)\b",
        plain.outside_title().repeatable(),
    );
    insensitive(
        table,
        "languages",
        Target::Language(Language::Turkish),
        r"\b(TVBU|tivibu|bitturk(.net)?|turktorrent)\b",
        plain.outside_title().repeatable(),
    );
    insensitive(
        table,
        "languages",
        Target::Language(Language::Vietnamese),
        r"\bvietnamese\b|\bvie(?=[\]_)]?\.\w{2,4}$)",
        plain.outside_title().repeatable(),
    );
    insensitive(
        table,
        "languages",
        Target::Language(Language::Indonesian),
        r"\bind(?:onesian)?\b",
        plain.outside_title().repeatable(),
    );
    insensitive(
        table,
        "languages",
        Target::Language(Language::Thai),
        r"\b(thai|tailand[e]s)\b",
        plain.only_first().repeatable(),
    );
    sensitive(
        table,
        "languages",
        Target::Language(Language::Thai),
        r"\b(THA|tha)\b",
        plain.outside_title().repeatable(),
    );
    insensitive(
        table,
        "languages",
        Target::Language(Language::Malay),
        r"\b(?:malay|may(?=[\]_)]?\.\w{2,4}$)|(?<=subs?\([a-z,]+)may)\b",
        plain.only_first().repeatable(),
    );
    insensitive(
        table,
        "languages",
        Target::Language(Language::Hebrew),
        r"\bheb(?:rew|raico)?\b",
        plain.outside_title().repeatable(),
    );
}

/// Languages, continued, and what the naming alone suggests.
pub open spec fn last_language_rules(before: Seq<HandlerView>) -> Seq<HandlerView> {
    let plain = plain_options();
    before
        .push(
            rule_view(
                "languages"@,
                TargetView::Language(Language::Persian),
                r"\b(persian|persa)\b"@,
                true,
                plain.outside_title().repeatable(),
            ),
        )
        .push(
            rule_view(
                "languages"@,
                TargetView::Language(Language::Japanese),
                r"[\u3040-\u30ff]+"@,
                true,
                plain.outside_title().repeatable(),
            ),
        )
        .push(
            rule_view(
                "languages"@,
                TargetView::Language(Language::Chinese),
                r"[\u3400-\u4dbf]+"@,
                true,
                plain.outside_title().repeatable(),
            ),
        )
        .push(
            rule_view(
                "languages"@,
                TargetView::Language(Language::Chinese),
                r"[\u4e00-\u9fff]+"@,
                true,
                plain.outside_title().repeatable(),
            ),
        )
        .push(
            rule_view(
                "languages"@,
                TargetView::Language(Language::Chinese),
                r"[\uf900-\ufaff]+"@,
                true,
                plain.outside_title().repeatable(),
            ),
        )
        .push(
            rule_view(
                "languages"@,
                TargetView::Language(Language::Japanese),
                r"[\uff66-\uff9f]+"@,
                true,
                plain.outside_title().repeatable(),
            ),
        )
        .push(
            rule_view(
                "languages"@,
                TargetView::Language(Language::Russian),
                r"[\u0400-\u04ff]+"@,
                true,
                plain.outside_title().repeatable(),
            ),
        )
        .push(
            rule_view(
                "languages"@,
                TargetView::Language(Language::Arabic),
                r"[\u0600-\u06ff]+"@,
                true,
                plain.outside_title().repeatable(),
            ),
        )
        .push(
            rule_view(
                "languages"@,
                TargetView::Language(Language::Arabic),
                r"[\u0750-\u077f]+"@,
                true,
                plain.outside_title().repeatable(),
            ),
        )
        .push(
            rule_view(
                "languages"@,
                TargetView::Language(Language::Kannada),
                r"[\u0c80-\u0cff]+"@,
                true,
                plain.outside_title().repeatable(),
            ),
        )
        .push(
            rule_view(
                "languages"@,
                TargetView::Language(Language::Malayalam),
                r"[\u0d00-\u0d7f]+"@,
                true,
                plain.outside_title().repeatable(),
            ),
        )
        .push(
            rule_view(
                "languages"@,
                TargetView::Language(Language::Thai),
                r"[\u0e00-\u0e7f]+"@,
                true,
                plain.outside_title().repeatable(),
            ),
        )
        .push(
            rule_view(
                "languages"@,
                TargetView::Language(Language::Hindi),
                r"[\u0900-\u097f]+"@,
                true,
                plain.outside_title().repeatable(),
            ),
        )
        .push(
            rule_view(
                "languages"@,
                TargetView::Language(Language::Bengali),
                r"[\u0980-\u09ff]+"@,
                true,
                plain.outside_title().repeatable(),
            ),
        )
        .push(
            rule_view(
                "languages"@,
                TargetView::Language(Language::Gujarati),
                r"[\u0a00-\u0a7f]+"@,
                true,
                plain.outside_title().repeatable(),
            ),
        )
        .push(
            handler_view(
                "languages"@,
                ActionView::InferPortuguese(pattern(r"capitulo|ao"@, true), pattern(r"dublado"@, true)),
            ),
        )
}

/// Lists the part of the table for: languages, continued, and what the naming alone suggests.
#[verifier::rlimit(50)]
fn list_last_language_rules(table: &mut Vec<Recipe>)
    ensures
        handlers_of(final(table)@) == last_language_rules(handlers_of(old(table)@)),
{
    let plain = RegexHandlerOptions::default();
    insensitive(
        table,
        "languages",
        Target::Language(Language::Persian),
        r"\b(persian|persa)\b",
        plain.outside_title().repeatable(),
    );
    insensitive(
        table,
        "languages",
        Target::Language(Language::Japanese),
        r"[\u3040-\u30ff]+",
        plain.outside_title().repeatable(),
    );
    insensitive(
        table,
        "languages",
        Target::Language(Language::Chinese),
        r"[\u3400-\u4dbf]+",
        plain.outside_title().repeatable(),
    );
    insensitive(
        table,
        "languages",
        Target::Language(Language::Chinese),
        r"[\u4e00-\u9fff]+",
        plain.outside_title().repeatable(),
    );
    insensitive(
        table,
        "languages",
        Target::Language(Language::Chinese),
        r"[\uf900-\ufaff]+",
        plain.outside_title().repeatable(),
    );
    insensitive(
        table,
        "languages",
        Target::Language(Language::Japanese),
        r"[\uff66-\uff9f]+",
        plain.outside_title().repeatable(),
    );
    insensitive(
        table,
        "languages",
        Target::Language(Language::Russian),
        r"[\u0400-\u04ff]+",
        plain.outside_title().repeatable(),
    );
    insensitive(
        table,
        "languages",
        Target::Language(Language::Arabic),
        r"[\u0600-\u06ff]+",
        plain.outside_title().repeatable(),
    );
    insensitive(
        table,
        "languages",
        Target::Language(Language::Arabic),
        r"[\u0750-\u077f]+",
        plain.outside_title().repeatable(),
    );
    insensitive(
        table,
        "languages",
        Target::Language(Language::Kannada),
        r"[\u0c80-\u0cff]+",
        plain.outside_title().repeatable(),
    );
    insensitive(
        table,
        "languages",
        Target::Language(Language::Malayalam),
        r"[\u0d00-\u0d7f]+",
        plain.outside_title().repeatable(),
    );
    insensitive(
        table,
        "languages",
        Target::Language(Language::Thai),
        r"[\u0e00-\u0e7f]+",
        plain.outside_title().repeatable(),
    );
    insensitive(
        table,
        "languages",
        Target::Language(Language::Hindi),
        r"[\u0900-\u097f]+",
        plain.outside_title().repeatable(),
    );
    insensitive(
        table,
        "languages",
        Target::Language(Language::Bengali),
        r"[\u0980-\u09ff]+",
        plain.outside_title().repeatable(),
    );
    insensitive(
        table,
        "languages",
        Target::Language(Language::Gujarati),
        r"[\u0a00-\u0a7f]+",
        plain.outside_title().repeatable(),
    );
    list(
        table,
        "languages",
        Plan::InferPortuguese(r"capitulo|ao".to_owned(), r"dublado".to_owned(), true),
    );
}

/// Subtitles and dubbing, three dimensions, size and sites.
pub open spec fn subtitle_rules(before: Seq<HandlerView>) -> Seq<HandlerView> {
    let plain = plain_options();
    before
        .push(
            rule_view(
                "subbed"@,
                TargetView::Flag(FlagField::Subbed),
                r"\b(?:Official.*?|Dual-?)?sub(s|bed)?\b"@,
                true,
                plain.removing(),
            ),
        )
        .push(
            rule_view(
                "subbed"@,
                TargetView::Flag(FlagField::Subbed),
                r"\bmulti(?:ple)?[ .-]*(?:su?$|sub\w*|dub\w*)\b|msub"@,
                true,
                plain.removing().repeatable(),
            ),
        )
        .push(
            rule_view(
                "dubbed"@,
                TargetView::Flag(FlagField::Dubbed),
                r"\bmulti(?:ple)?[ .-]*(?:lang(?:uages?)?|audio|VF2)?\b"@,
                true,
                plain.removing().repeatable(),
            ),
        )
        .push(
            rule_view(
                "dubbed"@,
                TargetView::Flag(FlagField::Dubbed),
                r"\btri(?:ple)?[ .-]*(?:audio|dub\w*)\b"@,
                true,
                plain.repeatable(),
            ),
        )
        .push(
            rule_view(
                "dubbed"@,
                TargetView::Flag(FlagField::Dubbed),
                r"\bdual[ .-]*(?:au?$|[a]udio|line)\b"@,
                true,
                plain.repeatable(),
            ),
        )
        .push(
            rule_view(
                "dubbed"@,
                TargetView::Flag(FlagField::Dubbed),
                r"\bdual\b(?![ .-]*sub)"@,
                true,
                plain.repeatable(),
            ),
        )
        .push(
            rule_view(
                "dubbed"@,
                TargetView::Flag(FlagField::Dubbed),
                r"\b(fan\s?dub)\b"@,
                true,
                plain.removing().outside_title(),
            ),
        )
        .push(
            rule_view(
                "dubbed"@,
                TargetView::Flag(FlagField::Dubbed),
                r"\b(Fan.*)?(?:DUBBED|dublado|dubbing|DUBS?)\b"@,
                true,
                plain.removing(),
            ),
        )
        .push(
            rule_view(
                "dubbed"@,
                TargetView::Flag(FlagField::Dubbed),
                r"\b(?!.*\bsub(s|bed)?\b)([ _\-\[(\.])?(dual|multi)([ _\-\[(\.])?(audio)?\b"@,
                true,
                plain.removing(),
            ),
        )
        .push(
            rule_view(
                "dubbed"@,
                TargetView::Flag(FlagField::Dubbed),
                r"\b(JAP?(anese)?|ZH)\+ENG?(lish)?|ENG?(lish)?\+(JAP?(anese)?|ZH)\b"@,
                true,
                plain.removing(),
            ),
        )
        .push(handler_view("group"@, ActionView::DropOverlappingGroup))
        .push(
            rule_view(
                "3d"@,
                TargetView::Flag(FlagField::Is3d),
                r"(?<=\b[12]\d{3}\b).*\b(3d|sbs|half[ .-]ou|half[ .-]sbs)\b"@,
                true,
                plain.only_first(),
            ),
        )
        .push(
            rule_view(
                "3d"@,
                TargetView::Flag(FlagField::Is3d),
                r"\b((Half.)?SBS|HSBS)\b"@,
                true,
                plain.only_first(),
            ),
        )
        .push(
            rule_view(
                "3d"@,
                TargetView::Flag(FlagField::Is3d),
                r"\bBluRay3D\b"@,
                true,
                plain.only_first(),
            ),
        )
        .push(
            rule_view(
                "3d"@,
                TargetView::Flag(FlagField::Is3d),
                r"\bBD3D\b"@,
                true,
                plain.only_first(),
            ),
        )
        .push(
            rule_view(
                "3d"@,
                TargetView::Flag(FlagField::Is3d),
                r"\b3D\b"@,
                true,
                plain.only_first(),
            ),
        )
        .push(
            rule_view(
                "size"@,
                TargetView::Text(TextField::Size, TextTransformView::Identity),
                r"\b(\d+(\.\d+)?\s?(MB|GB|TB))\b"@,
                true,
                plain.removing(),
            ),
        )
        .push(
            rule_view(
                "site"@,
                fixed_view(TextField::Site, "$1"@),
                r"\[([^\]]+\.[^\]]+)\](?=\.\w{2,4}$|\s)"@,
                true,
                plain.removing().outside_title(),
            ),
        )
        .push(
            rule_view(
                "site"@,
                fixed_view(TextField::Site, "$1"@),
                r"\bwww\.\w*\.\w+\b"@,
                true,
                plain.removing(),
            ),
        )
}

/// Lists the part of the table for: subtitles and dubbing, three dimensions, size and sites.
#[verifier::rlimit(50)]
fn list_subtitle_rules(table: &mut Vec<Recipe>)
    ensures
        handlers_of(final(table)@) == subtitle_rules(handlers_of(old(table)@)),
{
    let plain = RegexHandlerOptions::default();
    insensitive(
        table,
        "subbed",
        Target::Flag(FlagField::Subbed),
        r"\b(?:Official.*?|Dual-?)?sub(s|bed)?\b",
        plain.removing(),
    );
    insensitive(
        table,
        "subbed",
        Target::Flag(FlagField::Subbed),
        r"\bmulti(?:ple)?[ .-]*(?:su?$|sub\w*|dub\w*)\b|msub",
        plain.removing().repeatable(),
    );
    insensitive(
        table,
        "dubbed",
        Target::Flag(FlagField::Dubbed),
        r"\bmulti(?:ple)?[ .-]*(?:lang(?:uages?)?|audio|VF2)?\b",
        plain.removing().repeatable(),
    );
    insensitive(
        table,
        "dubbed",
        Target::Flag(FlagField::Dubbed),
        r"\btri(?:ple)?[ .-]*(?:audio|dub\w*)\b",
        plain.repeatable(),
    );
    insensitive(
        table,
        "dubbed",
        Target::Flag(FlagField::Dubbed),
        r"\bdual[ .-]*(?:au?$|[a]udio|line)\b",
        plain.repeatable(),
    );
    insensitive(
        table,
        "dubbed",
        Target::Flag(FlagField::Dubbed),
        r"\bdual\b(?![ .-]*sub)",
        plain.repeatable(),
    );
    insensitive(
        table,
        "dubbed",
        Target::Flag(FlagField::Dubbed),
        r"\b(fan\s?dub)\b",
        plain.removing().outside_title(),
    );
    insensitive(
        table,
        "dubbed",
        Target::Flag(FlagField::Dubbed),
        r"\b(Fan.*)?(?:DUBBED|dublado|dubbing|DUBS?)\b",
        plain.removing(),
    );
    insensitive(
        table,
        "dubbed",
        Target::Flag(FlagField::Dubbed),
        r"\b(?!.*\bsub(s|bed)?\b)([ _\-\[(\.])?(dual|multi)([ _\-\[(\.])?(audio)?\b",
        plain.removing(),
    );
    insensitive(
        table,
        "dubbed",
        Target::Flag(FlagField::Dubbed),
        r"\b(JAP?(anese)?|ZH)\+ENG?(lish)?|ENG?(lish)?\+(JAP?(anese)?|ZH)\b",
        plain.removing(),
    );
    list(table, "group", Plan::DropOverlappingGroup);
    insensitive(
        table,
        "3d",
        Target::Flag(FlagField::Is3d),
        r"(?<=\b[12]\d{3}\b).*\b(3d|sbs|half[ .-]ou|half[ .-]sbs)\b",
        plain.only_first(),
    );
    insensitive(
        table,
        "3d",
        Target::Flag(FlagField::Is3d),
        r"\b((Half.)?SBS|HSBS)\b",
        plain.only_first(),
    );
    insensitive(table, "3d", Target::Flag(FlagField::Is3d), r"\bBluRay3D\b", plain.only_first());
    insensitive(table, "3d", Target::Flag(FlagField::Is3d), r"\bBD3D\b", plain.only_first());
    insensitive(table, "3d", Target::Flag(FlagField::Is3d), r"\b3D\b", plain.only_first());
    insensitive(
        table,
        "size",
        Target::Text(TextField::Size, TextTransform::Identity),
        r"\b(\d+(\.\d+)?\s?(MB|GB|TB))\b",
        plain.removing(),
    );
    insensitive(
        table,
        "site",
        fixed(TextField::Site, "$1"),
        r"\[([^\]]+\.[^\]]+)\](?=\.\w{2,4}$|\s)",
        plain.removing().outside_title(),
    );
    insensitive(
        table,
        "site",
        fixed(TextField::Site, "$1"),
        r"\bwww\.\w*\.\w+\b",
        plain.removing(),
    );
}

/// Networks, file extensions and a late audio format.
pub open spec fn network_rules(before: Seq<HandlerView>) -> Seq<HandlerView> {
    let plain = plain_options();
    before
        .push(
            rule_view(
                "network"@,
                fixed_view(TextField::Network, "Apple TV"@),
                r"\bATVP?\b"@,
                true,
                plain.removing(),
            ),
        )
        .push(
            rule_view(
                "network"@,
                fixed_view(TextField::Network, "Amazon"@),
                r"\bAMZN\b"@,
                true,
                plain.removing(),
            ),
        )
        .push(
            rule_view(
                "network"@,
                fixed_view(TextField::Network, "Netflix"@),
                r"\bNF|Netflix\b"@,
                true,
                plain.removing(),
            ),
        )
        .push(
            rule_view(
                "network"@,
                fixed_view(TextField::Network, "Nickelodeon"@),
                r"\bNICK(elodeon)?\b"@,
                true,
                plain.removing(),
            ),
        )
        .push(
            rule_view(
                "network"@,
                fixed_view(TextField::Network, "Disney"@),
                r"\bDSNY?P?\b"@,
                true,
                plain.removing(),
            ),
        )
        .push(
            rule_view(
                "network"@,
                fixed_view(TextField::Network, "HBO"@),
                r"\bH(MAX|BO)\b"@,
                true,
                plain.removing(),
            ),
        )
        .push(
            rule_view(
                "network"@,
                fixed_view(TextField::Network, "Hulu"@),
                r"\bHULU\b"@,
                true,
                plain.removing(),
            ),
        )
        .push(
            rule_view(
                "network"@,
                fixed_view(TextField::Network, "CBS"@),
                r"\bCBS\b"@,
                true,
                plain.removing(),
            ),
        )
        .push(
            rule_view(
                "network"@,
                fixed_view(TextField::Network, "NBC"@),
                r"\bNBC\b"@,
                true,
                plain.removing(),
            ),
        )
        .push(
            rule_view(
                "network"@,
                fixed_view(TextField::Network, "AMC"@),
                r"\bAMC\b"@,
                true,
                plain.removing(),
            ),
        )
        .push(
            rule_view(
                "network"@,
                fixed_view(TextField::Network, "PBS"@),
                r"\bPBS\b"@,
                true,
                plain.removing(),
            ),
        )
        .push(
            rule_view(
                "network"@,
                fixed_view(TextField::Network, "Crunchyroll"@),
                r"\b(Crunchyroll|[. -]CR[. -])\b"@,
                true,
                plain.removing(),
            ),
        )
        .push(
            rule_view(
                "network"@,
                fixed_view(TextField::Network, "VICE"@),
                r"\bVICE\b"@,
                true,
                plain.removing(),
            ),
        )
        .push(
            rule_view(
                "network"@,
                fixed_view(TextField::Network, "Sony"@),
                r"\bSony\b"@,
                true,
                plain.removing(),
            ),
        )
        .push(
            rule_view(
                "network"@,
                fixed_view(TextField::Network, "Hallmark"@),
                r"\bHallmark\b"@,
                true,
                plain.removing(),
            ),
        )
        .push(
            rule_view(
                "network"@,
                fixed_view(TextField::Network, "Adult Swim"@),
                r"\bAdult.?Swim\b"@,
                true,
                plain.removing(),
            ),
        )
        .push(
            rule_view(
                "network"@,
                fixed_view(TextField::Network, "Animal Planet"@),
                r"\bAnimal.?Planet|ANPL\b"@,
                true,
                plain.removing(),
            ),
        )
        .push(
            rule_view(
                "extension"@,
                TargetView::Text(TextField::Extension, TextTransformView::Lowercase),
                r"\.(3g2|3gp|avi|flv|mkv|mk3d|mov|mp2|mp4|m4v|mpe|mpeg|mpg|mpv|webm|wmv|ogm|divx|ts|m2ts|iso|vob|sub|idx|ttxt|txt|smi|srt|ssa|ass|vtt|nfo|html)$"@,
                true,
                plain,
            ),
        )
        .push(
            rule_view(
                "audio"@,
                listed_view(ListField::Audio, "mp3"@),
                r"\bMP3\b"@,
                true,
                plain.removing().repeatable(),
            ),
        )
}

/// Lists the part of the table for: networks, file extensions and a late audio format.
#[verifier::rlimit(50)]
fn list_network_rules(table: &mut Vec<Recipe>)
    ensures
        handlers_of(final(table)@) == network_rules(handlers_of(old(table)@)),
{
    let plain = RegexHandlerOptions::default();
    insensitive(
        table,
        "network",
        fixed(TextField::Network, "Apple TV"),
        r"\bATVP?\b",
        plain.removing(),
    );
    insensitive(
        table,
        "network",
        fixed(TextField::Network, "Amazon"),
        r"\bAMZN\b",
        plain.removing(),
    );
    insensitive(
        table,
        "network",
        fixed(TextField::Network, "Netflix"),
        r"\bNF|Netflix\b",
        plain.removing(),
    );
    insensitive(
        table,
        "network",
        fixed(TextField::Network, "Nickelodeon"),
        r"\bNICK(elodeon)?\b",
        plain.removing(),
    );
    insensitive(
        table,
        "network",
        fixed(TextField::Network, "Disney"),
        r"\bDSNY?P?\b",
        plain.removing(),
    );
    insensitive(
        table,
        "network",
        fixed(TextField::Network, "HBO"),
        r"\bH(MAX|BO)\b",
        plain.removing(),
    );
    insensitive(
        table,
        "network",
        fixed(TextField::Network, "Hulu"),
        r"\bHULU\b",
        plain.removing(),
    );
    insensitive(table, "network", fixed(TextField::Network, "CBS"), r"\bCBS\b", plain.removing());
    insensitive(table, "network", fixed(TextField::Network, "NBC"), r"\bNBC\b", plain.removing());
    insensitive(table, "network", fixed(TextField::Network, "AMC"), r"\bAMC\b", plain.removing());
    insensitive(table, "network", fixed(TextField::Network, "PBS"), r"\bPBS\b", plain.removing());
    insensitive(
        table,
        "network",
        fixed(TextField::Network, "Crunchyroll"),
        r"\b(Crunchyroll|[. -]CR[. -])\b",
        plain.removing(),
    );
    insensitive(
        table,
        "network",
        fixed(TextField::Network, "VICE"),
        r"\bVICE\b",
        plain.removing(),
    );
    insensitive(
        table,
        "network",
        fixed(TextField::Network, "Sony"),
        r"\bSony\b",
        plain.removing(),
    );
    insensitive(
        table,
        "network",
        fixed(TextField::Network, "Hallmark"),
        r"\bHallmark\b",
        plain.removing(),
    );
    insensitive(
        table,
        "network",
        fixed(TextField::Network, "Adult Swim"),
        r"\bAdult.?Swim\b",
        plain.removing(),
    );
    insensitive(
        table,
        "network",
        fixed(TextField::Network, "Animal Planet"),
        r"\bAnimal.?Planet|ANPL\b",
        plain.removing(),
    );
    insensitive(
        table,
        "extension",
        Target::Text(TextField::Extension, TextTransform::Lowercase),
        r"\.(3g2|3gp|avi|flv|mkv|mk3d|mov|mp2|mp4|m4v|mpe|mpeg|mpg|mpv|webm|wmv|ogm|divx|ts|m2ts|iso|vob|sub|idx|ttxt|txt|smi|srt|ssa|ass|vtt|nfo|html)$",
        plain,
    );
    insensitive(
        table,
        "audio",
        listed(ListField::Audio, "mp3"),
        r"\bMP3\b",
        plain.removing().repeatable(),
    );
}

/// Groups once more, and text that never belongs to a title.
pub open spec fn closing_rules(before: Seq<HandlerView>) -> Seq<HandlerView> {
    let plain = plain_options();
    before
        .push(
            rule_view(
                "group"@,
                TargetView::Text(TextField::Group, TextTransformView::Identity),
                r"\(([\w-]+)\)(?:$|\.\w{2,4}$)"@,
                false,
                plain,
            ),
        )
        .push(
            rule_view(
                "group"@,
                fixed_view(TextField::Group, "$1"@),
                r"\b(INFLATE|DEFLATE)\b"@,
                false,
                plain.removing(),
            ),
        )
        .push(
            rule_view(
                "group"@,
                fixed_view(TextField::Group, "Erai-raws"@),
                r"\b(?:Erai-raws|Erai-raws\.com)\b"@,
                true,
                plain.removing(),
            ),
        )
        .push(
            rule_view(
                "group"@,
                TargetView::Text(TextField::Group, TextTransformView::Identity),
                r"^\[([^[\]]+)]"@,
                false,
                plain,
            ),
        )
        .push(handler_view("group"@, ActionView::DropEmptyGroup))
        .push(
            rule_view(
                "trash"@,
                TargetView::Flag(FlagField::Trash),
                r"acesse o original"@,
                true,
                plain.removing(),
            ),
        )
        .push(
            rule_view(
                "title"@,
                TargetView::Title,
                r"\b100[ .-]*years?[ .-]*quest\b"@,
                true,
                plain.removing(),
            ),
        )
        .push(
            rule_view(
                "title"@,
                TargetView::Title,
                r"\b(?:INTEGRALE?|INTGRALE?|INTERNAL|HFR)\b"@,
                true,
                plain.removing(),
            ),
        )
        .push(
            rule_view(
                "title"@,
                TargetView::Title,
                r"(?<=[a-z])[\u00c0-\u00ff]{2,}(?![a-z\u00c0-\u00ff])"@,
                true,
                plain.removing().outside_title(),
            ),
        )
}

/// Lists the part of the table for: groups once more, and text that never belongs to a title.
#[verifier::rlimit(50)]
fn list_closing_rules(table: &mut Vec<Recipe>)
    ensures
        handlers_of(final(table)@) == closing_rules(handlers_of(old(table)@)),
{
    let plain = RegexHandlerOptions::default();
    sensitive(
        table,
        "group",
        Target::Text(TextField::Group, TextTransform::Identity),
        r"\(([\w-]+)\)(?:$|\.\w{2,4}$)",
        plain,
    );
    sensitive(
        table,
        "group",
        fixed(TextField::Group, "$1"),
        r"\b(INFLATE|DEFLATE)\b",
        plain.removing(),
    );
    insensitive(
        table,
        "group",
        fixed(TextField::Group, "Erai-raws"),
        r"\b(?:Erai-raws|Erai-raws\.com)\b",
        plain.removing(),
    );
    sensitive(
        table,
        "group",
        Target::Text(TextField::Group, TextTransform::Identity),
        r"^\[([^[\]]+)]",
        plain,
    );
    list(table, "group", Plan::DropEmptyGroup);
    insensitive(
        table,
        "trash",
        Target::Flag(FlagField::Trash),
        r"acesse o original",
        plain.removing(),
    );
    insensitive(
        table,
        "title",
        Target::Title,
        r"\b100[ .-]*years?[ .-]*quest\b",
        plain.removing(),
    );
    insensitive(
        table,
        "title",
        Target::Title,
        r"\b(?:INTEGRALE?|INTGRALE?|INTERNAL|HFR)\b",
        plain.removing(),
    );
    insensitive(
        table,
        "title",
        Target::Title,
        r"(?<=[a-z])[\u00c0-\u00ff]{2,}(?![a-z\u00c0-\u00ff])",
        plain.removing().outside_title(),
    );
}

/// The handlers of `before`, followed by the default table.
pub open spec fn default_handlers_after(before: Seq<HandlerView>) -> Seq<HandlerView> {
    let table = opening_rules(before);
    let table = resolution_rules(table);
    let table = trash_rules(table);
    let table = date_rules(table);
    let table = edition_rules(table);
    let table = release_flag_rules(table);
    let table = quality_rules(table);
    let table = more_quality_rules(table);
    let table = video_rules(table);
    let table = channel_rules(table);
    let table = audio_rules(table);
    let table = complete_rules(table);
    let table = season_rules(table);
    let table = more_season_rules(table);
    let table = episode_rules(table);
    let table = more_episode_rules(table);
    let table = language_rules(table);
    let table = second_language_rules(table);
    let table = third_language_rules(table);
    let table = fourth_language_rules(table);
    let table = fifth_language_rules(table);
    let table = sixth_language_rules(table);
    let table = last_language_rules(table);
    let table = subtitle_rules(table);
    let table = network_rules(table);
    let table = closing_rules(table);
    table
}

/// The default table.
pub open spec fn default_handlers() -> Seq<HandlerView> {
    default_handlers_after(Seq::empty())
}

/// The recipes of the default table.
pub fn default_recipes() -> (r: Vec<Recipe>)
    ensures
        handlers_of(r@) == default_handlers(),
{
    let mut table: Vec<Recipe> = Vec::new();
    proof {
        assert(handlers_of(table@) =~= Seq::<HandlerView>::empty());
    }
    list_opening_rules(&mut table);
    list_resolution_rules(&mut table);
    list_trash_rules(&mut table);
    list_date_rules(&mut table);
    list_edition_rules(&mut table);
    list_release_flag_rules(&mut table);
    list_quality_rules(&mut table);
    list_more_quality_rules(&mut table);
    list_video_rules(&mut table);
    list_channel_rules(&mut table);
    list_audio_rules(&mut table);
    list_complete_rules(&mut table);
    list_season_rules(&mut table);
    list_more_season_rules(&mut table);
    list_episode_rules(&mut table);
    list_more_episode_rules(&mut table);
    list_language_rules(&mut table);
    list_second_language_rules(&mut table);
    list_third_language_rules(&mut table);
    list_fourth_language_rules(&mut table);
    list_fifth_language_rules(&mut table);
    list_sixth_language_rules(&mut table);
    list_last_language_rules(&mut table);
    list_subtitle_rules(&mut table);
    list_network_rules(&mut table);
    list_closing_rules(&mut table);
    table
}

/// Adds the default table behind the handlers the parser has. Stops at the
/// first pattern that the pattern engine refuses and fails with it.
pub fn add_default_handlers(parser: &mut Parser) -> (r: Result<(), ParserError>)
    ensures
        r.is_ok() == first_refused_in(default_handlers()).is_none(),
        r.is_ok() ==> final(parser)@ == old(parser)@ + default_handlers(),
        r matches Err(ParserError::ParseError(p)) ==> first_refused_in(default_handlers())
            == Some(p@),
        kept(old(parser)@, final(parser)@),
{
    let recipes = default_recipes();
    add_handlers(parser, &recipes)
}

} // verus!
