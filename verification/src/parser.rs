//! The parser: an ordered list of handlers, applied one after another to a
//! working copy of the release name.
//!
//! Every accepted match may cut its text out of the working title and may pull
//! the end of the title leftwards. What lies left of that end once all
//! handlers have run is cleaned up and becomes the title.

use crate::handler_wrapper::{
    lemma_gated_rule_keeps_set_fields, lemma_rule_writes_its_field, result_view, ActionView,
    ContextView, Handler, HandlerContext, HandlerResult, HandlerResultView, HandlerView, Step,
};
use crate::ledger::{Lines, MatchLedger};
use crate::matching::{substitute, substituted, GroupMatch};
use crate::record::{ParsedTitle, Record};
use crate::text::{
    boundary_floor, byte_len, byte_slice, contained, contains, count_ascii, count_byte, cut,
    floor_to_boundary, lemma_boundary_floor, lemma_trim_idempotent, len_bytes, on_boundary,
    replace, replaced, slice, trim, trimmed, without_bytes,
};
use crate::types::field::{FlagField, TextField};
use crate::ParserError;
use vstd::prelude::*;
use vstd::utf8::*;

verus! {

/// One kind of bracket stripped from a text in which it does not balance.
pub open spec fn unpaired_stripped(
    s: Seq<char>,
    open: u8,
    close: u8,
    open_text: Seq<char>,
    close_text: Seq<char>,
) -> Seq<char> {
    if count_byte(encode_utf8(s), open) != count_byte(encode_utf8(s), close) {
        replaced(replaced(s, open_text, ""@), close_text, ""@)
    } else {
        s
    }
}

/// Dots turned into spaces in a text that has dots and no space.
pub open spec fn dots_spaced(s: Seq<char>) -> Seq<char> {
    if !contained(s, " "@) && contained(s, "."@) {
        replaced(s, "."@, " "@)
    } else {
        s
    }
}

/// How many passes the clean-up makes.
pub open spec fn cleanup_passes() -> int {
    19
}

/// What one pass of the clean-up makes of a text. In order:
/// 0. underscores become spaces;
/// 1. a bracketed "movie" marker goes;
/// 2. what may not open a title goes, and what may not close it;
/// 3. a closing cast list in Cyrillic goes, and a closing parenthesis after a slash;
/// 4. a banner in brackets or stars before the title goes;
/// 5. a banner in brackets or stars after the title goes;
/// 6. alternative titles in another script, set off by a slash or a bar, go;
/// 7. a stretch that mixes Latin letters with another script on both sides goes;
/// 8. what still may not open a title goes, and a closing square bracket;
/// 9. brackets around nothing but white space go;
/// 10. a closing "mp3" goes;
/// 11. brackets around nothing that belongs to a word go;
/// 12. curly brackets go where they do not balance;
/// 13. square brackets go where they do not balance;
/// 14. parentheses go where they do not balance;
/// 15. dots become spaces where there are dots and no space;
/// 16. punctuation and spaces that close the title go;
/// 17. runs of white space become one space;
/// 18. white space at either end goes.
pub open spec fn cleanup_pass(k: int, s: Seq<char>) -> Seq<char> {
    if k == 0 {
        replaced(s, "_"@, " "@)
    } else if k == 1 {
        substituted("[\\[\\(]movie[\\)\\]]"@, s, ""@)
    } else if k == 2 {
        substituted("^[^\\w\\u3040-\\u30ff\\u3400-\\u4dbf\\u4e00-\\u9fff\\uf900-\\ufaff\\uff66-\\uff9f\\u0400-\\u04ff\\u0600-\\u06ff\\u0750-\\u077f\\u0c80-\\u0cff\\u0d00-\\u0d7f\\u0e00-\\u0e7f#\\[\\u3010\\u2605]+|[ \\-:/\\\\\\[\\|{(#$&^]+$"@, s, ""@)
    } else if k == 3 {
        substituted("\\([^)]*[\\u0400-\\u04ff][^)]*\\)$|/[^/]*\\([^)]*\\)$"@, s, ""@)
    } else if k == 4 {
        substituted("^[\\[\\u3010\\u2605].*[\\]\\u3011\\u2605][ \\.]?(.+)"@, s, "${1}"@)
    } else if k == 5 {
        substituted("(.+)[ \\.]?[\\[\\u3010\\u2605].*[\\]\\u3011\\u2605]$"@, s, "${1}"@)
    } else if k == 6 {
        substituted("[^/|(]*[\\u3040-\\u30ff\\u3400-\\u4dbf\\u4e00-\\u9fff\\uf900-\\ufaff\\uff66-\\uff9f\\u0400-\\u04ff\\u0600-\\u06ff\\u0750-\\u077f\\u0c80-\\u0cff\\u0d00-\\u0d7f\\u0e00-\\u0e7f][^/|]*[/|]|[/|][^/|(]*[\\u3040-\\u30ff\\u3400-\\u4dbf\\u4e00-\\u9fff\\uf900-\\ufaff\\uff66-\\uff9f\\u0400-\\u04ff\\u0600-\\u06ff\\u0750-\\u077f\\u0c80-\\u0cff\\u0d00-\\u0d7f\\u0e00-\\u0e7f][^/|]*"@, s, ""@)
    } else if k == 7 {
        substituted("[a-zA-Z][^\\u3040-\\u30ff\\u3400-\\u4dbf\\u4e00-\\u9fff\\uf900-\\ufaff\\uff66-\\uff9f\\u0400-\\u04ff\\u0600-\\u06ff\\u0750-\\u077f\\u0c80-\\u0cff\\u0d00-\\u0d7f\\u0e00-\\u0e7f]+[\\u3040-\\u30ff\\u3400-\\u4dbf\\u4e00-\\u9fff\\uf900-\\ufaff\\uff66-\\uff9f\\u0400-\\u04ff\\u0600-\\u06ff\\u0750-\\u077f\\u0c80-\\u0cff\\u0d00-\\u0d7f\\u0e00-\\u0e7f].*[\\u3040-\\u30ff\\u3400-\\u4dbf\\u4e00-\\u9fff\\uf900-\\ufaff\\uff66-\\uff9f\\u0400-\\u04ff\\u0600-\\u06ff\\u0750-\\u077f\\u0c80-\\u0cff\\u0d00-\\u0d7f\\u0e00-\\u0e7f]|[\\u3040-\\u30ff\\u3400-\\u4dbf\\u4e00-\\u9fff\\uf900-\\ufaff\\uff66-\\uff9f\\u0400-\\u04ff\\u0600-\\u06ff\\u0750-\\u077f\\u0c80-\\u0cff\\u0d00-\\u0d7f\\u0e00-\\u0e7f].*[\\u3040-\\u30ff\\u3400-\\u4dbf\\u4e00-\\u9fff\\uf900-\\ufaff\\uff66-\\uff9f\\u0400-\\u04ff\\u0600-\\u06ff\\u0750-\\u077f\\u0c80-\\u0cff\\u0d00-\\u0d7f\\u0e00-\\u0e7f][^\\u3040-\\u30ff\\u3400-\\u4dbf\\u4e00-\\u9fff\\uf900-\\ufaff\\uff66-\\uff9f\\u0400-\\u04ff\\u0600-\\u06ff\\u0750-\\u077f\\u0c80-\\u0cff\\u0d00-\\u0d7f\\u0e00-\\u0e7f]+[a-zA-Z]"@, s, ""@)
    } else if k == 8 {
        substituted("^[^\\w\\u3040-\\u30ff\\u3400-\\u4dbf\\u4e00-\\u9fff\\uf900-\\ufaff\\uff66-\\uff9f\\u0400-\\u04ff\\u0600-\\u06ff\\u0750-\\u077f\\u0c80-\\u0cff\\u0d00-\\u0d7f\\u0e00-\\u0e7f#]+|\\]$"@, s, ""@)
    } else if k == 9 {
        substituted("\\(\\s*\\)|\\[\\s*\\]|\\{\\s*\\}"@, s, ""@)
    } else if k == 10 {
        substituted("\\bmp3$"@, s, ""@)
    } else if k == 11 {
        substituted("\\(\\W*\\)|\\[\\W*\\]|\\{\\W*\\}"@, s, ""@)
    } else if k == 12 {
        unpaired_stripped(s, 123, 125, "{"@, "}"@)
    } else if k == 13 {
        unpaired_stripped(s, 91, 93, "["@, "]"@)
    } else if k == 14 {
        unpaired_stripped(s, 40, 41, "("@, ")"@)
    } else if k == 15 {
        dots_spaced(s)
    } else if k == 16 {
        substituted("[ \\-:./\\\\]+$"@, s, ""@)
    } else if k == 17 {
        substituted("\\s+"@, s, " "@)
    } else if k == 18 {
        trimmed(s)
    } else {
        s
    }
}

/// The text after the first `k` passes of the clean-up.
pub open spec fn cleaned_through(k: int, title: Seq<char>) -> Seq<char>
    decreases k,
{
    if k <= 0 {
        title
    } else {
        cleanup_pass(k - 1, cleaned_through(k - 1, title))
    }
}

/// The title that the clean-up makes of the text left of the title's end.
pub open spec fn cleaned(title: Seq<char>) -> Seq<char> {
    cleaned_through(cleanup_passes(), title)
}

/// Whether no pass of the clean-up changes the text.
pub open spec fn at_rest(s: Seq<char>) -> bool {
    forall|k: int| 0 <= k < cleanup_passes() ==> #[trigger] cleanup_pass(k, s) == s
}

/// A text that no pass changes comes out of any number of passes as it went in.
pub proof fn lemma_at_rest_is_fixed(s: Seq<char>, k: int)
    requires
        at_rest(s),
        0 <= k <= cleanup_passes(),
    ensures
        cleaned_through(k, s) == s,
    decreases k,
{
    if k > 0 {
        lemma_at_rest_is_fixed(s, k - 1);
        assert(cleanup_pass(k - 1, s) == s);
    }
}

/// Cleaning a second time changes nothing, for every text whose cleaned form
/// no pass of the clean-up would change.
pub proof fn lemma_cleanup_idempotent_at_rest(s: Seq<char>)
    requires
        at_rest(cleaned(s)),
    ensures
        cleaned(cleaned(s)) == cleaned(s),
{
    lemma_at_rest_is_fixed(cleaned(s), cleanup_passes());
}

/// A cleaned title has no white space at either end: trimming it changes nothing.
pub proof fn lemma_cleaned_is_trimmed(s: Seq<char>)
    ensures
        trimmed(cleaned(s)) == cleaned(s),
{
    lemma_trim_idempotent(cleaned_through(cleanup_passes() - 1, s));
}

/// Strips one kind of bracket from a text in which it does not balance.
fn strip_unpaired(s: String, open: u8, close: u8, open_text: &str, close_text: &str) -> (r: String)
    requires
        open_text@.len() > 0,
        close_text@.len() > 0,
    ensures
        r@ == unpaired_stripped(s@, open, close, open_text@, close_text@),
{
    if count_ascii(s.as_str(), open) != count_ascii(s.as_str(), close) {
        let opened = replace(s.as_str(), open_text, "");
        replace(opened.as_str(), close_text, "")
    } else {
        s
    }
}

/// Turns dots into spaces in a text that has dots and no space.
fn space_dots(s: String) -> (r: String)
    ensures
        r@ == dots_spaced(s@),
{
    proof {
        reveal_strlit(".");
    }
    if !contains(s.as_str(), " ") && contains(s.as_str(), ".") {
        replace(s.as_str(), ".", " ")
    } else {
        s
    }
}

/// How far the parse has come: the context, and the byte offset in the
/// working title at which the title ends.
pub struct EngineState {
    pub context: ContextView,
    pub end_of_title: usize,
}

/// The state made of a context and an end of the title.
pub open spec fn state_of(context: ContextView, end_of_title: usize) -> EngineState {
    EngineState { context, end_of_title }
}

/// The step made of a context and a descriptor.
pub open spec fn step_of(context: ContextView, result: Option<HandlerResultView>) -> Step {
    Step { context, result }
}

/// The state before the first handler: underscores have become spaces,
/// nothing is set or recorded, and the title runs to the end.
pub open spec fn initial(raw_title: Seq<char>) -> EngineState {
    let title = substituted("_+"@, raw_title, " "@);
    EngineState {
        context: ContextView { title, result: Record::empty(), matched: Lines::empty() },
        end_of_title: byte_len(title) as usize,
    }
}

/// The range a descriptor speaks of.
pub open spec fn span_of(d: HandlerResultView) -> GroupMatch {
    GroupMatch {
        start: d.match_index,
        end: (d.match_index + byte_len(d.raw_match)) as usize,
    }
}

/// Whether the parser cuts the descriptor's range out of the title: the
/// descriptor asks for it, and the range lies within the title.
pub open spec fn cuts(title: Seq<char>, d: HandlerResultView) -> bool {
    d.remove && d.match_index + byte_len(d.raw_match) <= usize::MAX && span_of(d).within(title)
}

/// The end of the title after a match that counts towards it: the start of the
/// match, where that lies beyond the first two bytes and before the end.
pub open spec fn pulled(end: usize, d: HandlerResultView) -> usize {
    if !d.skip_from_title && 1 < d.match_index && d.match_index < end {
        d.match_index
    } else {
        end
    }
}

/// The end of the title after a cut that does not count towards it but lies
/// before it: moved left by the length of the cut, and not beyond its start.
pub open spec fn shifted(end: usize, d: HandlerResultView) -> usize {
    if d.skip_from_title && d.match_index < end {
        if end - d.match_index >= byte_len(d.raw_match) {
            (end - byte_len(d.raw_match)) as usize
        } else {
            d.match_index
        }
    } else {
        end
    }
}

/// The state after the parser has acted on one step of a handler.
pub open spec fn advanced(state: EngineState, step: Step) -> EngineState {
    match step.result {
        None => EngineState { context: step.context, end_of_title: state.end_of_title },
        Some(d) => {
            let title = step.context.title;
            let end = pulled(state.end_of_title, d);
            if cuts(title, d) {
                EngineState {
                    context: ContextView {
                        title: without_bytes(title, span_of(d).start as int, span_of(d).end as int),
                        ..step.context
                    },
                    end_of_title: shifted(end, d),
                }
            } else {
                EngineState { context: step.context, end_of_title: end }
            }
        },
    }
}

/// The state after the handlers have run in order.
pub open spec fn run(handlers: Seq<HandlerView>, state: EngineState) -> EngineState
    decreases handlers.len(),
{
    if handlers.len() == 0 {
        state
    } else {
        let before = run(handlers.drop_last(), state);
        advanced(before, handlers.last().step(before.context))
    }
}

/// Where the title is cut: at its end, pulled back to the end of the working
/// title and to a character boundary.
pub open spec fn title_cut(state: EngineState) -> int {
    let title = state.context.title;
    boundary_floor(
        title,
        if state.end_of_title as int <= byte_len(title) {
            state.end_of_title as int
        } else {
            byte_len(title) as int
        },
    )
}

/// The result of a finished parse: what the handlers set, with the cleaned
/// prefix of the working title as the title.
pub open spec fn finished(state: EngineState) -> Record {
    state.context.result.with_title(
        cleaned(byte_slice(state.context.title, 0, title_cut(state))),
    )
}

/// What parsing a release name with the given handlers returns.
pub open spec fn parsed_by(handlers: Seq<HandlerView>, raw_title: Seq<char>) -> Record {
    finished(run(handlers, initial(raw_title)))
}

/// An ordered list of handlers.
pub struct Parser {
    pub handlers: Vec<Handler>,
}

impl View for Parser {
    type V = Seq<HandlerView>;

    open spec fn view(&self) -> Seq<HandlerView> {
        Seq::new(self.handlers@.len(), |i: int| self.handlers@[i]@)
    }
}

impl Parser {
    /// What parsing a release name returns.
    pub open spec fn parsed(&self, raw_title: Seq<char>) -> Record {
        parsed_by(self@, raw_title)
    }

    /// The parser without handlers.
    pub fn new() -> (r: Parser)
        ensures
            r@ == Seq::<HandlerView>::empty(),
    {
        let r = Parser { handlers: Vec::new() };
        proof {
            assert(r@ =~= Seq::<HandlerView>::empty());
        }
        r
    }

    /// Adds a handler behind those the parser has.
    pub fn add_handler(&mut self, handler: Handler)
        ensures
            final(self)@ == old(self)@.push(handler@),
    {
        self.handlers.push(handler);
        proof {
            assert(self@ =~= old(self)@.push(handler@));
        }
    }

    /// Normalises the text left of the title's end into the title.
    pub fn clean_title(&self, title: &str) -> (r: String)
        ensures
            r@ == cleaned(title@),
    {
        proof {
            reveal_strlit("_");
            reveal_strlit("{");
            reveal_strlit("}");
            reveal_strlit("[");
            reveal_strlit("]");
            reveal_strlit("(");
            reveal_strlit(")");
            reveal_strlit(".");
            assert(cleaned_through(0, title@) == title@);
        }
        let s = replace(title, "_", " ");
        assert(s@ == cleaned_through(1, title@));
        let s = substitute("[\\[\\(]movie[\\)\\]]", s.as_str(), "");
        assert(s@ == cleaned_through(2, title@));
        let s = substitute(
            "^[^\\w\\u3040-\\u30ff\\u3400-\\u4dbf\\u4e00-\\u9fff\\uf900-\\ufaff\\uff66-\\uff9f\\u0400-\\u04ff\\u0600-\\u06ff\\u0750-\\u077f\\u0c80-\\u0cff\\u0d00-\\u0d7f\\u0e00-\\u0e7f#\\[\\u3010\\u2605]+|[ \\-:/\\\\\\[\\|{(#$&^]+$",
            s.as_str(),
            "",
        );
        assert(s@ == cleaned_through(3, title@));
        let s = substitute("\\([^)]*[\\u0400-\\u04ff][^)]*\\)$|/[^/]*\\([^)]*\\)$", s.as_str(), "");
        assert(s@ == cleaned_through(4, title@));
        let s = substitute("^[\\[\\u3010\\u2605].*[\\]\\u3011\\u2605][ \\.]?(.+)", s.as_str(), "${1}");
        assert(s@ == cleaned_through(5, title@));
        let s = substitute("(.+)[ \\.]?[\\[\\u3010\\u2605].*[\\]\\u3011\\u2605]$", s.as_str(), "${1}");
        assert(s@ == cleaned_through(6, title@));
        let s = substitute(
            "[^/|(]*[\\u3040-\\u30ff\\u3400-\\u4dbf\\u4e00-\\u9fff\\uf900-\\ufaff\\uff66-\\uff9f\\u0400-\\u04ff\\u0600-\\u06ff\\u0750-\\u077f\\u0c80-\\u0cff\\u0d00-\\u0d7f\\u0e00-\\u0e7f][^/|]*[/|]|[/|][^/|(]*[\\u3040-\\u30ff\\u3400-\\u4dbf\\u4e00-\\u9fff\\uf900-\\ufaff\\uff66-\\uff9f\\u0400-\\u04ff\\u0600-\\u06ff\\u0750-\\u077f\\u0c80-\\u0cff\\u0d00-\\u0d7f\\u0e00-\\u0e7f][^/|]*",
            s.as_str(),
            "",
        );
        assert(s@ == cleaned_through(7, title@));
        let s = substitute(
            "[a-zA-Z][^\\u3040-\\u30ff\\u3400-\\u4dbf\\u4e00-\\u9fff\\uf900-\\ufaff\\uff66-\\uff9f\\u0400-\\u04ff\\u0600-\\u06ff\\u0750-\\u077f\\u0c80-\\u0cff\\u0d00-\\u0d7f\\u0e00-\\u0e7f]+[\\u3040-\\u30ff\\u3400-\\u4dbf\\u4e00-\\u9fff\\uf900-\\ufaff\\uff66-\\uff9f\\u0400-\\u04ff\\u0600-\\u06ff\\u0750-\\u077f\\u0c80-\\u0cff\\u0d00-\\u0d7f\\u0e00-\\u0e7f].*[\\u3040-\\u30ff\\u3400-\\u4dbf\\u4e00-\\u9fff\\uf900-\\ufaff\\uff66-\\uff9f\\u0400-\\u04ff\\u0600-\\u06ff\\u0750-\\u077f\\u0c80-\\u0cff\\u0d00-\\u0d7f\\u0e00-\\u0e7f]|[\\u3040-\\u30ff\\u3400-\\u4dbf\\u4e00-\\u9fff\\uf900-\\ufaff\\uff66-\\uff9f\\u0400-\\u04ff\\u0600-\\u06ff\\u0750-\\u077f\\u0c80-\\u0cff\\u0d00-\\u0d7f\\u0e00-\\u0e7f].*[\\u3040-\\u30ff\\u3400-\\u4dbf\\u4e00-\\u9fff\\uf900-\\ufaff\\uff66-\\uff9f\\u0400-\\u04ff\\u0600-\\u06ff\\u0750-\\u077f\\u0c80-\\u0cff\\u0d00-\\u0d7f\\u0e00-\\u0e7f][^\\u3040-\\u30ff\\u3400-\\u4dbf\\u4e00-\\u9fff\\uf900-\\ufaff\\uff66-\\uff9f\\u0400-\\u04ff\\u0600-\\u06ff\\u0750-\\u077f\\u0c80-\\u0cff\\u0d00-\\u0d7f\\u0e00-\\u0e7f]+[a-zA-Z]",
            s.as_str(),
            "",
        );
        assert(s@ == cleaned_through(8, title@));
        let s = substitute(
            "^[^\\w\\u3040-\\u30ff\\u3400-\\u4dbf\\u4e00-\\u9fff\\uf900-\\ufaff\\uff66-\\uff9f\\u0400-\\u04ff\\u0600-\\u06ff\\u0750-\\u077f\\u0c80-\\u0cff\\u0d00-\\u0d7f\\u0e00-\\u0e7f#]+|\\]$",
            s.as_str(),
            "",
        );
        assert(s@ == cleaned_through(9, title@));
        let s = substitute("\\(\\s*\\)|\\[\\s*\\]|\\{\\s*\\}", s.as_str(), "");
        assert(s@ == cleaned_through(10, title@));
        let s = substitute("\\bmp3$", s.as_str(), "");
        assert(s@ == cleaned_through(11, title@));
        let s = substitute("\\(\\W*\\)|\\[\\W*\\]|\\{\\W*\\}", s.as_str(), "");
        assert(s@ == cleaned_through(12, title@));
        let s = strip_unpaired(s, 123, 125, "{", "}");
        assert(s@ == cleaned_through(13, title@));
        let s = strip_unpaired(s, 91, 93, "[", "]");
        assert(s@ == cleaned_through(14, title@));
        let s = strip_unpaired(s, 40, 41, "(", ")");
        assert(s@ == cleaned_through(15, title@));
        let s = space_dots(s);
        assert(s@ == cleaned_through(16, title@));
        let s = substitute("[ \\-:./\\\\]+$", s.as_str(), "");
        assert(s@ == cleaned_through(17, title@));
        let s = substitute("\\s+", s.as_str(), " ");
        assert(s@ == cleaned_through(18, title@));
        let s = trim(s.as_str()).to_owned();
        assert(s@ == cleaned_through(19, title@));
        s
    }

    /// Acts on what a handler returned: cuts the match out of the working
    /// title where that is asked for, and moves the end of the title.
    pub fn advance(context: &mut HandlerContext, end_of_title: usize, result: Option<
        HandlerResult,
    >) -> (end: usize)
        ensures
            state_of(final(context)@, end) == advanced(
                state_of(old(context)@, end_of_title),
                step_of(old(context)@, result_view(result)),
            ),
            final(context).matched == old(context).matched,
            end <= end_of_title,
    {
        let d = match result {
            Some(d) => d,
            None => {
                return end_of_title;
            },
        };
        let at = d.match_index;
        let len = len_bytes(d.raw_match.as_str());
        let end = if !d.skip_from_title && 1 < at && at < end_of_title {
            at
        } else {
            end_of_title
        };
        if !d.remove || len > usize::MAX - at {
            return end;
        }
        let span = GroupMatch { start: at, end: at + len };
        if !span.fits(context.title.as_str()) {
            return end;
        }
        context.title = cut(context.title.as_str(), at, at + len);
        if d.skip_from_title && at < end {
            if end - at >= len {
                end - len
            } else {
                at
            }
        } else {
            end
        }
    }

    /// Parses a release name. Parsing never fails.
    #[verifier::rlimit(50)]
    pub fn parse(&self, raw_title: &str) -> (r: Result<ParsedTitle, ParserError>)
        ensures
            r matches Ok(title) && title@ == self.parsed(raw_title@),
    {
        let title = substitute("_+", raw_title, " ");
        let mut end_of_title = len_bytes(title.as_str());
        let mut context = HandlerContext {
            title,
            result: ParsedTitle::new(),
            matched: MatchLedger::new(),
        };
        let mut i: usize = 0;
        while i < self.handlers.len()
            invariant
                i <= self.handlers@.len(),
                context.matched.wf(),
                state_of(context@, end_of_title) == run(
                    self@.subrange(0, i as int),
                    initial(raw_title@),
                ),
            decreases self.handlers@.len() - i,
        {
            proof {
                assert(self@.subrange(0, i + 1).drop_last() =~= self@.subrange(0, i as int));
                assert(self@.subrange(0, i + 1).last() == self.handlers@[i as int]@);
            }
            let result = self.handlers[i].call(&mut context);
            end_of_title = Self::advance(&mut context, end_of_title, result);
            i = i + 1;
        }
        proof {
            assert(self@.subrange(0, i as int) =~= self@);
            encode_utf8_valid_utf8(context.title@);
            is_char_boundary_start_end_of_seq(encode_utf8(context.title@));
        }
        let cut_at = floor_to_boundary(context.title.as_str(), end_of_title);
        let prefix = slice(context.title.as_str(), 0, cut_at);
        let cleaned = self.clean_title(prefix);
        let mut result = context.result;
        result.set_title(cleaned);
        Ok(result)
    }
}

/// Acting on a step never moves the end of the title to the right.
pub proof fn lemma_advance_never_grows(state: EngineState, step: Step)
    ensures
        advanced(state, step).end_of_title <= state.end_of_title,
{
}

/// However many handlers run, the end of the title never lies to the right of
/// where it started.
pub proof fn lemma_end_never_grows(handlers: Seq<HandlerView>, state: EngineState)
    ensures
        run(handlers, state).end_of_title <= state.end_of_title,
    decreases handlers.len(),
{
    if handlers.len() > 0 {
        let before = run(handlers.drop_last(), state);
        lemma_end_never_grows(handlers.drop_last(), state);
        lemma_advance_never_grows(before, handlers.last().step(before.context));
    }
}

/// The end of the title after a parse is at most the length of the working
/// title at its start, and the title returned is the clean-up of a prefix of
/// the working title as it stood when the last handler had run, cut at a
/// character boundary that is not beyond that end.
pub proof fn lemma_title_comes_from_prefix(handlers: Seq<HandlerView>, raw_title: Seq<char>)
    ensures
        run(handlers, initial(raw_title)).end_of_title <= initial(raw_title).end_of_title,
        0 <= title_cut(run(handlers, initial(raw_title))) <= run(
            handlers,
            initial(raw_title),
        ).end_of_title,
        on_boundary(
            run(handlers, initial(raw_title)).context.title,
            title_cut(run(handlers, initial(raw_title))),
        ),
        parsed_by(handlers, raw_title).title == cleaned(
            byte_slice(
                run(handlers, initial(raw_title)).context.title,
                0,
                title_cut(run(handlers, initial(raw_title))),
            ),
        ),
{
    let last = run(handlers, initial(raw_title));
    lemma_end_never_grows(handlers, initial(raw_title));
    let bound = if last.end_of_title as int <= byte_len(last.context.title) {
        last.end_of_title as int
    } else {
        byte_len(last.context.title) as int
    };
    lemma_boundary_floor(last.context.title, bound);
}

/// Whether a handler is a pattern rule that does not run once its field holds a value.
pub open spec fn gated(handler: HandlerView) -> bool {
    match handler.action {
        ActionView::Rule(rule) => rule.options.skip_if_already_found,
        _ => false,
    }
}

/// Whether every handler is a pattern rule that does not run once its field
/// holds a value.
pub open spec fn all_gated(handlers: Seq<HandlerView>) -> bool {
    forall|i: int| 0 <= i < handlers.len() ==> gated(#[trigger] handlers[i])
}

/// Parsing with gated pattern rules alone keeps every value once it is set: a
/// text field, the year or the codec that holds a value keeps that value
/// through all rules that follow, and a flag that is raised stays raised.
pub proof fn lemma_set_once(handlers: Seq<HandlerView>, state: EngineState)
    requires
        all_gated(handlers),
        state.context.result.total(),
    ensures
        run(handlers, state).context.result.total(),
        forall|f: TextField|
            state.context.result.texts[f].is_some() ==> run(handlers, state).context.result.texts[f]
                == state.context.result.texts[f],
        state.context.result.year.is_some() ==> run(handlers, state).context.result.year
            == state.context.result.year,
        state.context.result.codec.is_some() ==> run(handlers, state).context.result.codec
            == state.context.result.codec,
        forall|f: FlagField|
            state.context.result.flags[f] ==> run(handlers, state).context.result.flags[f],
    decreases handlers.len(),
{
    if handlers.len() > 0 {
        let front = handlers.drop_last();
        assert forall|i: int| 0 <= i < front.len() implies gated(#[trigger] front[i]) by {
            assert(front[i] == handlers[i]);
        }
        lemma_set_once(front, state);
        let before = run(front, state);
        let handler = handlers.last();
        assert(handler == handlers[handlers.len() - 1]);
        reveal(HandlerView::step);
        match handler.action {
            ActionView::Rule(rule) => {
                lemma_rule_writes_its_field(rule, handler.name, before.context);
                lemma_gated_rule_keeps_set_fields(rule, handler.name, before.context);
            },
            _ => {},
        }
    }
}

} // verus!
