//! Extraction of structured release metadata from free-text release names.
//!
//! A [`Parser`] holds an ordered list of handlers. Parsing applies them in
//! order to a working copy of the release name; each accepted match may record
//! a value, excise its text and pull the end of the title leftwards. What
//! remains left of that boundary is normalised into the title.

pub mod handler_wrapper;
pub mod handlers;
pub mod ledger;
pub mod matching;
pub mod parser;
pub mod record;
pub mod text;
pub mod transforms;
pub mod types;

pub use parser::Parser;
pub use record::{ParsedTitle, Record};
pub use types::{Codec, FlagField, Language, ListField, NumbersField, TextField};

use vstd::prelude::*;

verus! {

/// Why a title could not be parsed.
#[derive(Debug)]
pub enum ParserError {
    /// A pattern of the rule table was refused by the pattern engine; the
    /// text is that pattern.
    ParseError(String),
}

impl ParserError {
    /// What went wrong, in a few words.
    pub fn message(&self) -> (r: &'static str)
        ensures
            r@ == "Failed to parse title"@,
    {
        "Failed to parse title"
    }
}

/// Parses a release name with the default table of handlers.
///
/// Fails only where the pattern engine refuses a pattern of the table, with
/// the first pattern of the table that it refuses.
pub fn parse_title(raw_title: &str) -> (r: Result<ParsedTitle, ParserError>)
    ensures
        r.is_ok() == handlers::first_refused_in(handlers::default_handlers()).is_none(),
        r matches Ok(title) ==> title@ == parser::parsed_by(
            handlers::default_handlers(),
            raw_title@,
        ),
        r matches Err(ParserError::ParseError(p)) ==> handlers::first_refused_in(
            handlers::default_handlers(),
        ) == Some(p@),
{
    let mut parser = Parser::new();
    match handlers::add_default_handlers(&mut parser) {
        Ok(()) => {
            proof {
                assert(parser@ =~= handlers::default_handlers());
            }
            parser.parse(raw_title)
        },
        Err(e) => Err(e),
    }
}

} // verus!
