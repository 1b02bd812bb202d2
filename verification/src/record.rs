//! The record a parse fills in, and its mathematical content.

use crate::types::codec::Codec;
use crate::types::field::{FlagField, ListField, NumbersField, TextField};
use crate::types::language::Language;
use vstd::array::*;
use vstd::prelude::*;

verus! {

/// The view of an optional text.
pub open spec fn text_view(t: Option<String>) -> Option<Seq<char>> {
    match t {
        Some(s) => Some(s@),
        None => None,
    }
}

/// The texts of a list, in order.
#[verifier::opaque]
pub open spec fn list_view(v: Vec<String>) -> Seq<Seq<char>> {
    v.deep_view()
}

/// A list view has the list's length and holds the view of each text.
pub proof fn lemma_list_view(v: Vec<String>)
    ensures
        list_view(v).len() == v@.len(),
        forall|i: int| 0 <= i < v@.len() ==> #[trigger] list_view(v)[i] == v@[i]@,
{
    reveal(list_view);
}

/// The mathematical content of a parse result: the four special fields, and
/// for each kind of field a total map from the field to its value.
pub struct Record {
    pub title: Seq<char>,
    pub year: Option<i32>,
    pub codec: Option<Codec>,
    pub languages: Seq<Language>,
    pub texts: Map<TextField, Option<Seq<char>>>,
    pub flags: Map<FlagField, bool>,
    pub lists: Map<ListField, Seq<Seq<char>>>,
    pub numbers: Map<NumbersField, Seq<i32>>,
}

impl Record {
    /// The record in which nothing is set.
    pub open spec fn empty() -> Record {
        Record {
            title: Seq::empty(),
            year: None,
            codec: None,
            languages: Seq::empty(),
            texts: Map::total(|f: TextField| None),
            flags: Map::total(|f: FlagField| false),
            lists: Map::total(|f: ListField| Seq::empty()),
            numbers: Map::total(|f: NumbersField| Seq::empty()),
        }
    }

    /// Every field has a value.
    pub open spec fn total(self) -> bool {
        &&& forall|f: TextField| self.texts.contains_key(f)
        &&& forall|f: FlagField| self.flags.contains_key(f)
        &&& forall|f: ListField| self.lists.contains_key(f)
        &&& forall|f: NumbersField| self.numbers.contains_key(f)
    }

    /// This record with `v` as its title.
    pub open spec fn with_title(self, v: Seq<char>) -> Record {
        Record { title: v, ..self }
    }

    /// This record with `v` as its year.
    pub open spec fn with_year(self, v: Option<i32>) -> Record {
        Record { year: v, ..self }
    }

    /// This record with `v` as its codec.
    pub open spec fn with_codec(self, v: Option<Codec>) -> Record {
        Record { codec: v, ..self }
    }

    /// This record with `v` as its languages.
    pub open spec fn with_languages(self, v: Seq<Language>) -> Record {
        Record { languages: v, ..self }
    }

    /// This record with `v` in the text field `f`.
    pub open spec fn with_text(self, f: TextField, v: Option<Seq<char>>) -> Record {
        Record { texts: self.texts.insert(f, v), ..self }
    }

    /// This record with `v` in the flag `f`.
    pub open spec fn with_flag(self, f: FlagField, v: bool) -> Record {
        Record { flags: self.flags.insert(f, v), ..self }
    }

    /// This record with `v` in the list field `f`.
    pub open spec fn with_list(self, f: ListField, v: Seq<Seq<char>>) -> Record {
        Record { lists: self.lists.insert(f, v), ..self }
    }

    /// This record with `v` in the number list `f`.
    pub open spec fn with_numbers(self, f: NumbersField, v: Seq<i32>) -> Record {
        Record { numbers: self.numbers.insert(f, v), ..self }
    }
}

/// Everything a release name was found to announce: the title, the year, the
/// codec and the languages, and one slot for each field of each kind.
#[derive(Debug, Clone, PartialEq)]
pub struct ParsedTitle {
    title: String,
    year: Option<i32>,
    codec: Option<Codec>,
    languages: Vec<Language>,
    texts: [Option<String>; 15],
    flags: [bool; 18],
    lists: [Vec<String>; 4],
    numbers: [Vec<i32>; 3],
}

impl View for ParsedTitle {
    type V = Record;

    closed spec fn view(&self) -> Record {
        Record {
            title: self.title@,
            year: self.year,
            codec: self.codec,
            languages: self.languages@,
            texts: Map::total(|f: TextField| text_view(self.texts@[f.ordinal() as int])),
            flags: Map::total(|f: FlagField| self.flags@[f.ordinal() as int]),
            lists: Map::total(|f: ListField| list_view(self.lists@[f.ordinal() as int])),
            numbers: Map::total(|f: NumbersField| self.numbers@[f.ordinal() as int]@),
        }
    }
}

impl ParsedTitle {
    /// Every field of the view has a value.
    pub proof fn lemma_total(self)
        ensures
            self@.total(),
    {
    }

    /// The title.
    pub fn title(&self) -> (r: &String)
        ensures
            r@ == self@.title,
    {
        &self.title
    }

    /// Stores `v` as the title and leaves every other field as it was.
    pub fn set_title(&mut self, v: String)
        ensures
            final(self)@ == old(self)@.with_title(v@),
    {
        self.title = v;
    }

    /// The year.
    pub fn year(&self) -> (r: Option<i32>)
        ensures
            r == self@.year,
    {
        self.year
    }

    /// Stores `v` as the year and leaves every other field as it was.
    pub fn set_year(&mut self, v: Option<i32>)
        ensures
            final(self)@ == old(self)@.with_year(v),
    {
        self.year = v;
    }

    /// The codec.
    pub fn codec(&self) -> (r: Option<Codec>)
        ensures
            r == self@.codec,
    {
        self.codec
    }

    /// Stores `v` as the codec and leaves every other field as it was.
    pub fn set_codec(&mut self, v: Option<Codec>)
        ensures
            final(self)@ == old(self)@.with_codec(v),
    {
        self.codec = v;
    }

    /// The languages.
    pub fn languages(&self) -> (r: &Vec<Language>)
        ensures
            r@ == self@.languages,
    {
        &self.languages
    }

    /// Stores `v` as the languages and leaves every other field as it was.
    pub fn set_languages(&mut self, v: Vec<Language>)
        ensures
            final(self)@ == old(self)@.with_languages(v@),
    {
        self.languages = v;
    }

    /// The record in which nothing is set.
    pub fn new() -> (r: ParsedTitle)
        ensures
            r@ == Record::empty(),
    {
        let r = ParsedTitle {
            title: String::new(),
            year: None,
            codec: None,
            languages: Vec::new(),
            texts: [
                None, None, None, None, None, None, None, None, None, None, None, None, None, None, None,
            ],
            flags: [false, false, false, false, false, false, false, false, false, false, false, false, false, false, false, false, false, false],
            lists: [Vec::new(), Vec::new(), Vec::new(), Vec::new()],
            numbers: [Vec::new(), Vec::new(), Vec::new()],
        };
        proof {
            assert forall|f: ListField| list_view(r.lists@[f.ordinal() as int]) == Seq::<Seq<char>>::empty() by {
                lemma_list_view(r.lists@[f.ordinal() as int]);
                assert(list_view(r.lists@[f.ordinal() as int]) =~= Seq::<Seq<char>>::empty());
            }
            assert(r@.texts =~= Record::empty().texts);
            assert(r@.flags =~= Record::empty().flags);
            assert(r@.lists =~= Record::empty().lists);
            assert(r@.numbers =~= Record::empty().numbers);
        }
        r
    }

    /// The text field `f`.
    pub fn text(&self, f: TextField) -> (r: &Option<String>)
        ensures
            text_view(*r) == self@.texts[f],
    {
        &self.texts[f.index()]
    }

    /// Stores `v` in the text field `f` and leaves every other field as it was.
    pub fn set_text(&mut self, f: TextField, v: Option<String>)
        ensures
            final(self)@ == old(self)@.with_text(f, text_view(v)),
    {
        self.texts[f.index()] = v;
        proof {
            assert(self@.texts =~= old(self)@.texts.insert(f, text_view(v)));
            assert(self@.flags =~= old(self)@.flags);
            assert(self@.lists =~= old(self)@.lists);
            assert(self@.numbers =~= old(self)@.numbers);
        }
    }

    /// The flag `f`.
    pub fn flag(&self, f: FlagField) -> (r: bool)
        ensures
            r == self@.flags[f],
    {
        self.flags[f.index()]
    }

    /// Stores `v` in the flag `f` and leaves every other field as it was.
    pub fn set_flag(&mut self, f: FlagField, v: bool)
        ensures
            final(self)@ == old(self)@.with_flag(f, v),
    {
        self.flags[f.index()] = v;
        proof {
            assert(self@.texts =~= old(self)@.texts);
            assert(self@.flags =~= old(self)@.flags.insert(f, v));
            assert(self@.lists =~= old(self)@.lists);
            assert(self@.numbers =~= old(self)@.numbers);
        }
    }

    /// The list field `f`.
    pub fn list(&self, f: ListField) -> (r: &Vec<String>)
        ensures
            list_view(*r) == self@.lists[f],
    {
        &self.lists[f.index()]
    }

    /// Stores `v` in the list field `f` and leaves every other field as it was.
    pub fn set_list(&mut self, f: ListField, v: Vec<String>)
        ensures
            final(self)@ == old(self)@.with_list(f, list_view(v)),
    {
        self.lists[f.index()] = v;
        proof {
            assert(self@.texts =~= old(self)@.texts);
            assert(self@.flags =~= old(self)@.flags);
            assert(self@.lists =~= old(self)@.lists.insert(f, list_view(v)));
            assert(self@.numbers =~= old(self)@.numbers);
        }
    }

    /// The number list `f`.
    pub fn numbers(&self, f: NumbersField) -> (r: &Vec<i32>)
        ensures
            r@ == self@.numbers[f],
    {
        &self.numbers[f.index()]
    }

    /// Stores `v` in the number list `f` and leaves every other field as it was.
    pub fn set_numbers(&mut self, f: NumbersField, v: Vec<i32>)
        ensures
            final(self)@ == old(self)@.with_numbers(f, v@),
    {
        self.numbers[f.index()] = v;
        proof {
            assert(self@.texts =~= old(self)@.texts);
            assert(self@.flags =~= old(self)@.flags);
            assert(self@.lists =~= old(self)@.lists);
            assert(self@.numbers =~= old(self)@.numbers.insert(f, v@));
        }
    }
}

/// A copy of an optional text.
pub fn clone_text(t: &Option<String>) -> (r: Option<String>)
    ensures
        text_view(r) == text_view(*t),
{
    match t {
        Some(s) => Some(s.clone()),
        None => None,
    }
}

/// A copy of a list of texts.
pub fn clone_list(v: &Vec<String>) -> (r: Vec<String>)
    ensures
        list_view(r) == list_view(*v),
{
    let mut r: Vec<String> = Vec::new();
    let mut i: usize = 0;
    while i < v.len()
        invariant
            i <= v@.len(),
            r@.len() == i,
            forall|j: int| 0 <= j < i ==> r@[j]@ == v@[j]@,
        decreases v@.len() - i,
    {
        r.push(v[i].clone());
        i = i + 1;
    }
    proof {
        lemma_list_view(r);
        lemma_list_view(*v);
        assert(list_view(r) =~= list_view(*v));
    }
    r
}

/// A copy of a list of plain values.
pub fn clone_values<T: Copy>(v: &Vec<T>) -> (r: Vec<T>)
    ensures
        r@ == v@,
{
    let mut r: Vec<T> = Vec::new();
    let mut i: usize = 0;
    while i < v.len()
        invariant
            i <= v@.len(),
            r@ == v@.subrange(0, i as int),
        decreases v@.len() - i,
    {
        r.push(v[i]);
        proof {
            assert(r@ =~= v@.subrange(0, i + 1));
        }
        i = i + 1;
    }
    proof {
        assert(v@.subrange(0, i as int) =~= v@);
    }
    r
}

impl Default for ParsedTitle {
    /// The title in which nothing is set.
    fn default() -> (r: ParsedTitle)
        ensures
            r@ == Record::empty(),
    {
        ParsedTitle::new()
    }
}

} // verus!
