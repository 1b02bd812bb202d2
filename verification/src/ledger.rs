//! The ledger of one parse: for each handler name that has matched so far,
//! the text it matched and the byte offset at which it did.
//!
//! Offsets refer to the working title as it was when the match was made; a
//! later removal to the left of an offset leaves it stale.

use crate::text::same;
use vstd::prelude::*;

verus! {

/// What a handler matched, and where.
#[derive(Debug)]
pub struct Match {
    pub raw_match: String,
    pub match_index: usize,
}

/// The content of a [`Match`].
pub struct MatchView {
    pub raw_match: Seq<char>,
    pub match_index: usize,
}

impl View for Match {
    type V = MatchView;

    open spec fn view(&self) -> MatchView {
        MatchView { raw_match: self.raw_match@, match_index: self.match_index }
    }
}

/// One line of the ledger.
#[derive(Debug)]
pub struct LedgerEntry {
    pub name: String,
    pub found: Match,
}

/// The content of a ledger: its lines in the order in which the names first matched.
pub type Lines = Seq<(Seq<char>, MatchView)>;

/// The match recorded under `name`, if there is one.
pub open spec fn lookup(lines: Lines, name: Seq<char>) -> Option<MatchView>
    decreases lines.len(),
{
    if lines.len() == 0 {
        None
    } else if lines[0].0 == name {
        Some(lines[0].1)
    } else {
        lookup(lines.drop_first(), name)
    }
}

/// The position of the line for `name`, or the number of lines if there is none.
pub open spec fn position(lines: Lines, name: Seq<char>) -> int
    decreases lines.len(),
{
    if lines.len() == 0 {
        0
    } else if lines[0].0 == name {
        0
    } else {
        1 + position(lines.drop_first(), name)
    }
}

/// The lines with `found` recorded under `name`: in place of the line the name
/// had, or as a new last line.
pub open spec fn recorded(lines: Lines, name: Seq<char>, found: MatchView) -> Lines {
    let at = position(lines, name);
    if at < lines.len() {
        lines.update(at, (name, found))
    } else {
        lines.push((name, found))
    }
}

/// Whether `start` lies before the offset of every line but that of `name`.
pub open spec fn precedes_others(lines: Lines, name: Seq<char>, start: usize) -> bool {
    forall|i: int|
        0 <= i < lines.len() && (#[trigger] lines[i]).0 != name ==> start < lines[i].1.match_index
}

/// Whether a line other than that of `name` has an offset before `start + len`.
pub open spec fn other_before(lines: Lines, name: Seq<char>, start: usize, len: usize) -> bool {
    exists|i: int|
        0 <= i < lines.len() && (#[trigger] lines[i]).0 != name && lines[i].1.match_index < start
            + len
}

/// No name has two lines.
pub open spec fn distinct(lines: Lines) -> bool {
    forall|i: int, j: int|
        0 <= i < j < lines.len() ==> (#[trigger] lines[i]).0 != (#[trigger] lines[j]).0
}

/// `position` finds the first line of a name, and only a line of that name.
pub proof fn lemma_position(lines: Lines, name: Seq<char>)
    ensures
        0 <= position(lines, name) <= lines.len(),
        position(lines, name) < lines.len() ==> lines[position(lines, name)].0 == name,
        forall|i: int| 0 <= i < position(lines, name) ==> (#[trigger] lines[i]).0 != name,
        lookup(lines, name) == if position(lines, name) < lines.len() {
            Some(lines[position(lines, name)].1)
        } else {
            None
        },
    decreases lines.len(),
{
    if lines.len() > 0 && lines[0].0 != name {
        let rest = lines.drop_first();
        lemma_position(rest, name);
        assert forall|i: int| 0 <= i < position(lines, name) implies (#[trigger] lines[i]).0
            != name by {
            if i > 0 {
                assert(lines[i] == rest[i - 1]);
            }
        }
    }
}

/// Recording keeps the names distinct, and the recorded match is then found.
pub proof fn lemma_recorded(lines: Lines, name: Seq<char>, found: MatchView)
    requires
        distinct(lines),
    ensures
        distinct(recorded(lines, name, found)),
        lookup(recorded(lines, name, found), name) == Some(found),
{
    lemma_position(lines, name);
    let after = recorded(lines, name, found);
    lemma_position(after, name);
    let at = position(lines, name);
    assert(after[at] == (name, found));
    if position(after, name) < at {
        assert(after[position(after, name)] == lines[position(after, name)]);
    }
}

/// The ledger of one parse.
#[derive(Debug)]
pub struct MatchLedger {
    pub entries: Vec<LedgerEntry>,
}

impl View for MatchLedger {
    type V = Lines;

    open spec fn view(&self) -> Lines {
        Seq::new(self.entries@.len(), |i: int| (self.entries@[i].name@, self.entries@[i].found@))
    }
}

impl MatchLedger {
    /// No name has two lines.
    pub open spec fn wf(&self) -> bool {
        distinct(self@)
    }

    /// The ledger without lines.
    pub fn new() -> (r: MatchLedger)
        ensures
            r@ == Lines::empty(),
            r.wf(),
    {
        let r = MatchLedger { entries: Vec::new() };
        proof {
            assert(r@ =~= Lines::empty());
        }
        r
    }

    /// The position of the line for `name`, or the number of lines.
    fn find(&self, name: &str) -> (at: usize)
        ensures
            at == position(self@, name@),
            at <= self.entries@.len(),
    {
        let mut i: usize = 0;
        proof {
            assert(self@.subrange(0, self@.len() as int) =~= self@);
        }
        while i < self.entries.len()
            invariant
                i <= self.entries@.len(),
                position(self@, name@) == i + position(
                    self@.subrange(i as int, self@.len() as int),
                    name@,
                ),
            decreases self.entries@.len() - i,
        {
            let ghost rest = self@.subrange(i as int, self@.len() as int);
            proof {
                assert(rest[0] == self@[i as int]);
                assert(rest.drop_first() =~= self@.subrange(i + 1, self@.len() as int));
            }
            if same(self.entries[i].name.as_str(), name) {
                return i;
            }
            i = i + 1;
        }
        i
    }

    /// The match recorded under `name`.
    pub fn get(&self, name: &str) -> (r: Option<&Match>)
        ensures
            match r {
                Some(m) => lookup(self@, name@) == Some(m@),
                None => lookup(self@, name@).is_none(),
            },
    {
        let at = self.find(name);
        proof {
            lemma_position(self@, name@);
        }
        if at < self.entries.len() {
            Some(&self.entries[at].found)
        } else {
            None
        }
    }

    /// Records `found` under `name`, in place of what the name had.
    pub fn insert(&mut self, name: &str, found: Match)
        requires
            old(self).wf(),
        ensures
            final(self)@ == recorded(old(self)@, name@, found@),
            final(self).wf(),
    {
        let at = self.find(name);
        let entry = LedgerEntry { name: name.to_owned(), found };
        proof {
            lemma_recorded(self@, name@, found@);
        }
        if at < self.entries.len() {
            self.entries.set(at, entry);
            proof {
                assert(self@ =~= recorded(old(self)@, name@, found@));
            }
        } else {
            self.entries.push(entry);
            proof {
                assert(self@ =~= recorded(old(self)@, name@, found@));
            }
        }
    }

    /// Whether `start` lies before the offset of every line but that of `name`.
    pub fn precedes_others(&self, name: &str, start: usize) -> (r: bool)
        ensures
            r == precedes_others(self@, name@, start),
    {
        let mut i: usize = 0;
        while i < self.entries.len()
            invariant
                i <= self.entries@.len(),
                forall|j: int|
                    0 <= j < i && (#[trigger] self@[j]).0 != name@ ==> start
                        < self@[j].1.match_index,
            decreases self.entries@.len() - i,
        {
            if !same(self.entries[i].name.as_str(), name) && self.entries[i].found.match_index
                <= start {
                proof {
                    assert(self@[i as int].0 != name@);
                }
                return false;
            }
            i = i + 1;
        }
        true
    }

    /// Whether a line other than that of `name` has an offset before `start + len`.
    pub fn other_before(&self, name: &str, start: usize, len: usize) -> (r: bool)
        ensures
            r == other_before(self@, name@, start, len),
    {
        let mut i: usize = 0;
        while i < self.entries.len()
            invariant
                i <= self.entries@.len(),
                forall|j: int|
                    0 <= j < i && (#[trigger] self@[j]).0 != name@ ==> self@[j].1.match_index
                        >= start + len,
            decreases self.entries@.len() - i,
        {
            let at = self.entries[i].found.match_index;
            if !same(self.entries[i].name.as_str(), name) && (at < start || at - start < len) {
                proof {
                    assert(self@[i as int].0 != name@ && self@[i as int].1.match_index < start
                        + len);
                }
                return true;
            }
            i = i + 1;
        }
        false
    }
}

} // verus!
