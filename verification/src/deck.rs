//! Deck: a name-keyed collection of deck records with a defined, sorted,
//! stable iteration order, and the assembler that expands it into
//! ordered, replicated front/back card sequences.
//!
//! Entries are kept strictly sorted by name in lexicographic order, so
//! downstream output is deterministic across repeated runs on identical
//! input. The assembler appends, per entry in that order, a fixed number
//! of consecutive copies of the entry's front to one sequence and of its
//! back to another, keeping the two sequences positionally aligned: the
//! faces at one index always belong to the same physical card copy.

use vstd::prelude::*;
use vstd::arithmetic::div_mod::lemma_fundamental_div_mod_converse_div;
use crate::loader::{DeckRecord, DeckRecordView, front_view, back_view};
use crate::model::AnimalCard;
use crate::order::{lex_lt, str_lt, lemma_lex_trans, lemma_lex_total};

verus! {

/// How many copies of each card one deck run produces.
pub const REPLICATION: usize = 5;

/// One named deck entry.
#[derive(Debug)]
pub struct DeckEntry {
    pub name: String,
    pub record: DeckRecord,
}

/// Mathematical image of a [`DeckEntry`].
pub struct DeckEntryView {
    pub name: Seq<char>,
    pub record: DeckRecordView,
}

impl View for DeckEntry {
    type V = DeckEntryView;

    open spec fn view(&self) -> DeckEntryView {
        DeckEntryView { name: self.name@, record: self.record@ }
    }
}

/// Where a new entry lands in an entry sequence sorted by name: before
/// the first entry whose name is not smaller, replacing that entry when
/// the names are equal.
pub open spec fn insert_entry(s: Seq<DeckEntryView>, e: DeckEntryView) -> Seq<DeckEntryView>
    decreases s.len(),
{
    if s.len() == 0 {
        seq![e]
    } else if lex_lt(s[0].name, e.name) {
        seq![s[0]] + insert_entry(s.drop_first(), e)
    } else if s[0].name == e.name {
        seq![e] + s.drop_first()
    } else {
        seq![e] + s
    }
}

/// A deck: records keyed by name, iterated strictly in lexicographic
/// name order.
#[derive(Debug)]
pub struct Deck {
    entries: Vec<DeckEntry>,
}

impl View for Deck {
    type V = Seq<DeckEntryView>;

    closed spec fn view(&self) -> Seq<DeckEntryView> {
        self.entries@.map_values(|e: DeckEntry| e@)
    }
}

/// `insert_entry` lands at the first position whose name is not smaller
/// than the new entry's, as a plain update, insertion or append there.
proof fn lemma_insert_entry_at(s: Seq<DeckEntryView>, e: DeckEntryView, i: int)
    requires
        0 <= i <= s.len(),
        forall|j: int| 0 <= j < i ==> lex_lt(s[j].name, e.name),
        i < s.len() ==> !lex_lt(s[i].name, e.name),
    ensures
        i == s.len() ==> insert_entry(s, e) == s + seq![e],
        i < s.len() && s[i].name == e.name ==> insert_entry(s, e) == s.update(i, e),
        i < s.len() && s[i].name != e.name ==> insert_entry(s, e) == s.insert(i, e),
    decreases i,
{
    if i == 0 {
        if s.len() == 0 {
            assert(insert_entry(s, e) =~= s + seq![e]);
        } else if s[0].name == e.name {
            assert(insert_entry(s, e) =~= s.update(0, e));
        } else {
            assert(insert_entry(s, e) =~= s.insert(0, e));
        }
    } else {
        let d = s.drop_first();
        assert(lex_lt(s[0].name, e.name));
        lemma_insert_entry_at(d, e, i - 1);
        assert(insert_entry(s, e) == seq![s[0]] + insert_entry(d, e));
        if i == s.len() {
            assert(seq![s[0]] + (d + seq![e]) =~= s + seq![e]);
        } else if s[i].name == e.name {
            assert(d[i - 1] == s[i]);
            assert(seq![s[0]] + d.update(i - 1, e) =~= s.update(i, e));
        } else {
            assert(d[i - 1] == s[i]);
            assert(seq![s[0]] + d.insert(i - 1, e) =~= s.insert(i, e));
        }
    }
}

impl Deck {
    /// The entries are strictly sorted by name, so names are unique and
    /// iteration order is exactly the lexicographic order of the names.
    pub open spec fn wf(&self) -> bool {
        forall|i: int, j: int|
            0 <= i < j < self@.len() ==> lex_lt(self@[i].name, self@[j].name)
    }

    /// An empty deck.
    pub fn new() -> (d: Deck)
        ensures
            d@ == Seq::<DeckEntryView>::empty(),
            d.wf(),
    {
        let d = Deck { entries: Vec::new() };
        proof {
            assert(d@ =~= Seq::<DeckEntryView>::empty());
        }
        d
    }

    pub fn len(&self) -> (n: usize)
        ensures
            n == self@.len(),
    {
        self.entries.len()
    }

    pub fn get(&self, i: usize) -> (e: &DeckEntry)
        requires
            i < self@.len(),
        ensures
            e@ == self@[i as int],
    {
        &self.entries[i]
    }

    /// First index whose name is not lexicographically smaller than
    /// `name`; the length when every name is smaller.
    fn find_pos(&self, name: &str) -> (i: usize)
        ensures
            i <= self@.len(),
            forall|j: int| 0 <= j < i ==> lex_lt(self@[j].name, name@),
            i < self@.len() ==> !lex_lt(self@[i as int].name, name@),
    {
        let n = self.entries.len();
        let mut i: usize = 0;
        while i < n
            invariant
                n == self@.len(),
                i <= n,
                forall|j: int| 0 <= j < i ==> lex_lt(self@[j].name, name@),
            decreases n - i,
        {
            if !str_lt(self.entries[i].name.as_str(), name) {
                return i;
            }
            i = i + 1;
        }
        i
    }

    /// Put `record` under `name`, keeping the entries sorted: an entry
    /// with the same name is replaced, otherwise the new entry lands at
    /// its sorted position.
    pub fn insert(&mut self, name: String, record: DeckRecord)
        requires
            old(self).wf(),
        ensures
            final(self).wf(),
            final(self)@ == insert_entry(
                old(self)@,
                DeckEntryView { name: name@, record: record@ },
            ),
    {
        let ghost s = self@;
        let ghost e = DeckEntryView { name: name@, record: record@ };
        let i = self.find_pos(name.as_str());
        proof {
            lemma_insert_entry_at(s, e, i as int);
        }
        let replace = i < self.entries.len() && self.entries[i].name == name;
        if replace {
            self.entries.set(i, DeckEntry { name, record });
            proof {
                assert(self@ =~= s.update(i as int, e));
            }
        } else {
            proof {
                if i < s.len() {
                    lemma_lex_total(s[i as int].name, e.name);
                    assert(lex_lt(e.name, s[i as int].name));
                }
            }
            self.entries.insert(i, DeckEntry { name, record });
            proof {
                assert(self@ =~= s.insert(i as int, e));
                if i == s.len() {
                    assert(s.insert(i as int, e) =~= s + seq![e]);
                }
                s.insert_ensures(i as int, e);
                assert forall|p: int, q: int|
                    0 <= p < q < self@.len() implies lex_lt(self@[p].name, self@[q].name) by {
                    if q < i {
                        assert(lex_lt(s[p].name, s[q].name));
                    } else if q == i {
                        assert(lex_lt(s[p].name, e.name));
                    } else if p < i {
                        assert(lex_lt(s[p].name, s[q - 1].name));
                    } else if p == i {
                        if q - 1 > i {
                            assert(lex_lt(s[i as int].name, s[q - 1].name));
                            lemma_lex_trans(e.name, s[i as int].name, s[q - 1].name);
                        }
                    } else {
                        assert(lex_lt(s[p - 1].name, s[q - 1].name));
                    }
                }
            }
        }
    }

    /// Expand the deck into positionally aligned front and back card
    /// sequences: per entry, in sorted order, `copies` consecutive
    /// duplicates of its front and of its back.
    pub fn assemble(&self, rel: &str, copies: usize) -> (r: (Vec<AnimalCard>, Vec<AnimalCard>))
        ensures
            r.0@.len() == self@.len() * copies,
            r.1@.len() == self@.len() * copies,
            forall|i: int|
                0 <= i < r.0@.len() ==> r.0@[i]@ == front_view(
                    self@[i / (copies as int)].record,
                    rel@,
                ) && r.1@[i]@ == back_view(self@[i / (copies as int)].record, rel@),
    {
        let n = self.entries.len();
        let mut fronts: Vec<AnimalCard> = Vec::new();
        let mut backs: Vec<AnimalCard> = Vec::new();
        let mut j: usize = 0;
        while j < n
            invariant
                n == self@.len(),
                j <= n,
                fronts@.len() == j * copies,
                backs@.len() == j * copies,
                forall|i: int|
                    0 <= i < fronts@.len() ==> fronts@[i]@ == front_view(
                        self@[i / (copies as int)].record,
                        rel@,
                    ) && backs@[i]@ == back_view(self@[i / (copies as int)].record, rel@),
            decreases n - j,
        {
            let (f, b) = self.entries[j].record.split(rel);
            let mut c: usize = 0;
            while c < copies
                invariant
                    n == self@.len(),
                    j < n,
                    c <= copies,
                    fronts@.len() == j * copies + c,
                    backs@.len() == j * copies + c,
                    f@ == front_view(self@[j as int].record, rel@),
                    b@ == back_view(self@[j as int].record, rel@),
                    forall|i: int|
                        0 <= i < fronts@.len() ==> fronts@[i]@ == front_view(
                            self@[i / (copies as int)].record,
                            rel@,
                        ) && backs@[i]@ == back_view(self@[i / (copies as int)].record, rel@),
                decreases copies - c,
            {
                proof {
                    lemma_fundamental_div_mod_converse_div(
                        j * copies + c,
                        copies as int,
                        j as int,
                        c as int,
                    );
                }
                fronts.push(f.clone());
                backs.push(b.clone());
                c = c + 1;
            }
            proof {
                assert((j as int + 1) * (copies as int) == j as int * (copies as int)
                    + copies as int) by (nonlinear_arith);
            }
            j = j + 1;
        }
        (fronts, backs)
    }
}

} // verus!
