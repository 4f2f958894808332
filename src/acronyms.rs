//! The acronym registry: uppercase tokens of two or more characters that
//! acronym-aware case styles render verbatim.
use vstd::prelude::*;
use crate::inflect::{trimmed_of, upper_of, trim_whitespace, uppercase};
use crate::text::{
    split_on, join_with, lex_lt, lemma_lex_transitive, lemma_lex_total,
    lex_less, split_chars, join_strings,
};

verus! {

/// A token of a configuration string as the registry keeps it: trimmed and
/// uppercased.
pub open spec fn normalized(piece: Seq<char>) -> Seq<char> {
    upper_of(trimmed_of(piece))
}

/// The acronyms that the comma-separated `pieces` declare: each normalized,
/// those shorter than two characters dropped, duplicates collapsed.
pub open spec fn declared(pieces: Seq<Seq<char>>) -> Set<Seq<char>>
    decreases pieces.len(),
{
    if pieces.len() == 0 {
        Set::empty()
    } else {
        let rest = declared(pieces.drop_last());
        let t = normalized(pieces.last());
        if t.len() >= 2 {
            rest.insert(t)
        } else {
            rest
        }
    }
}

/// The acronyms that a configuration string declares.
pub open spec fn parse_acronyms(csv: Seq<char>) -> Set<Seq<char>> {
    declared(split_on(csv, ','))
}

/// Every element strictly before every later one.
pub open spec fn strictly_sorted(s: Seq<Seq<char>>) -> bool {
    forall|i: int, j: int| 0 <= i < j < s.len() ==> lex_lt(#[trigger] s[i], #[trigger] s[j])
}

/// The set of acronyms, kept as a sorted vector without duplicates.
pub struct AcronymSet {
    items: Vec<String>,
}

impl View for AcronymSet {
    type V = Seq<Seq<char>>;

    closed spec fn view(&self) -> Seq<Seq<char>> {
        self.items@.map_values(|s: String| s@)
    }
}

impl AcronymSet {
    /// The acronyms, in ascending order, each of at least two characters.
    pub open spec fn wf(&self) -> bool {
        &&& strictly_sorted(self@)
        &&& forall|i: int| 0 <= i < self@.len() ==> (#[trigger] self@[i]).len() >= 2
    }

    /// The acronyms as a set.
    pub open spec fn members(&self) -> Set<Seq<char>> {
        self@.to_set()
    }

    /// An empty registry.
    pub fn new() -> (r: AcronymSet)
        ensures
            r.wf(),
            r@ == Seq::<Seq<char>>::empty(),
    {
        let r = AcronymSet { items: Vec::new() };
        proof {
            assert(r@ =~= Seq::<Seq<char>>::empty());
        }
        r
    }

    /// No acronym is registered.
    pub fn is_empty(&self) -> (r: bool)
        ensures
            r == (self@.len() == 0),
    {
        self.items.len() == 0
    }

    /// `token` is one of the acronyms, compared exactly.
    pub fn contains(&self, token: &str) -> (r: bool)
        ensures
            r == self.members().contains(token@),
    {
        let wanted = String::from_str(token);
        let mut i: usize = 0;
        while i < self.items.len()
            invariant
                i <= self@.len(),
                self@.len() == self.items@.len(),
                wanted@ == token@,
                forall|k: int| 0 <= k < i ==> self@[k] != token@,
            decreases self.items@.len() - i,
        {
            if self.items[i] == wanted {
                proof {
                    assert(self@[i as int] == token@);
                    assert(self@.contains(token@));
                }
                return true;
            }
            i = i + 1;
        }
        proof {
            if self@.contains(token@) {
                let k = choose|k: int| 0 <= k < self@.len() && self@[k] == token@;
                assert(self@[k] == token@);
            }
        }
        false
    }

    /// Adds `token`, keeping the order; nothing changes if it is there.
    fn insert(&mut self, token: String)
        requires
            old(self).wf(),
            token@.len() >= 2,
        ensures
            final(self).wf(),
            final(self).members() == old(self).members().insert(token@),
    {
        let mut k: usize = 0;
        while k < self.items.len() && lex_less(self.items[k].as_str(), token.as_str())
            invariant
                k <= self@.len(),
                self@.len() == self.items@.len(),
                forall|i: int| 0 <= i < k ==> lex_lt(#[trigger] self@[i], token@),
            decreases self.items@.len() - k,
        {
            k = k + 1;
        }
        if k < self.items.len() && self.items[k] == token {
            proof {
                assert(self@[k as int] == token@);
                assert(self@.to_set().insert(token@) =~= self@.to_set());
            }
            return;
        }
        let ghost before = self@;
        proof {
            if k < before.len() {
                assert(!lex_lt(before[k as int], token@));
                lemma_lex_total(before[k as int], token@);
                assert(lex_lt(token@, before[k as int]));
            }
        }
        self.items.insert(k, token);
        proof {
            assert(self@ =~= before.insert(k as int, token@));
            assert forall|i: int, j: int| 0 <= i < j < self@.len() implies lex_lt(
                #[trigger] self@[i],
                #[trigger] self@[j],
            ) by {
                if j == k {
                } else if i == k {
                    if j - 1 > k {
                        lemma_lex_transitive(token@, before[k as int], before[j - 1]);
                    }
                } else if i < k && j > k {
                    if j - 1 > k {
                        lemma_lex_transitive(token@, before[k as int], before[j - 1]);
                    }
                    lemma_lex_transitive(before[i], token@, before[j - 1]);
                } else if i > k {
                    assert(lex_lt(before[i - 1], before[j - 1]));
                }
            }
            assert(self@.to_set() =~= before.to_set().insert(token@)) by {
                assert forall|x: Seq<char>| self@.to_set().contains(x) implies before.to_set().insert(
                    token@,
                ).contains(x) by {
                    let i = choose|i: int| 0 <= i < self@.len() && self@[i] == x;
                    if i < k {
                        assert(before[i] == x);
                    } else if i > k {
                        assert(before[i - 1] == x);
                    }
                }
                assert forall|x: Seq<char>| before.to_set().insert(token@).contains(x) implies self@.to_set().contains(
                    x,
                ) by {
                    if x == token@ {
                        assert(self@[k as int] == x);
                    } else {
                        let i = choose|i: int| 0 <= i < before.len() && before[i] == x;
                        if i < k {
                            assert(self@[i] == x);
                        } else {
                            assert(self@[i + 1] == x);
                        }
                    }
                }
            }
        }
    }

    /// Replaces the whole registry by the acronyms that `csv` declares: its
    /// comma-separated tokens, trimmed and uppercased, those shorter than two
    /// characters dropped. An absent configuration changes nothing.
    pub fn set_acronyms(&mut self, csv: Option<&str>)
        requires
            old(self).wf(),
        ensures
            final(self).wf(),
            csv is None ==> *final(self) == *old(self),
            csv is Some ==> final(self).members() == parse_acronyms(csv->0@),
    {
        match csv {
            None => {},
            Some(text) => {
                let pieces = split_chars(text, ',');
                let ghost views = pieces@.map_values(|p: String| p@);
                let mut fresh = AcronymSet::new();
                let mut i: usize = 0;
                proof {
                    assert(fresh@.to_set() =~= Set::<Seq<char>>::empty());
                    assert(views.take(0) =~= Seq::<Seq<char>>::empty());
                }
                while i < pieces.len()
                    invariant
                        i <= pieces@.len(),
                        views == pieces@.map_values(|p: String| p@),
                        fresh.wf(),
                        fresh.members() == declared(views.take(i as int)),
                    decreases pieces@.len() - i,
                {
                    let token = uppercase(trim_whitespace(pieces[i].as_str()));
                    proof {
                        assert(views.take(i + 1).drop_last() =~= views.take(i as int));
                    }
                    if token.as_str().unicode_len() >= 2 {
                        fresh.insert(token);
                    }
                    i = i + 1;
                }
                proof {
                    assert(views.take(pieces@.len() as int) =~= views);
                }
                *self = fresh;
            },
        }
    }

    /// The acronyms in ascending order, joined with commas.
    pub fn get_acronyms(&self) -> (r: String)
        ensures
            r@ == join_with(self@, seq![',']),
    {
        proof {
            reveal_strlit(",");
            assert(","@ =~= seq![',']);
        }
        join_strings(&self.items, ",")
    }

    /// Empties the registry.
    pub fn clear_acronyms(&mut self)
        ensures
            final(self).wf(),
            final(self)@ == Seq::<Seq<char>>::empty(),
    {
        *self = AcronymSet::new();
    }
}

} // verus!
