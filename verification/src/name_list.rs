//! Lists of names in lexicographic order, each name once.

use crate::text::{
    lemma_lex_le_antisymmetric, lemma_lex_le_reflexive, lemma_lex_le_total,
    lemma_lex_le_transitive, lex_le, lex_lt, str_le, strictly_sorted, texts,
};
use vstd::prelude::*;

verus! {

/// A list of names in strictly ascending lexicographic order: no name
/// occurs twice.
pub struct NameList {
    names: Vec<String>,
}

impl View for NameList {
    type V = Seq<Seq<char>>;

    closed spec fn view(&self) -> Seq<Seq<char>> {
        texts(self.names@)
    }
}

impl NameList {
    #[verifier::type_invariant]
    spec fn ascending(&self) -> bool {
        strictly_sorted(texts(self.names@))
    }

    /// Makes a list that holds no name.
    pub fn new() -> (list: NameList)
        ensures
            list@ == Seq::<Seq<char>>::empty(),
    {
        let list = NameList { names: Vec::new() };
        assert(list@ =~= Seq::<Seq<char>>::empty());
        list
    }

    /// Decides whether the list holds `name`.
    pub fn contains(&self, name: &str) -> (held: bool)
        ensures
            held == self@.contains(name@),
            strictly_sorted(self@),
    {
        proof {
            use_type_invariant(self);
        }
        contains_sorted(&self.names, name)
    }

    /// Adds `name` at its place in the order, unless the list holds it
    /// already. Returns whether the name was added.
    pub fn insert(&mut self, name: &str) -> (added: bool)
        ensures
            strictly_sorted(final(self)@),
            added == !old(self)@.contains(name@),
            !added ==> final(self)@ == old(self)@,
            final(self)@.to_set() == old(self)@.to_set().insert(name@),
    {
        proof {
            use_type_invariant(&*self);
        }
        let mut names: Vec<String> = Vec::new();
        assert(texts(names@) =~= Seq::<Seq<char>>::empty());
        std::mem::swap(&mut self.names, &mut names);
        let added = insert_sorted(&mut names, name);
        self.names = names;
        added
    }

    /// The names, in order.
    pub fn names(&self) -> (names: &Vec<String>)
        ensures
            texts(names@) == self@,
            strictly_sorted(self@),
    {
        proof {
            use_type_invariant(self);
        }
        &self.names
    }
}

/// Finds where `name` stands, or would stand, in a strictly sorted list: the
/// first position whose text is not before `name`.
fn find_sorted(names: &Vec<String>, name: &str) -> (at: usize)
    requires
        strictly_sorted(texts(names@)),
    ensures
        at <= names@.len(),
        forall|j: int| 0 <= j < at ==> lex_lt(#[trigger] texts(names@)[j], name@),
        forall|j: int| at < j < names@.len() ==> lex_lt(name@, #[trigger] texts(names@)[j]),
        at < names@.len() ==> lex_le(name@, texts(names@)[at as int]),
        texts(names@).contains(name@) <==> at < names@.len() && texts(names@)[at as int] == name@,
{
    let mut at: usize = 0;
    while at < names.len() && !str_le(name, names[at].as_str())
        invariant
            at <= names@.len(),
            forall|j: int| 0 <= j < at ==> lex_lt(#[trigger] texts(names@)[j], name@),
        decreases names@.len() - at,
    {
        proof {
            lemma_lex_le_total(name@, texts(names@)[at as int]);
            lemma_lex_le_reflexive(name@);
        }
        at = at + 1;
    }
    proof {
        let held = texts(names@);
        assert forall|j: int| at < j < held.len() implies lex_lt(name@, #[trigger] held[j]) by {
            assert(lex_lt(held[at as int], held[j]));
            lemma_lex_le_transitive(name@, held[at as int], held[j]);
            if name@ == held[j] {
                lemma_lex_le_antisymmetric(held[at as int], held[j]);
            }
        }
        if held.contains(name@) {
            let k = choose|k: int| 0 <= k < held.len() && held[k] == name@;
            assert(k == at);
        }
    }
    at
}

/// Decides whether a strictly sorted list holds `name`.
fn contains_sorted(names: &Vec<String>, name: &str) -> (held: bool)
    requires
        strictly_sorted(texts(names@)),
    ensures
        held == texts(names@).contains(name@),
{
    let at = find_sorted(names, name);
    if at < names.len() {
        let wanted = String::from_str(name);
        names[at] == wanted
    } else {
        false
    }
}

/// Adds `name` to a strictly sorted list, at its place in the order, unless
/// the list holds it already. Returns whether the name was added.
fn insert_sorted(names: &mut Vec<String>, name: &str) -> (added: bool)
    requires
        strictly_sorted(texts(old(names)@)),
    ensures
        strictly_sorted(texts(final(names)@)),
        added == !texts(old(names)@).contains(name@),
        !added ==> final(names)@ == old(names)@,
        texts(final(names)@).to_set() == texts(old(names)@).to_set().insert(name@),
{
    let at = find_sorted(names, name);
    let wanted = String::from_str(name);
    let ghost before = texts(names@);
    if at < names.len() && names[at] == wanted {
        proof {
            assert(before.to_set() =~= before.to_set().insert(name@));
        }
        false
    } else {
        names.insert(at, wanted);
        proof {
            let now = texts(names@);
            assert(now =~= before.insert(at as int, name@));
            assert forall|i: int, j: int| 0 <= i < j < now.len() implies lex_lt(
                #[trigger] now[i],
                #[trigger] now[j],
            ) by {
                if j < at {
                    assert(now[i] == before[i] && now[j] == before[j]);
                } else if j == at {
                    assert(now[i] == before[i]);
                } else if i < at {
                    assert(now[i] == before[i] && now[j] == before[j - 1]);
                } else if i == at {
                    assert(now[j] == before[j - 1]);
                    if j - 1 == at {
                        assert(lex_le(name@, before[at as int]));
                    }
                } else {
                    assert(now[i] == before[i - 1] && now[j] == before[j - 1]);
                }
            }
            assert forall|text: Seq<char>| #[trigger]
                now.to_set().contains(text) == before.to_set().insert(name@).contains(text) by {
                if before.contains(text) {
                    let k = choose|k: int| 0 <= k < before.len() && before[k] == text;
                    if k < at {
                        assert(now[k] == text);
                    } else {
                        assert(now[k + 1] == text);
                    }
                }
                if text == name@ {
                    assert(now[at as int] == text);
                }
                if now.contains(text) {
                    let k = choose|k: int| 0 <= k < now.len() && now[k] == text;
                    if k < at {
                        assert(before[k] == text);
                    } else if k > at {
                        assert(before[k - 1] == text);
                    }
                }
            }
            assert(now.to_set() =~= before.to_set().insert(name@));
        }
        true
    }
}

} // verus!
