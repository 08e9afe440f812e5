//! A small map from texts to values, kept in the order of first insertion.

use vstd::prelude::*;

verus! {

/// One entry of a [`TextMap`].
struct Entry<V> {
    key: String,
    value: V,
}

/// A map from texts to values.
pub struct TextMap<V> {
    entries: Vec<Entry<V>>,
}

/// The keys of a list of entries, in the same order.
spec fn keys_of<V>(entries: Seq<Entry<V>>) -> Seq<Seq<char>> {
    entries.map_values(|e: Entry<V>| e.key@)
}

/// The position at which `key` first occurs in `keys`, or the length of
/// `keys` where it does not occur.
spec fn position(keys: Seq<Seq<char>>, key: Seq<char>) -> int
    decreases keys.len(),
{
    if keys.len() == 0 {
        0
    } else if keys[0] == key {
        0
    } else {
        1 + position(keys.drop_first(), key)
    }
}

proof fn lemma_position(keys: Seq<Seq<char>>, key: Seq<char>)
    ensures
        0 <= position(keys, key) <= keys.len(),
        position(keys, key) < keys.len() ==> keys[position(keys, key)] == key,
        forall|j: int| 0 <= j < position(keys, key) ==> keys[j] != key,
    decreases keys.len(),
{
    if keys.len() > 0 && keys[0] != key {
        let rest = keys.drop_first();
        lemma_position(rest, key);
        assert forall|j: int| 0 <= j < position(keys, key) implies keys[j] != key by {
            if j > 0 {
                assert(keys[j] == rest[j - 1]);
            }
        }
    }
}

proof fn lemma_position_is_first(keys: Seq<Seq<char>>, key: Seq<char>, at: int)
    requires
        0 <= at <= keys.len(),
        at < keys.len() ==> keys[at] == key,
        forall|j: int| 0 <= j < at ==> keys[j] != key,
    ensures
        position(keys, key) == at,
{
    lemma_position(keys, key);
}

proof fn lemma_position_push(keys: Seq<Seq<char>>, added: Seq<char>, key: Seq<char>)
    ensures
        position(keys.push(added), key) == if position(keys, key) < keys.len() || key == added {
            position(keys, key)
        } else {
            (keys.len() + 1) as int
        },
{
    lemma_position(keys, key);
    lemma_position(keys.push(added), key);
    let at = position(keys, key);
    let longer = keys.push(added);
    assert(forall|j: int| 0 <= j < keys.len() ==> longer[j] == keys[j]);
    if at < keys.len() || key == added {
        lemma_position_is_first(longer, key, at);
    } else {
        lemma_position_is_first(longer, key, (keys.len() + 1) as int);
    }
}

impl<V> View for TextMap<V> {
    type V = Map<Seq<char>, V>;

    closed spec fn view(&self) -> Map<Seq<char>, V> {
        Map::new(
            |key: Seq<char>| position(keys_of(self.entries@), key) < self.entries@.len(),
            |key: Seq<char>| self.entries@[position(keys_of(self.entries@), key)].value,
        )
    }
}

impl<V> TextMap<V> {
    /// Makes a map that holds nothing.
    pub fn new() -> (map: TextMap<V>)
        ensures
            map@ == Map::<Seq<char>, V>::empty(),
    {
        let map = TextMap { entries: Vec::new() };
        assert(map@ =~= Map::<Seq<char>, V>::empty());
        map
    }

    /// Finds where `key` first occurs among the entries.
    fn find(&self, key: &String) -> (at: usize)
        ensures
            at == position(keys_of(self.entries@), key@),
            at <= self.entries@.len(),
    {
        let mut at: usize = 0;
        while at < self.entries.len() && !(self.entries[at].key == *key)
            invariant
                at <= self.entries@.len(),
                forall|j: int| 0 <= j < at ==> keys_of(self.entries@)[j] != key@,
            decreases self.entries@.len() - at,
        {
            at = at + 1;
        }
        proof {
            lemma_position_is_first(keys_of(self.entries@), key@, at as int);
        }
        at
    }

    /// Looks up the value held for `key`.
    pub fn get(&self, key: &str) -> (found: Option<&V>)
        ensures
            found is Some <==> self@.contains_key(key@),
            found matches Some(value) ==> *value == self@[key@],
    {
        let wanted = String::from_str(key);
        let at = self.find(&wanted);
        if at < self.entries.len() {
            Some(&self.entries[at].value)
        } else {
            None
        }
    }

    /// Holds `value` for `key` from now on, and returns what was held for it
    /// before, if anything was.
    pub fn replace(&mut self, key: &str, value: V) -> (previous: Option<V>)
        ensures
            final(self)@ == old(self)@.insert(key@, value),
            previous is Some <==> old(self)@.contains_key(key@),
            previous matches Some(held) ==> held == old(self)@[key@],
    {
        let wanted = String::from_str(key);
        let at = self.find(&wanted);
        let ghost before = self.entries@;
        if at < self.entries.len() {
            let Entry { key: _, value: held } = self.entries.remove(at);
            self.entries.insert(at, Entry { key: wanted, value });
            proof {
                lemma_position(keys_of(before), key@);
                assert(self.entries@.len() == before.len());
                assert(forall|j: int|
                    0 <= j < before.len() && j != at ==> self.entries@[j] == before[j]);
                assert(self.entries@[at as int].key@ == key@);
                assert(keys_of(self.entries@) =~= keys_of(before));
                assert forall|k: Seq<char>| #[trigger]
                    self@.contains_key(k) == old(self)@.insert(key@, value).contains_key(k) && (
                    self@.contains_key(k) ==> self@[k] == old(self)@.insert(key@, value)[k]) by {
                    lemma_position(keys_of(before), k);
                }
                assert(self@ =~= old(self)@.insert(key@, value));
            }
            Some(held)
        } else {
            self.entries.push(Entry { key: wanted, value });
            proof {
                assert(keys_of(self.entries@) =~= keys_of(before).push(key@));
                assert forall|k: Seq<char>| #[trigger]
                    self@.contains_key(k) == old(self)@.insert(key@, value).contains_key(k) && (
                    self@.contains_key(k) ==> self@[k] == old(self)@.insert(key@, value)[k]) by {
                    lemma_position_push(keys_of(before), key@, k);
                    lemma_position(keys_of(before), k);
                }
                assert(self@ =~= old(self)@.insert(key@, value));
            }
            None
        }
    }
}

} // verus!
