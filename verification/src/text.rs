//! Text handling shared by the mapper: the order in which names are listed,
//! and the joining of value lists.

use vstd::prelude::*;
use vstd::std_specs::iter::IteratorSpec;

verus! {

/// Lexicographic order on texts, character by character, by code point.
/// A proper prefix comes before the text it is a prefix of.
pub open spec fn lex_le(a: Seq<char>, b: Seq<char>) -> bool
    decreases a.len(),
{
    if a.len() == 0 {
        true
    } else if b.len() == 0 {
        false
    } else if a[0] != b[0] {
        (a[0] as u32) < (b[0] as u32)
    } else {
        lex_le(a.drop_first(), b.drop_first())
    }
}

/// Strict lexicographic order: `a` comes before `b` and differs from it.
pub open spec fn lex_lt(a: Seq<char>, b: Seq<char>) -> bool {
    lex_le(a, b) && a != b
}

/// Every text is at or before itself.
pub proof fn lemma_lex_le_reflexive(a: Seq<char>)
    ensures
        lex_le(a, a),
    decreases a.len(),
{
    if a.len() > 0 {
        lemma_lex_le_reflexive(a.drop_first());
    }
}

/// Of two texts, one is at or before the other.
pub proof fn lemma_lex_le_total(a: Seq<char>, b: Seq<char>)
    ensures
        lex_le(a, b) || lex_le(b, a),
    decreases a.len(),
{
    if a.len() > 0 && b.len() > 0 {
        if a[0] == b[0] {
            lemma_lex_le_total(a.drop_first(), b.drop_first());
        } else {
            vstd::utf8::char_u32_cast(a[0], a[0] as u32);
            vstd::utf8::char_u32_cast(b[0], b[0] as u32);
        }
    }
}

/// Two texts that are each at or before the other are the same text.
pub proof fn lemma_lex_le_antisymmetric(a: Seq<char>, b: Seq<char>)
    requires
        lex_le(a, b),
        lex_le(b, a),
    ensures
        a == b,
    decreases a.len(),
{
    if a.len() == 0 || b.len() == 0 {
        assert(a =~= b);
    } else {
        assert(a[0] == b[0]);
        lemma_lex_le_antisymmetric(a.drop_first(), b.drop_first());
        assert(a =~= seq![a[0]] + a.drop_first());
        assert(b =~= seq![b[0]] + b.drop_first());
    }
}

/// The order is transitive.
pub proof fn lemma_lex_le_transitive(a: Seq<char>, b: Seq<char>, c: Seq<char>)
    requires
        lex_le(a, b),
        lex_le(b, c),
    ensures
        lex_le(a, c),
    decreases a.len(),
{
    if a.len() > 0 && b.len() > 0 && c.len() > 0 && a[0] == b[0] && b[0] == c[0] {
        lemma_lex_le_transitive(a.drop_first(), b.drop_first(), c.drop_first());
    }
}

/// Decides whether `a` is at or before `b` in lexicographic order.
pub fn str_le(a: &str, b: &str) -> (r: bool)
    ensures
        r == lex_le(a@, b@),
{
    let mut rest_a = a.chars();
    let mut rest_b = b.chars();
    let ghost mut seen: int = 0;
    loop
        invariant
            0 <= seen <= a@.len(),
            rest_a.remaining() == a@.skip(seen),
            lex_le(a@, b@) == lex_le(rest_a.remaining(), rest_b.remaining()),
        decreases a@.len() - seen,
    {
        let head_a = rest_a.next();
        let head_b = rest_b.next();
        proof {
            if head_a is Some {
                assert(a@.skip(seen).drop_first() =~= a@.skip(seen + 1));
                seen = seen + 1;
            }
        }
        match head_a {
            None => {
                return true;
            },
            Some(x) => {
                match head_b {
                    None => {
                        return false;
                    },
                    Some(y) => {
                        if x != y {
                            return (x as u32) < (y as u32);
                        }
                    },
                }
            },
        }
    }
}

/// The character that writes the digit `d`.
pub open spec fn digit(d: nat) -> char
    recommends
        d < 10,
{
    if d == 0 {
        '0'
    } else if d == 1 {
        '1'
    } else if d == 2 {
        '2'
    } else if d == 3 {
        '3'
    } else if d == 4 {
        '4'
    } else if d == 5 {
        '5'
    } else if d == 6 {
        '6'
    } else if d == 7 {
        '7'
    } else if d == 8 {
        '8'
    } else {
        '9'
    }
}

/// The decimal notation of `n`, without sign or leading zeros.
pub open spec fn decimal(n: nat) -> Seq<char>
    decreases n,
{
    if n < 10 {
        seq![digit(n)]
    } else {
        decimal(n / 10).push(digit(n % 10))
    }
}

fn digit_str(d: usize) -> (s: &'static str)
    requires
        d < 10,
    ensures
        s@ == seq![digit(d as nat)],
{
    proof {
        reveal_strlit("0");
        reveal_strlit("1");
        reveal_strlit("2");
        reveal_strlit("3");
        reveal_strlit("4");
        reveal_strlit("5");
        reveal_strlit("6");
        reveal_strlit("7");
        reveal_strlit("8");
        reveal_strlit("9");
    }
    let s = if d == 0 {
        "0"
    } else if d == 1 {
        "1"
    } else if d == 2 {
        "2"
    } else if d == 3 {
        "3"
    } else if d == 4 {
        "4"
    } else if d == 5 {
        "5"
    } else if d == 6 {
        "6"
    } else if d == 7 {
        "7"
    } else if d == 8 {
        "8"
    } else {
        "9"
    };
    assert(s@ =~= seq![digit(d as nat)]);
    s
}

/// Writes `n` in decimal notation.
pub fn to_decimal(n: usize) -> (written: String)
    ensures
        written@ == decimal(n as nat),
    decreases n,
{
    if n < 10 {
        String::from_str(digit_str(n))
    } else {
        let mut written = to_decimal(n / 10);
        written.append(digit_str(n % 10));
        assert(written@ =~= decimal(n as nat));
        written
    }
}

/// The texts held by a list of strings, in the same order.
pub open spec fn texts(items: Seq<String>) -> Seq<Seq<char>> {
    items.map_values(|s: String| s@)
}

/// Copies a list of strings.
pub fn clone_strings(items: &Vec<String>) -> (copy: Vec<String>)
    ensures
        texts(copy@) == texts(items@),
{
    let mut copy: Vec<String> = Vec::new();
    let mut done: usize = 0;
    while done < items.len()
        invariant
            done <= items.len(),
            texts(copy@) == texts(items@).take(done as int),
        decreases items.len() - done,
    {
        let ghost before = copy@;
        copy.push(items[done].clone());
        proof {
            let text = items@[done as int]@;
            assert(texts(copy@) =~= texts(before).push(text));
            assert(texts(items@).take(done + 1) =~= texts(items@).take(done as int).push(text));
        }
        done = done + 1;
    }
    assert(texts(items@).take(done as int) =~= texts(items@));
    copy
}

/// Whether every text of `items` is at or before all those that follow it.
pub open spec fn sorted(items: Seq<Seq<char>>) -> bool {
    forall|i: int, j: int| 0 <= i < j < items.len() ==> lex_le(#[trigger] items[i], #[trigger] items[j])
}

/// Whether the texts strictly ascend, so that none occurs twice.
pub open spec fn strictly_sorted(items: Seq<Seq<char>>) -> bool {
    forall|i: int, j: int| 0 <= i < j < items.len() ==> lex_lt(#[trigger] items[i], #[trigger] items[j])
}

/// The texts of `items` written one after another with `sep` between neighbours.
pub open spec fn join(items: Seq<Seq<char>>, sep: Seq<char>) -> Seq<char>
    decreases items.len(),
{
    if items.len() == 0 {
        Seq::empty()
    } else if items.len() == 1 {
        items[0]
    } else {
        items[0] + sep + join(items.drop_first(), sep)
    }
}

/// Joining a non-empty list and one more text appends the separator and that text.
pub proof fn lemma_join_push(items: Seq<Seq<char>>, last: Seq<char>, sep: Seq<char>)
    requires
        items.len() > 0,
    ensures
        join(items.push(last), sep) == join(items, sep) + sep + last,
    decreases items.len(),
{
    let longer = items.push(last);
    assert(longer.drop_first() =~= items.drop_first().push(last));
    if items.len() == 1 {
        assert(longer.drop_first() =~= seq![last]);
        assert(join(longer.drop_first(), sep) == last);
        assert(join(longer, sep) =~= items[0] + sep + last);
    } else {
        lemma_join_push(items.drop_first(), last, sep);
        assert(join(longer, sep) =~= items[0] + sep + (join(items.drop_first(), sep) + sep + last));
        assert(join(items, sep) =~= items[0] + sep + join(items.drop_first(), sep));
        assert(join(longer, sep) =~= join(items, sep) + sep + last);
    }
}

/// Writes the strings of `items` one after another with `sep` between neighbours.
pub fn join_strings(items: &Vec<String>, sep: &str) -> (joined: String)
    ensures
        joined@ == join(texts(items@), sep@),
{
    let mut joined = String::new();
    let mut done: usize = 0;
    while done < items.len()
        invariant
            done <= items.len(),
            joined@ == join(texts(items@).take(done as int), sep@),
        decreases items.len() - done,
    {
        let ghost before = texts(items@).take(done as int);
        proof {
            assert(texts(items@).take(done + 1) =~= before.push(items@[done as int]@));
            if done > 0 {
                lemma_join_push(before, items@[done as int]@, sep@);
            } else {
                assert(join(before.push(items@[done as int]@), sep@) =~= items@[done as int]@);
            }
        }
        if done > 0 {
            joined.append(sep);
        }
        joined.append(items[done].as_str());
        done = done + 1;
    }
    proof {
        assert(texts(items@).take(done as int) =~= texts(items@));
    }
    joined
}

/// Inserting a text into a list adds exactly that text to what the list holds.
pub proof fn lemma_insert_multiset(items: Seq<Seq<char>>, at: int, text: Seq<char>)
    requires
        0 <= at <= items.len(),
    ensures
        items.insert(at, text).to_multiset() == items.to_multiset().insert(text),
{
    broadcast use vstd::seq_lib::group_to_multiset_ensures;

    let longer = items.insert(at, text);
    assert(longer.remove(at) =~= items);
    assert(longer[at] == text);
    assert(longer.remove(at).to_multiset() =~= longer.to_multiset().remove(text));
    assert(longer.contains(text));
    assert(longer.to_multiset() =~= items.to_multiset().insert(text));
}

/// Sorts strings into lexicographic order. The result holds the same texts,
/// each as often as the input does.
pub fn sort_strings(items: Vec<String>) -> (ordered: Vec<String>)
    ensures
        texts(ordered@) == sort_texts(texts(items@)),
        sorted(texts(ordered@)),
        texts(ordered@).to_multiset() == texts(items@).to_multiset(),
{
    broadcast use vstd::seq_lib::group_to_multiset_ensures;

    let mut ordered: Vec<String> = Vec::new();
    let mut rest = items;
    loop
        invariant
            sorted(texts(ordered@)),
            texts(ordered@).to_multiset().add(texts(rest@).to_multiset()) == texts(
                items@,
            ).to_multiset(),
        ensures
            rest@.len() == 0,
            sorted(texts(ordered@)),
            texts(ordered@).to_multiset().add(texts(rest@).to_multiset()) == texts(
                items@,
            ).to_multiset(),
        decreases rest@.len(),
    {
        let ghost rest_before = rest@;
        let ghost ordered_before = ordered@;
        let taken = rest.pop();
        match taken {
            None => {
                break ;
            },
            Some(item) => {
                let ghost text = item@;
                let mut at: usize = 0;
                while at < ordered.len() && str_le(ordered[at].as_str(), item.as_str())
                    invariant
                        at <= ordered.len(),
                        forall|k: int| 0 <= k < at ==> lex_le(#[trigger] texts(ordered@)[k], item@),
                    decreases ordered.len() - at,
                {
                    at = at + 1;
                }
                proof {
                    let old_texts = texts(ordered_before);
                    assert(texts(rest_before) =~= texts(rest@).push(item@));
                    lemma_insert_multiset(old_texts, at as int, item@);
                    assert(texts(ordered_before.insert(at as int, item)) =~= old_texts.insert(
                        at as int,
                        item@,
                    ));
                    assert forall|k: int| at <= k < old_texts.len() implies lex_le(
                        item@,
                        #[trigger] old_texts[k],
                    ) by {
                        lemma_lex_le_total(old_texts[at as int], item@);
                        if k > at {
                            lemma_lex_le_transitive(item@, old_texts[at as int], old_texts[k]);
                        }
                    }
                }
                ordered.insert(at, item);
                proof {
                    let m_ordered = texts(ordered_before).to_multiset();
                    let m_rest = texts(rest@).to_multiset();
                    assert(texts(ordered@) == texts(ordered_before).insert(at as int, text));
                    assert(texts(ordered@).to_multiset() == m_ordered.insert(text));
                    vstd::seq_lib::to_multiset_build(texts(rest@), text);
                    assert(texts(rest_before).to_multiset() == m_rest.insert(text));
                    assert(m_ordered.insert(text).add(m_rest) =~= m_ordered.add(m_rest.insert(text)));
                }
            },
        }
    }
    proof {
        assert(texts(rest@) =~= Seq::empty());
        assert(texts(ordered@).to_multiset().add(texts(rest@).to_multiset()) =~= texts(
            ordered@,
        ).to_multiset());
        lemma_sort_texts(texts(items@), texts(ordered@));
    }
    ordered
}

/// Two sorted lists that hold the same texts, each as often, are the same list.
pub proof fn lemma_sorted_is_unique(a: Seq<Seq<char>>, b: Seq<Seq<char>>)
    requires
        sorted(a),
        sorted(b),
        a.to_multiset() == b.to_multiset(),
    ensures
        a == b,
    decreases a.len(),
{
    broadcast use vstd::seq_lib::group_to_multiset_ensures;

    a.to_multiset_ensures();
    b.to_multiset_ensures();
    assert(a.len() == b.len());
    if a.len() == 0 {
        assert(a =~= b);
    } else {
        assert(a.contains(a[0]));
        assert(b.contains(b[0]));
        assert(b.to_multiset().count(a[0]) > 0);
        assert(a.to_multiset().count(b[0]) > 0);
        assert(b.contains(a[0]));
        assert(a.contains(b[0]));
        let in_b = choose|j: int| 0 <= j < b.len() && b[j] == a[0];
        let in_a = choose|j: int| 0 <= j < a.len() && a[j] == b[0];
        if in_b > 0 {
            assert(lex_le(b[0], b[in_b]));
        } else {
            lemma_lex_le_reflexive(a[0]);
        }
        if in_a > 0 {
            assert(lex_le(a[0], a[in_a]));
        } else {
            lemma_lex_le_reflexive(b[0]);
        }
        lemma_lex_le_antisymmetric(a[0], b[0]);
        let rest_a = a.drop_first();
        let rest_b = b.drop_first();
        assert(rest_a =~= a.remove(0));
        assert(rest_b =~= b.remove(0));
        assert(rest_a.to_multiset() =~= rest_b.to_multiset());
        assert forall|i: int, j: int| 0 <= i < j < rest_a.len() implies lex_le(
            #[trigger] rest_a[i],
            #[trigger] rest_a[j],
        ) by {
            assert(rest_a[i] == a[i + 1] && rest_a[j] == a[j + 1]);
        }
        assert forall|i: int, j: int| 0 <= i < j < rest_b.len() implies lex_le(
            #[trigger] rest_b[i],
            #[trigger] rest_b[j],
        ) by {
            assert(rest_b[i] == b[i + 1] && rest_b[j] == b[j + 1]);
        }
        lemma_sorted_is_unique(rest_a, rest_b);
        assert(a =~= seq![a[0]] + rest_a);
        assert(b =~= seq![b[0]] + rest_b);
    }
}

/// The texts of `items` in lexicographic order, each as often as `items`
/// holds it.
pub open spec fn sort_texts(items: Seq<Seq<char>>) -> Seq<Seq<char>> {
    choose|ordered: Seq<Seq<char>>|
        sorted(ordered) && ordered.to_multiset() == items.to_multiset()
}

/// A sorted list has a place for any text: a position at which the text can
/// be put so that the list stays sorted.
proof fn lemma_sorted_has_place(ordered: Seq<Seq<char>>, text: Seq<char>) -> (at: int)
    requires
        sorted(ordered),
    ensures
        0 <= at <= ordered.len(),
        sorted(ordered.insert(at, text)),
    decreases ordered.len(),
{
    if ordered.len() == 0 {
        0
    } else {
        let last = ordered.last();
        let front = ordered.drop_last();
        let at = if lex_le(last, text) {
            ordered.len() as int
        } else {
            lemma_sorted_has_place(front, text)
        };
        let longer = ordered.insert(at, text);
        assert forall|i: int, j: int| 0 <= i < j < longer.len() implies lex_le(
            #[trigger] longer[i],
            #[trigger] longer[j],
        ) by {
            if lex_le(last, text) {
                if j == at {
                    assert(longer[i] == ordered[i]);
                    if i < ordered.len() - 1 {
                        assert(lex_le(ordered[i], last));
                        lemma_lex_le_transitive(ordered[i], last, text);
                    }
                } else {
                    assert(longer[i] == ordered[i] && longer[j] == ordered[j]);
                }
            } else {
                lemma_lex_le_total(last, text);
                let shorter = front.insert(at, text);
                if j == longer.len() - 1 {
                    assert(longer[j] == last);
                    if i == at {
                        assert(longer[i] == text);
                    } else if i < at {
                        assert(longer[i] == ordered[i]);
                    } else {
                        assert(longer[i] == ordered[i - 1]);
                    }
                } else {
                    assert(longer[i] == shorter[i] && longer[j] == shorter[j]);
                }
            }
        }
        at
    }
}

/// Every list of texts can be sorted: `sort_texts(items)` is sorted and holds
/// the texts of `items`, each as often as `items` holds it.
pub proof fn lemma_sort_texts_sorts(items: Seq<Seq<char>>)
    ensures
        sorted(sort_texts(items)),
        sort_texts(items).to_multiset() == items.to_multiset(),
    decreases items.len(),
{
    if items.len() == 0 {
        lemma_sort_texts(items, items);
    } else {
        let front = items.drop_last();
        let last = items.last();
        lemma_sort_texts_sorts(front);
        let at = lemma_sorted_has_place(sort_texts(front), last);
        let ordered = sort_texts(front).insert(at, last);
        lemma_insert_multiset(sort_texts(front), at, last);
        vstd::seq_lib::to_multiset_build(front, last);
        assert(items =~= front.push(last));
        lemma_sort_texts(items, ordered);
    }
}

/// Whatever is sorted and holds the texts of `items`, each as often, is
/// `sort_texts(items)`.
pub proof fn lemma_sort_texts(items: Seq<Seq<char>>, ordered: Seq<Seq<char>>)
    requires
        sorted(ordered),
        ordered.to_multiset() == items.to_multiset(),
    ensures
        sort_texts(items) == ordered,
        sorted(sort_texts(items)),
        sort_texts(items).to_multiset() == items.to_multiset(),
{
    lemma_sorted_is_unique(sort_texts(items), ordered);
}

} // verus!
