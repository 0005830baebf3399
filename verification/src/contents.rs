use vstd::prelude::*;
use crate::order::{compare_str, lemma_str_lt_irreflexive, lemma_str_lt_total, lemma_str_lt_transitive, str_lt, Order};

verus! {

/// The texts of a sequence of strings, in order.
pub open spec fn texts(items: Seq<String>) -> Seq<Seq<char>> {
    items.map_values(|item: String| item@)
}

/// Each text comes strictly before the next in the order of `str`, so that no
/// text occurs twice.
pub open spec fn strictly_ascending(texts: Seq<Seq<char>>) -> bool {
    forall|i: int, j: int| 0 <= i < j < texts.len() ==> str_lt(#[trigger] texts[i], #[trigger] texts[j])
}

/// The texts that were fetched successfully.
pub open spec fn fetched_texts(results: Seq<Option<String>>) -> Set<Seq<char>> {
    Set::new(|text: Seq<char>| exists|i: int| 0 <= i < results.len() && #[trigger] results[i] is Some && results[i].unwrap()@ == text)
}

/// Every successfully fetched text is among the fetched texts, and nothing
/// else is.
pub proof fn lemma_fetched_texts_members(results: Seq<Option<String>>)
    ensures
        forall|i: int| 0 <= i < results.len() && #[trigger] results[i] is Some
            ==> fetched_texts(results).contains(results[i].unwrap()@),
        forall|text: Seq<char>| #[trigger] fetched_texts(results).contains(text)
            ==> exists|i: int| 0 <= i < results.len() && #[trigger] results[i] is Some && results[i].unwrap()@ == text,
{
}

proof fn lemma_texts_push(items: Seq<String>, item: String)
    ensures
        texts(items.push(item)).to_set() == texts(items).to_set().insert(item@),
{
    let before = texts(items);
    let after = texts(items.push(item));
    assert(after =~= before.push(item@));
    assert forall|text: Seq<char>| after.to_set().contains(text) <==> before.to_set().insert(item@).contains(text) by {
        if after.contains(text) {
            let k = choose|k: int| 0 <= k < after.len() && after[k] == text;
            if k < before.len() {
                assert(before[k] == text);
            }
        }
        if before.contains(text) {
            let k = choose|k: int| 0 <= k < before.len() && before[k] == text;
            assert(after[k] == text);
        }
        if text == item@ {
            assert(after[before.len() as int] == text);
        }
    }
    assert(after.to_set() =~= before.to_set().insert(item@));
}

proof fn lemma_texts_append(front: Seq<String>, back: Seq<String>)
    ensures
        texts(front + back).to_set() == texts(front).to_set().union(texts(back).to_set()),
{
    let f = texts(front);
    let b = texts(back);
    let all = texts(front + back);
    assert(all =~= f + b);
    assert forall|text: Seq<char>| all.to_set().contains(text) <==> f.to_set().union(b.to_set()).contains(text) by {
        if all.contains(text) {
            let k = choose|k: int| 0 <= k < all.len() && all[k] == text;
            if k < f.len() {
                assert(f[k] == text);
            } else {
                assert(b[k - f.len()] == text);
            }
        }
        if f.contains(text) {
            let k = choose|k: int| 0 <= k < f.len() && f[k] == text;
            assert(all[k] == text);
        }
        if b.contains(text) {
            let k = choose|k: int| 0 <= k < b.len() && b[k] == text;
            assert(all[k + f.len()] == text);
        }
    }
    assert(all.to_set() =~= f.to_set().union(b.to_set()));
}

proof fn lemma_texts_insert(items: Seq<String>, pos: int, item: String)
    requires
        0 <= pos <= items.len(),
    ensures
        texts(items.insert(pos, item)) == texts(items).insert(pos, item@),
        texts(items.insert(pos, item)).to_set() == texts(items).to_set().insert(item@),
{
    let before = texts(items);
    let after = texts(items.insert(pos, item));
    items.insert_ensures(pos, item);
    before.insert_ensures(pos, item@);
    assert(after =~= before.insert(pos, item@));
    assert forall|text: Seq<char>| after.to_set().contains(text) <==> before.to_set().insert(item@).contains(text) by {
        if after.contains(text) {
            let k = choose|k: int| 0 <= k < after.len() && after[k] == text;
            if k < pos {
                assert(before[k] == text);
            } else if k > pos {
                assert(before[k - 1] == text);
            }
        }
        if before.contains(text) {
            let k = choose|k: int| 0 <= k < before.len() && before[k] == text;
            if k < pos {
                assert(after[k] == text);
            } else {
                assert(after[k + 1] == text);
            }
        }
        if text == item@ {
            assert(after[pos] == text);
        }
    }
    assert(after.to_set() =~= before.to_set().insert(item@));
}

/// Puts `item` into its place in an ascending vector, unless its text is
/// already there.
fn insert_in_order(sorted: &mut Vec<String>, item: String)
    requires
        strictly_ascending(texts(old(sorted)@)),
    ensures
        strictly_ascending(texts(final(sorted)@)),
        texts(final(sorted)@).to_set() == texts(old(sorted)@).to_set().insert(item@),
{
    let mut pos: usize = 0;
    while pos < sorted.len() && compare_str(sorted[pos].as_str(), item.as_str()) == Order::Less
        invariant
            pos <= sorted@.len(),
            forall|k: int| 0 <= k < pos ==> str_lt(#[trigger] sorted@[k]@, item@),
        decreases sorted@.len() - pos,
    {
        pos = pos + 1;
    }
    let ghost before = texts(sorted@);
    if pos < sorted.len() && sorted[pos] == item {
        proof {
            assert(before[pos as int] == item@);
            assert(before.to_set().insert(item@) =~= before.to_set());
        }
    } else {
        proof {
            let x = item@;
            if pos < sorted@.len() {
                lemma_str_lt_total(before[pos as int], x);
            }
            assert forall|k: int| pos <= k < before.len() implies str_lt(x, #[trigger] before[k]) by {
                assert(str_lt(x, before[pos as int]));
                if k > pos {
                    lemma_str_lt_transitive(x, before[pos as int], before[k]);
                }
            }
            assert forall|k: int| 0 <= k < pos implies str_lt(#[trigger] before[k], x) by {
                assert(before[k] == sorted@[k]@);
            }
        }
        let ghost old_items = sorted@;
        sorted.insert(pos, item);
        proof {
            lemma_texts_insert(old_items, pos as int, item);
            let x = item@;
            let after = texts(sorted@);
            before.insert_ensures(pos as int, x);
            assert forall|i: int, j: int| 0 <= i < j < after.len() implies str_lt(#[trigger] after[i], #[trigger] after[j]) by {
                if j < pos {
                    assert(str_lt(before[i], before[j]));
                } else if j == pos {
                } else if i < pos {
                    assert(str_lt(before[i], x));
                    assert(str_lt(x, before[j - 1]));
                    lemma_str_lt_transitive(before[i], x, before[j - 1]);
                } else if i == pos {
                    assert(str_lt(x, before[j - 1]));
                } else {
                    assert(str_lt(before[i - 1], before[j - 1]));
                }
            }
        }
    }
}

/// The distinct texts of `items` in ascending order of `str`: what
/// `sort_unstable` followed by `dedup` leaves of them.
pub fn sorted_distinct(items: Vec<String>) -> (sorted: Vec<String>)
    ensures
        strictly_ascending(texts(sorted@)),
        texts(sorted@).to_set() == texts(items@).to_set(),
        forall|i: int, j: int| 0 <= i < j < sorted@.len() ==> str_lt(#[trigger] sorted@[i]@, #[trigger] sorted@[j]@),
        forall|i: int| 0 <= i < items@.len() ==> sorted@.map_values(|s: String| s@).contains(#[trigger] items@[i]@),
        forall|k: int| 0 <= k < sorted@.len() ==> items@.map_values(|s: String| s@).contains(#[trigger] sorted@[k]@),
{
    let ghost all = texts(items@).to_set();
    let mut rest = items;
    let mut sorted: Vec<String> = Vec::new();
    assert(texts(sorted@).to_set() =~= Set::empty());
    while rest.len() > 0
        invariant
            strictly_ascending(texts(sorted@)),
            texts(sorted@).to_set().union(texts(rest@).to_set()) == all,
        decreases rest@.len(),
    {
        let ghost before = rest@;
        let item = rest.pop().unwrap();
        proof {
            assert(before =~= rest@.push(item));
            lemma_texts_push(rest@, item);
        }
        let ghost sorted_before = texts(sorted@).to_set();
        let ghost text = item@;
        insert_in_order(&mut sorted, item);
        proof {
            assert(texts(sorted@).to_set().union(texts(rest@).to_set()) =~= sorted_before.union(texts(before).to_set()));
        }
    }
    proof {
        assert(texts(rest@).to_set() =~= Set::empty());
        assert(texts(sorted@).to_set().union(Set::empty()) =~= texts(sorted@).to_set());
    }
    proof {
        assert forall|i: int, j: int| 0 <= i < j < sorted@.len() implies str_lt(#[trigger] sorted@[i]@, #[trigger] sorted@[j]@) by {
            assert(texts(sorted@)[i] == sorted@[i]@);
            assert(texts(sorted@)[j] == sorted@[j]@);
        }
        assert forall|i: int| 0 <= i < items@.len() implies sorted@.map_values(|s: String| s@).contains(#[trigger] items@[i]@) by {
            assert(texts(items@)[i] == items@[i]@);
            assert(texts(items@).to_set().contains(items@[i]@));
            assert(texts(sorted@) == sorted@.map_values(|s: String| s@));
        }
        assert forall|k: int| 0 <= k < sorted@.len() implies items@.map_values(|s: String| s@).contains(#[trigger] sorted@[k]@) by {
            assert(texts(sorted@)[k] == sorted@[k]@);
            assert(texts(sorted@).to_set().contains(sorted@[k]@));
            assert(texts(items@) == items@.map_values(|s: String| s@));
        }
    }
    sorted
}

/// Merges the filter lists that were fetched (a failed fetch is `None`) with
/// the user's own filters, which are moved out of `custom_filters`: the
/// result holds each distinct text once, in ascending order of `str`.
pub fn collect_filters_content(results: Vec<Option<String>>, custom_filters: &mut Vec<String>) -> (filters: Vec<String>)
    ensures
        final(custom_filters)@.len() == 0,
        strictly_ascending(texts(filters@)),
        texts(filters@).to_set() == fetched_texts(results@).union(texts(old(custom_filters)@).to_set()),
        forall|i: int, j: int| 0 <= i < j < filters@.len() ==> str_lt(#[trigger] filters@[i]@, #[trigger] filters@[j]@),
        forall|i: int| 0 <= i < results@.len() && #[trigger] results@[i] is Some
            ==> filters@.map_values(|s: String| s@).contains(results@[i].unwrap()@),
        forall|j: int| 0 <= j < old(custom_filters)@.len()
            ==> filters@.map_values(|s: String| s@).contains(#[trigger] old(custom_filters)@[j]@),
        forall|k: int| 0 <= k < filters@.len() ==> (exists|i: int| 0 <= i < results@.len() && #[trigger] results@[i] is Some
            && results@[i].unwrap()@ == filters@[k]@) || old(custom_filters)@.map_values(|s: String| s@).contains(#[trigger] filters@[k]@),
{
    let mut filters: Vec<String> = Vec::new();
    let mut i: usize = 0;
    assert(texts(filters@).to_set() =~= Set::empty());
    while i < results.len()
        invariant
            i <= results@.len(),
            texts(filters@).to_set() == fetched_texts(results@.take(i as int)),
        decreases results@.len() - i,
    {
        let ghost prefix = results@.take(i as int);
        let ghost next = results@.take(i + 1);
        assert(next =~= prefix.push(results@[i as int]));
        match &results[i] {
            Some(content) => {
                let ghost old_filters = filters@;
                let copy = content.clone();
                filters.push(copy);
                proof {
                    lemma_texts_push(old_filters, copy);
                    assert forall|text: Seq<char>| #[trigger] fetched_texts(next).contains(text) <==> fetched_texts(prefix).insert(content@).contains(text) by {
                        if fetched_texts(next).contains(text) {
                            let k = choose|k: int| 0 <= k < next.len() && #[trigger] next[k] is Some && next[k].unwrap()@ == text;
                            if k < prefix.len() {
                                assert(prefix[k] == next[k]);
                            }
                        }
                        if fetched_texts(prefix).contains(text) {
                            let k = choose|k: int| 0 <= k < prefix.len() && #[trigger] prefix[k] is Some && prefix[k].unwrap()@ == text;
                            assert(next[k] == prefix[k]);
                        }
                        if text == content@ {
                            assert(next[prefix.len() as int] is Some);
                        }
                    }
                    assert(fetched_texts(next) =~= fetched_texts(prefix).insert(content@));
                }
            },
            None => {
                proof {
                    assert forall|text: Seq<char>| #[trigger] fetched_texts(next).contains(text) <==> fetched_texts(prefix).contains(text) by {
                        if fetched_texts(next).contains(text) {
                            let k = choose|k: int| 0 <= k < next.len() && #[trigger] next[k] is Some && next[k].unwrap()@ == text;
                            if k < prefix.len() {
                                assert(prefix[k] == next[k]);
                            }
                        }
                        if fetched_texts(prefix).contains(text) {
                            let k = choose|k: int| 0 <= k < prefix.len() && #[trigger] prefix[k] is Some && prefix[k].unwrap()@ == text;
                            assert(next[k] == prefix[k]);
                        }
                    }
                    assert(fetched_texts(next) =~= fetched_texts(prefix));
                }
            },
        }
        i = i + 1;
    }
    assert(results@.take(i as int) =~= results@);
    let ghost fetched = filters@;
    let ghost custom = custom_filters@;
    filters.append(custom_filters);
    proof {
        lemma_texts_append(fetched, custom);
    }
    let merged = sorted_distinct(filters);
    proof {
        let out = texts(merged@);
        assert(out == merged@.map_values(|s: String| s@));
        assert(texts(custom) == custom.map_values(|s: String| s@));
        let everything = fetched_texts(results@).union(texts(custom).to_set());
        assert forall|i: int| 0 <= i < results@.len() && #[trigger] results@[i] is Some
            implies merged@.map_values(|s: String| s@).contains(results@[i].unwrap()@) by {
            assert(fetched_texts(results@).contains(results@[i].unwrap()@));
            assert(out.to_set().contains(results@[i].unwrap()@));
        }
        assert forall|j: int| 0 <= j < custom.len()
            implies merged@.map_values(|s: String| s@).contains(#[trigger] custom[j]@) by {
            assert(texts(custom)[j] == custom[j]@);
            assert(texts(custom).to_set().contains(custom[j]@));
            assert(out.to_set().contains(custom[j]@));
        }
        assert forall|k: int| 0 <= k < merged@.len() implies (exists|i: int| 0 <= i < results@.len() && #[trigger] results@[i] is Some
            && results@[i].unwrap()@ == merged@[k]@) || custom.map_values(|s: String| s@).contains(#[trigger] merged@[k]@) by {
            assert(out[k] == merged@[k]@);
            assert(out.to_set().contains(merged@[k]@));
            assert(everything.contains(merged@[k]@));
            if !fetched_texts(results@).contains(merged@[k]@) {
                assert(texts(custom).to_set().contains(merged@[k]@));
            }
        }
    }
    merged
}

/// Two strictly ascending sequences with the same texts are the same
/// sequence: the merged filter contents depend only on which texts were
/// gathered, not on their order or on how often each occurred.
pub proof fn lemma_ascending_texts_unique(a: Seq<Seq<char>>, b: Seq<Seq<char>>)
    requires
        strictly_ascending(a),
        strictly_ascending(b),
        a.to_set() == b.to_set(),
    ensures
        a == b,
    decreases a.len(),
{
    if a.len() == 0 {
        if b.len() > 0 {
            assert(b.to_set().contains(b[0]));
        }
        assert(a =~= b);
    } else if b.len() == 0 {
        assert(a.to_set().contains(a[0]));
    } else {
        assert(a.to_set().contains(a[0]));
        assert(b.to_set().contains(b[0]));
        let j = choose|j: int| 0 <= j < b.len() && b[j] == a[0];
        let i = choose|i: int| 0 <= i < a.len() && a[i] == b[0];
        if j > 0 {
            assert(str_lt(b[0], b[j]));
            if i > 0 {
                assert(str_lt(a[0], a[i]));
                lemma_str_lt_total(a[0], b[0]);
            } else {
                lemma_str_lt_irreflexive(b[0]);
            }
        }
        assert(a[0] == b[0]);
        let a_rest = a.drop_first();
        let b_rest = b.drop_first();
        assert forall|x: Seq<char>| a_rest.to_set().contains(x) <==> b_rest.to_set().contains(x) by {
            if a_rest.contains(x) {
                let k = choose|k: int| 0 <= k < a_rest.len() && a_rest[k] == x;
                assert(a[k + 1] == x);
                assert(a.to_set().contains(x));
                let m = choose|m: int| 0 <= m < b.len() && b[m] == x;
                if m == 0 {
                    assert(str_lt(a[0], a[k + 1]));
                    lemma_str_lt_irreflexive(x);
                }
                assert(b_rest[m - 1] == x);
            }
            if b_rest.contains(x) {
                let k = choose|k: int| 0 <= k < b_rest.len() && b_rest[k] == x;
                assert(b[k + 1] == x);
                assert(b.to_set().contains(x));
                let m = choose|m: int| 0 <= m < a.len() && a[m] == x;
                if m == 0 {
                    assert(str_lt(b[0], b[k + 1]));
                    lemma_str_lt_irreflexive(x);
                }
                assert(a_rest[m - 1] == x);
            }
        }
        assert(a_rest.to_set() =~= b_rest.to_set());
        lemma_ascending_texts_unique(a_rest, b_rest);
        assert(a =~= seq![a[0]] + a_rest);
        assert(b =~= seq![b[0]] + b_rest);
    }
}

} // verus!
