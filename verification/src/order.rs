//! Stable chronological ordering of records by the instant of a time stamp,
//! stamps at the same instant ordered by their text.

use vstd::prelude::*;
use crate::text::chars_of;

verus! {

/// Key `a` sorts strictly before key `b`: earlier instants first, and every
/// instant before a missing one (`None`, a time stamp that did not parse).
pub open spec fn key_lt(a: Option<i128>, b: Option<i128>) -> bool {
    match (a, b) {
        (Some(x), Some(y)) => x < y,
        (Some(_), None) => true,
        _ => false,
    }
}

/// `a` comes strictly before `b` in lexicographic order of code points,
/// which for UTF-8 text is the byte order `String::cmp` uses.
pub open spec fn text_lt(a: Seq<char>, b: Seq<char>) -> bool
    decreases a.len(),
{
    if a.len() == 0 {
        b.len() > 0
    } else if b.len() == 0 {
        false
    } else if a[0] != b[0] {
        (a[0] as int) < (b[0] as int)
    } else {
        text_lt(a.drop_first(), b.drop_first())
    }
}

/// No text comes before itself.
pub proof fn lemma_text_lt_irreflexive(a: Seq<char>)
    ensures
        !text_lt(a, a),
    decreases a.len(),
{
    if a.len() > 0 {
        lemma_text_lt_irreflexive(a.drop_first());
    }
}

/// Any two texts are equal or one comes before the other.
pub proof fn lemma_text_lt_total(a: Seq<char>, b: Seq<char>)
    ensures
        text_lt(a, b) || a == b || text_lt(b, a),
    decreases a.len(),
{
    if a.len() == 0 {
        if b.len() == 0 {
            assert(a =~= b);
        }
    } else if b.len() > 0 && a[0] == b[0] {
        lemma_text_lt_total(a.drop_first(), b.drop_first());
        if a.drop_first() == b.drop_first() {
            assert(a =~= seq![a[0]] + a.drop_first());
            assert(b =~= seq![b[0]] + b.drop_first());
        }
    }
}

/// The text order is transitive.
pub proof fn lemma_text_lt_transitive(a: Seq<char>, b: Seq<char>, c: Seq<char>)
    requires
        text_lt(a, b),
        text_lt(b, c),
    ensures
        text_lt(a, c),
    decreases a.len(),
{
    if a.len() > 0 && b.len() > 0 && c.len() > 0 {
        if a[0] == b[0] && b[0] == c[0] {
            lemma_text_lt_transitive(a.drop_first(), b.drop_first(), c.drop_first());
        }
    }
}

/// Text that ends where another goes on comes before it.
pub proof fn lemma_text_lt_proper_prefix(a: Seq<char>, b: Seq<char>)
    requires
        a.len() < b.len(),
        b.take(a.len() as int) == a,
    ensures
        text_lt(a, b),
    decreases a.len(),
{
    if a.len() > 0 {
        assert(a[0] == b.take(a.len() as int)[0]);
        assert(b.drop_first().take(a.drop_first().len() as int) =~= b.take(a.len() as int).drop_first());
        lemma_text_lt_proper_prefix(a.drop_first(), b.drop_first());
    }
}

/// At the first position where two texts differ, the one with the lower
/// code point comes first.
pub proof fn lemma_text_lt_first_difference(a: Seq<char>, b: Seq<char>, k: int)
    requires
        0 <= k < a.len(),
        k < b.len(),
        a.take(k) == b.take(k),
        (a[k] as int) < (b[k] as int),
    ensures
        text_lt(a, b),
    decreases k,
{
    if k > 0 {
        assert(a[0] == a.take(k)[0]);
        assert(b[0] == b.take(k)[0]);
        assert(a.drop_first().take(k - 1) =~= a.take(k).drop_first());
        assert(b.drop_first().take(k - 1) =~= b.take(k).drop_first());
        lemma_text_lt_first_difference(a.drop_first(), b.drop_first(), k - 1);
    }
}

/// Of two texts, at most one comes before the other.
pub proof fn lemma_text_lt_asymmetric(a: Seq<char>, b: Seq<char>)
    ensures
        !(text_lt(a, b) && text_lt(b, a)),
{
    if text_lt(a, b) && text_lt(b, a) {
        lemma_text_lt_transitive(a, b, a);
        lemma_text_lt_irreflexive(a);
    }
}

/// Two parsed instants sort by their value, every parsed instant sorts
/// before a missing one, and a missing one sorts before nothing.
pub proof fn lemma_key_lt_by_value(x: i128, y: i128, k: Option<i128>)
    ensures
        key_lt(Some(x), Some(y)) <==> x < y,
        key_lt(Some(x), None),
        !key_lt(None, k),
{
}

/// Record `i` sorts strictly before record `j`: by key, and at equal keys by
/// the text of its stamp.
pub open spec fn record_lt(keys: Seq<Option<i128>>, texts: Seq<Seq<char>>, i: int, j: int) -> bool {
    key_lt(keys[i], keys[j]) || (keys[i] == keys[j] && text_lt(texts[i], texts[j]))
}

/// Record `i` goes before record `j`: it sorts strictly before, or it ties
/// in key and text and came earlier (records that tie keep their order).
pub open spec fn precedes(keys: Seq<Option<i128>>, texts: Seq<Seq<char>>, i: int, j: int) -> bool {
    record_lt(keys, texts, i, j) || (keys[i] == keys[j] && texts[i] == texts[j] && i < j)
}

/// `order` lists each record index exactly once, sorted by key, then text,
/// records that tie in both in the order they came in: what a stable sort
/// by that pair does.
pub open spec fn is_stable_order(keys: Seq<Option<i128>>, texts: Seq<Seq<char>>, order: Seq<usize>) -> bool {
    &&& order.len() == keys.len()
    &&& forall|a: int| 0 <= a < order.len() ==> #[trigger] order[a] < keys.len()
    &&& forall|a: int, b: int| 0 <= a < b < order.len() ==> order[a] != order[b]
    &&& forall|a: int, b: int|
        0 <= a < b < order.len() ==> precedes(keys, texts, #[trigger] order[a] as int, #[trigger] order[b] as int)
}

/// Whether key `a` sorts strictly before key `b`.
pub fn key_less(a: Option<i128>, b: Option<i128>) -> (res: bool)
    ensures
        res == key_lt(a, b),
{
    match (a, b) {
        (Some(x), Some(y)) => x < y,
        (Some(_), None) => true,
        _ => false,
    }
}

/// Whether text `a` comes strictly before text `b`.
pub fn text_less(a: &Vec<char>, b: &Vec<char>) -> (res: bool)
    ensures
        res == text_lt(a@, b@),
{
    let mut i: usize = 0;
    assert(a@.skip(0) =~= a@);
    assert(b@.skip(0) =~= b@);
    while i < a.len() && i < b.len() && a[i] == b[i]
        invariant
            i <= a.len(),
            i <= b.len(),
            text_lt(a@, b@) == text_lt(a@.skip(i as int), b@.skip(i as int)),
        decreases a.len() - i,
    {
        proof {
            let sa = a@.skip(i as int);
            let sb = b@.skip(i as int);
            assert(sa.drop_first() =~= a@.skip(i + 1));
            assert(sb.drop_first() =~= b@.skip(i + 1));
        }
        i = i + 1;
    }
    let ghost sa = a@.skip(i as int);
    let ghost sb = b@.skip(i as int);
    if i == a.len() {
        assert(sa.len() == 0);
        i < b.len()
    } else if i == b.len() {
        assert(sb.len() == 0);
        false
    } else {
        assert(sa[0] == a@[i as int]);
        assert(sb[0] == b@[i as int]);
        a[i] < b[i]
    }
}

/// Two records either tie in key and text or one sorts strictly before the other.
proof fn lemma_record_lt_total(keys: Seq<Option<i128>>, texts: Seq<Seq<char>>, i: int, j: int)
    ensures
        record_lt(keys, texts, i, j) || (keys[i] == keys[j] && texts[i] == texts[j]) || record_lt(keys, texts, j, i),
{
    lemma_text_lt_total(texts[i], texts[j]);
}

/// The record order is transitive, also through ties.
proof fn lemma_record_lt_chain(keys: Seq<Option<i128>>, texts: Seq<Seq<char>>, i: int, j: int, k: int)
    requires
        record_lt(keys, texts, i, j),
        record_lt(keys, texts, j, k) || (keys[j] == keys[k] && texts[j] == texts[k]),
    ensures
        record_lt(keys, texts, i, k),
{
    if keys[i] == keys[j] && keys[j] == keys[k] && text_lt(texts[i], texts[j]) && text_lt(texts[j], texts[k]) {
        lemma_text_lt_transitive(texts[i], texts[j], texts[k]);
    }
}

/// The order in which a stable sort by key, then stamp text, puts the
/// records: indices into `keys`, records that tie in both in the order they
/// came in.
pub fn stable_order(keys: &Vec<Option<i128>>, texts: &Vec<String>) -> (order: Vec<usize>)
    requires
        keys.len() == texts.len(),
    ensures
        is_stable_order(keys@, texts@.map_values(|t: String| t@), order@),
{
    let ghost ts = texts@.map_values(|t: String| t@);
    let mut chars: Vec<Vec<char>> = Vec::new();
    let mut m: usize = 0;
    while m < texts.len()
        invariant
            m <= texts.len(),
            chars.len() == m,
            ts == texts@.map_values(|t: String| t@),
            forall|j: int| 0 <= j < m ==> #[trigger] chars@[j]@ == ts[j],
        decreases texts.len() - m,
    {
        chars.push(chars_of(texts[m].as_str()));
        m = m + 1;
    }
    let n = keys.len();
    let mut order: Vec<usize> = Vec::new();
    let mut i: usize = 0;
    while i < n
        invariant
            i <= n,
            n == keys.len(),
            chars.len() == n,
            ts.len() == n,
            forall|j: int| 0 <= j < n ==> #[trigger] chars@[j]@ == ts[j],
            order.len() == i,
            forall|a: int| 0 <= a < order.len() ==> #[trigger] order@[a] < i,
            forall|a: int, b: int| 0 <= a < b < order.len() ==> order@[a] != order@[b],
            forall|a: int, b: int|
                0 <= a < b < order.len() ==> precedes(keys@, ts, #[trigger] order@[a] as int, #[trigger] order@[b] as int),
        decreases n - i,
    {
        let mut k: usize = 0;
        while k < order.len() && !(key_less(keys[i], keys[order[k]]) || (keys[i] == keys[order[k]]
            && text_less(&chars[i], &chars[order[k]])))
            invariant
                k <= order.len(),
                i < n,
                n == keys.len(),
                chars.len() == n,
                forall|j: int| 0 <= j < n ==> #[trigger] chars@[j]@ == ts[j],
                forall|a: int| 0 <= a < order.len() ==> #[trigger] order@[a] < i,
                forall|a: int| 0 <= a < k ==> !record_lt(keys@, ts, i as int, #[trigger] order@[a] as int),
            decreases order.len() - k,
        {
            k = k + 1;
        }
        let ghost old_order = order@;
        order.insert(k, i);
        proof {
            assert(order@ == old_order.insert(k as int, i));
            assert forall|a: int| 0 <= a < order.len() implies #[trigger] order@[a] < i + 1 by {
                if a < k {
                    assert(order@[a] == old_order[a]);
                } else if a > k {
                    assert(order@[a] == old_order[a - 1]);
                }
            }
            assert forall|a: int, b: int| 0 <= a < b < order.len() implies order@[a] != order@[b] by {
                if a < k && b < k {
                } else if a < k && b == k {
                    assert(old_order[a] < i);
                } else if a < k {
                    assert(order@[b] == old_order[b - 1]);
                } else if a == k {
                    assert(order@[b] == old_order[b - 1]);
                    assert(old_order[b - 1] < i);
                } else {
                    assert(order@[a] == old_order[a - 1]);
                    assert(order@[b] == old_order[b - 1]);
                }
            }
            assert forall|a: int, b: int| 0 <= a < b < order.len() implies precedes(keys@, ts, #[trigger] order@[a] as int, #[trigger] order@[b] as int) by {
                if a < k && b < k {
                    assert(order@[a] == old_order[a]);
                    assert(order@[b] == old_order[b]);
                } else if a < k && b == k {
                    let x = old_order[a] as int;
                    assert(order@[a] as int == x);
                    assert(!record_lt(keys@, ts, i as int, x));
                    lemma_record_lt_total(keys@, ts, i as int, x);
                    assert(x < i);
                } else if a < k {
                    assert(order@[a] == old_order[a]);
                    assert(order@[b] == old_order[b - 1]);
                } else if a == k {
                    let y = old_order[b - 1] as int;
                    assert(order@[b] as int == y);
                    let z = old_order[k as int] as int;
                    assert(record_lt(keys@, ts, i as int, z));
                    if b - 1 > k {
                        assert(precedes(keys@, ts, z, y));
                        lemma_record_lt_chain(keys@, ts, i as int, z, y);
                    }
                } else {
                    assert(order@[a] == old_order[a - 1]);
                    assert(order@[b] == old_order[b - 1]);
                }
            }
        }
        i = i + 1;
    }
    order
}

/// A stable order puts the records in non-decreasing order of key.
pub proof fn lemma_stable_order_sorted(keys: Seq<Option<i128>>, texts: Seq<Seq<char>>, order: Seq<usize>, a: int, b: int)
    requires
        is_stable_order(keys, texts, order),
        0 <= a < b < order.len(),
    ensures
        !key_lt(keys[order[b] as int], keys[order[a] as int]),
{
    assert(precedes(keys, texts, order[a] as int, order[b] as int));
}

/// A stable order keeps records that tie in key and text in the order they
/// came in.
pub proof fn lemma_stable_order_keeps_ties(keys: Seq<Option<i128>>, texts: Seq<Seq<char>>, order: Seq<usize>, a: int, b: int)
    requires
        is_stable_order(keys, texts, order),
        0 <= a < b < order.len(),
        keys[order[a] as int] == keys[order[b] as int],
        texts[order[a] as int] == texts[order[b] as int],
    ensures
        order[a] < order[b],
{
    assert(precedes(keys, texts, order[a] as int, order[b] as int));
    lemma_text_lt_irreflexive(texts[order[a] as int]);
}

/// In a stable order, parsed instants never decrease, records whose key is
/// missing come after all others, and records with equal keys come in text
/// order, those equal in text as well in the order they came in.
pub proof fn lemma_stable_order_by_value(
    keys: Seq<Option<i128>>,
    texts: Seq<Seq<char>>,
    order: Seq<usize>,
    a: int,
    b: int,
)
    requires
        is_stable_order(keys, texts, order),
        0 <= a < b < order.len(),
    ensures
        keys[order[a] as int] is Some && keys[order[b] as int] is Some ==> keys[order[a] as int]->0
            <= keys[order[b] as int]->0,
        keys[order[a] as int] is None ==> keys[order[b] as int] is None,
        keys[order[a] as int] == keys[order[b] as int] ==> !text_lt(texts[order[b] as int], texts[order[a] as int]),
        keys[order[a] as int] == keys[order[b] as int] && texts[order[a] as int] == texts[order[b] as int]
            ==> order[a] < order[b],
{
    assert(precedes(keys, texts, order[a] as int, order[b] as int));
    lemma_text_lt_asymmetric(texts[order[a] as int], texts[order[b] as int]);
    lemma_text_lt_irreflexive(texts[order[a] as int]);
}

} // verus!
