//! The order of texts (character by character, as `String`'s `Ord` compares
//! them: UTF-8 bytes order texts as their code points do) and a stable sort
//! of results by a text key.

use vstd::prelude::*;
use crate::ordering::is_permutation;
use crate::text::chars_of;

verus! {

/// `a` comes no later than `b`: at the first position where they differ,
/// `a` has the smaller character, or `a` is a prefix of `b`.
pub open spec fn text_le(a: Seq<char>, b: Seq<char>) -> bool
    decreases a.len(),
{
    if a.len() == 0 {
        true
    } else if b.len() == 0 {
        false
    } else if a[0] != b[0] {
        (a[0] as int) < (b[0] as int)
    } else {
        text_le(a.drop_first(), b.drop_first())
    }
}

/// A text comes before another whose first differing character is larger,
/// and never after it; a text comes no later than any text it begins.
pub proof fn lemma_text_le_compares_characters(a: Seq<char>, b: Seq<char>, k: int)
    ensures
        0 <= k < a.len() && k < b.len() && a.take(k) == b.take(k) && (a[k] as int) < (b[k] as int) ==> text_le(a, b)
            && !text_le(b, a),
        a.len() <= b.len() && b.take(a.len() as int) == a ==> text_le(a, b),
    decreases a.len(),
{
    if a.len() > 0 && b.len() > 0 {
        lemma_text_le_compares_characters(a.drop_first(), b.drop_first(), k - 1);
        if 0 < k < a.len() && k < b.len() && a.take(k) == b.take(k) {
            assert(a[0] == a.take(k)[0] && b[0] == b.take(k)[0]);
            assert(a.drop_first().take(k - 1) =~= a.take(k).drop_first());
            assert(b.drop_first().take(k - 1) =~= b.take(k).drop_first());
        }
        if a.len() <= b.len() && b.take(a.len() as int) == a {
            assert(b[0] == b.take(a.len() as int)[0]);
            assert(b.drop_first().take(a.drop_first().len() as int) =~= a.drop_first());
        }
    }
}

/// Every text comes no later than itself.
pub proof fn lemma_text_le_reflexive(a: Seq<char>)
    ensures
        text_le(a, a),
    decreases a.len(),
{
    if a.len() > 0 {
        lemma_text_le_reflexive(a.drop_first());
    }
}

/// Any two texts are ordered one way or the other.
pub proof fn lemma_text_le_total(a: Seq<char>, b: Seq<char>)
    ensures
        text_le(a, b) || text_le(b, a),
    decreases a.len(),
{
    if a.len() > 0 && b.len() > 0 && a[0] == b[0] {
        lemma_text_le_total(a.drop_first(), b.drop_first());
    }
}

/// The order is transitive.
pub proof fn lemma_text_le_transitive(a: Seq<char>, b: Seq<char>, c: Seq<char>)
    requires
        text_le(a, b),
        text_le(b, c),
    ensures
        text_le(a, c),
    decreases a.len(),
{
    if a.len() > 0 && b.len() > 0 && c.len() > 0 && a[0] == b[0] && b[0] == c[0] {
        lemma_text_le_transitive(a.drop_first(), b.drop_first(), c.drop_first());
    }
}

/// Texts ordered both ways are equal.
pub proof fn lemma_text_le_antisymmetric(a: Seq<char>, b: Seq<char>)
    requires
        text_le(a, b),
        text_le(b, a),
    ensures
        a == b,
    decreases a.len(),
{
    if a.len() > 0 && b.len() > 0 {
        lemma_text_le_antisymmetric(a.drop_first(), b.drop_first());
        assert(a =~= seq![a[0]] + a.drop_first());
        assert(b =~= seq![b[0]] + b.drop_first());
    } else {
        assert(a =~= b);
    }
}

/// Whether `a` comes no later than `b`.
pub fn text_le_exec(a: &str, b: &str) -> (r: bool)
    ensures
        r == text_le(a@, b@),
{
    let ca = chars_of(a);
    let cb = chars_of(b);
    let mut i: usize = 0;
    proof {
        assert(a@.skip(0) =~= a@);
        assert(b@.skip(0) =~= b@);
    }
    while i < ca.len() && i < cb.len()
        invariant
            i <= ca@.len(),
            i <= cb@.len(),
            ca@ == a@,
            cb@ == b@,
            text_le(a@, b@) == text_le(a@.skip(i as int), b@.skip(i as int)),
        decreases ca@.len() - i,
    {
        proof {
            assert(a@.skip(i as int).drop_first() =~= a@.skip(i + 1));
            assert(b@.skip(i as int).drop_first() =~= b@.skip(i + 1));
            assert(a@.skip(i as int)[0] == a@[i as int]);
            assert(b@.skip(i as int)[0] == b@[i as int]);
        }
        if ca[i] != cb[i] {
            return ca[i] < cb[i];
        }
        i = i + 1;
    }
    i == ca.len()
}

/// `a` may come before `b` in the requested direction.
pub open spec fn text_in_order(a: Seq<char>, b: Seq<char>, ascending: bool) -> bool {
    if ascending { text_le(a, b) } else { text_le(b, a) }
}

/// `order` visits the texts in the requested direction, and keeps equal
/// texts in the order they were given.
pub open spec fn stably_sorted_texts(keys: Seq<String>, order: Seq<usize>, ascending: bool) -> bool {
    &&& forall|i: int, j: int|
        0 <= i < j < order.len() ==> text_in_order(
            keys[#[trigger] order[i] as int]@,
            keys[#[trigger] order[j] as int]@,
            ascending,
        )
    &&& forall|i: int, j: int|
        0 <= i < j < order.len() && keys[order[i] as int]@ == keys[order[j] as int]@
            ==> #[trigger] order[i] < #[trigger] order[j]
}

proof fn lemma_in_order_transitive(a: Seq<char>, b: Seq<char>, c: Seq<char>, ascending: bool)
    requires
        text_in_order(a, b, ascending),
        text_in_order(b, c, ascending),
    ensures
        text_in_order(a, c, ascending),
{
    if ascending {
        lemma_text_le_transitive(a, b, c);
    } else {
        lemma_text_le_transitive(c, b, a);
    }
}

proof fn lemma_in_order_total(a: Seq<char>, b: Seq<char>, ascending: bool)
    ensures
        text_in_order(a, b, ascending) || text_in_order(b, a, ascending),
        a == b ==> text_in_order(a, b, ascending),
{
    lemma_text_le_total(a, b);
    if a == b {
        lemma_text_le_reflexive(a);
    }
}

fn text_in_order_exec(a: &str, b: &str, ascending: bool) -> (r: bool)
    ensures
        r == text_in_order(a@, b@, ascending),
{
    if ascending { text_le_exec(a, b) } else { text_le_exec(b, a) }
}

/// The order in which to list entries with the given text keys, first text
/// first or last first; entries with equal texts keep their relative order,
/// as with a stable sort.
pub fn stable_text_order(keys: &Vec<String>, ascending: bool) -> (r: Vec<usize>)
    ensures
        is_permutation(r@, keys@.len()),
        stably_sorted_texts(keys@, r@, ascending),
        forall|i: int, j: int|
            0 <= i < j < r@.len() ==> (if ascending {
                text_le(keys@[#[trigger] r@[i] as int]@, keys@[#[trigger] r@[j] as int]@)
            } else {
                text_le(keys@[r@[j] as int]@, keys@[r@[i] as int]@)
            }),
{
    let mut out: Vec<usize> = Vec::new();
    let mut k: usize = 0;
    while k < keys.len()
        invariant
            k <= keys@.len(),
            out@.len() == k,
            forall|i: int| 0 <= i < out@.len() ==> (#[trigger] out@[i]) < k,
            forall|i: int, j: int| 0 <= i < j < out@.len() ==> #[trigger] out@[i] != #[trigger] out@[j],
            stably_sorted_texts(keys@, out@, ascending),
        decreases keys@.len() - k,
    {
        let key = keys[k].as_str();
        let mut p: usize = 0;
        while p < out.len() && text_in_order_exec(keys[out[p]].as_str(), key, ascending)
            invariant
                p <= out@.len(),
                out@.len() == k,
                k < keys@.len(),
                key@ == keys@[k as int]@,
                forall|i: int| 0 <= i < out@.len() ==> (#[trigger] out@[i]) < k,
                forall|i: int| 0 <= i < p ==> text_in_order(#[trigger] keys@[out@[i] as int]@, key@, ascending),
            decreases out@.len() - p,
        {
            p = p + 1;
        }
        let ghost before = out@;
        let ghost kv = key@;
        proof {
            assert forall|i: int| p <= i < before.len() implies !text_in_order(
                #[trigger] keys@[before[i] as int]@,
                kv,
                ascending,
            ) by {
                if i > p {
                    assert(text_in_order(keys@[before[p as int] as int]@, keys@[before[i] as int]@, ascending));
                    if text_in_order(keys@[before[i] as int]@, kv, ascending) {
                        lemma_in_order_transitive(
                            keys@[before[p as int] as int]@,
                            keys@[before[i] as int]@,
                            kv,
                            ascending,
                        );
                    }
                }
            }
        }
        out.insert(p, k);
        proof {
            assert(out@ == before.insert(p as int, k));
            assert forall|i: int| 0 <= i < out@.len() implies (#[trigger] out@[i]) < k + 1 by {
                if i < p {
                    assert(out@[i] == before[i]);
                } else if i > p {
                    assert(out@[i] == before[i - 1]);
                }
            }
            assert forall|i: int, j: int| 0 <= i < j < out@.len() implies #[trigger] out@[i] != #[trigger] out@[j] by {
                if i < p && j < p {
                    assert(out@[i] == before[i] && out@[j] == before[j]);
                } else if i < p && j == p {
                    assert(out@[i] == before[i]);
                } else if i < p && j > p {
                    assert(out@[i] == before[i] && out@[j] == before[j - 1]);
                } else if i == p {
                    assert(out@[j] == before[j - 1]);
                } else {
                    assert(out@[i] == before[i - 1] && out@[j] == before[j - 1]);
                }
            }
            assert forall|i: int, j: int| 0 <= i < j < out@.len() implies text_in_order(
                keys@[#[trigger] out@[i] as int]@,
                keys@[#[trigger] out@[j] as int]@,
                ascending,
            ) by {
                if i < p && j < p {
                    assert(out@[i] == before[i] && out@[j] == before[j]);
                } else if i < p && j == p {
                    assert(out@[i] == before[i]);
                } else if i < p && j > p {
                    assert(out@[i] == before[i] && out@[j] == before[j - 1]);
                } else if i == p {
                    assert(out@[j] == before[j - 1]);
                    assert(!text_in_order(keys@[before[j - 1] as int]@, kv, ascending));
                    lemma_in_order_total(kv, keys@[before[j - 1] as int]@, ascending);
                } else {
                    assert(out@[i] == before[i - 1] && out@[j] == before[j - 1]);
                }
            }
            assert forall|i: int, j: int|
                0 <= i < j < out@.len() && keys@[out@[i] as int]@ == keys@[out@[j] as int]@
                implies #[trigger] out@[i] < #[trigger] out@[j] by {
                if i < p && j < p {
                    assert(out@[i] == before[i] && out@[j] == before[j]);
                } else if i < p && j == p {
                    assert(out@[i] == before[i]);
                } else if i < p && j > p {
                    assert(out@[i] == before[i] && out@[j] == before[j - 1]);
                } else if i == p {
                    assert(out@[j] == before[j - 1]);
                    assert(!text_in_order(keys@[before[j - 1] as int]@, kv, ascending));
                    lemma_in_order_total(keys@[before[j - 1] as int]@, kv, ascending);
                } else {
                    assert(out@[i] == before[i - 1] && out@[j] == before[j - 1]);
                }
            }
        }
        k = k + 1;
    }
    out
}

} // verus!
