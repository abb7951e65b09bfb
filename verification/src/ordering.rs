//! Ordering screener results: which field a sort uses, and a stable sort of
//! results by an integer key.

use vstd::prelude::*;
use crate::api::ApiError;
use crate::text::{concat_str, str_eq};

verus! {

/// The field a screener sort uses.
#[derive(Debug, Clone, Copy, PartialEq, Eq, Structural)]
pub enum SortField {
    Symbol,
    Price,
    ChangePercent,
    Volume,
    MarketCap,
    PeRatio,
}

/// The sort field named `name`, if there is one.
pub open spec fn sort_field_of(name: Seq<char>) -> Option<SortField> {
    if name == "symbol"@ {
        Some(SortField::Symbol)
    } else if name == "price"@ {
        Some(SortField::Price)
    } else if name == "change_percent"@ {
        Some(SortField::ChangePercent)
    } else if name == "volume"@ {
        Some(SortField::Volume)
    } else if name == "market_cap"@ {
        Some(SortField::MarketCap)
    } else if name == "pe_ratio"@ {
        Some(SortField::PeRatio)
    } else {
        None
    }
}

/// The name a request gives a sort field: `symbol`, `price`,
/// `change_percent`, `volume`, `market_cap`, `pe_ratio`.
pub open spec fn sort_field_name(f: SortField) -> Seq<char> {
    match f {
        SortField::Symbol => "symbol"@,
        SortField::Price => "price"@,
        SortField::ChangePercent => "change_percent"@,
        SortField::Volume => "volume"@,
        SortField::MarketCap => "market_cap"@,
        SortField::PeRatio => "pe_ratio"@,
    }
}

/// Reading a sort field's name gives that field, distinct fields have
/// distinct names, and a name is read as a field only when it is that
/// field's name.
pub proof fn lemma_sort_field_names(f: SortField, g: SortField, name: Seq<char>)
    ensures
        sort_field_of(sort_field_name(f)) == Some(f),
        f != g ==> sort_field_name(f) != sort_field_name(g),
        sort_field_of(name) matches Some(h) ==> name == sort_field_name(h),
{
    reveal_strlit("symbol");
    reveal_strlit("price");
    reveal_strlit("change_percent");
    reveal_strlit("volume");
    reveal_strlit("market_cap");
    reveal_strlit("pe_ratio");
    // The names differ in length or in their first letter.
    assert("symbol"@.len() == 6 && "symbol"@[0] == 's');
    assert("price"@.len() == 5 && "price"@[0] == 'p');
    assert("change_percent"@.len() == 14 && "change_percent"@[0] == 'c');
    assert("volume"@.len() == 6 && "volume"@[0] == 'v');
    assert("market_cap"@.len() == 10 && "market_cap"@[0] == 'm');
    assert("pe_ratio"@.len() == 8 && "pe_ratio"@[0] == 'p');
}

/// Reads the name of a sort field; any other name is refused with
/// `InvalidParameters("Unknown sort field: <name>")`.
pub fn parse_sort_field(name: &str) -> (r: Result<SortField, ApiError>)
    ensures
        match r {
            Ok(f) => sort_field_of(name@) == Some(f),
            Err(e) => sort_field_of(name@) is None
                && (e matches ApiError::InvalidParameters(m) && m@ == "Unknown sort field: "@ + name@),
        },
        r matches Ok(f) ==> name@ == sort_field_name(f),
        forall|f: SortField| name@ == sort_field_name(f) ==> r == Ok::<SortField, ApiError>(f),
{
    proof {
        assert forall|f: SortField| name@ == sort_field_name(f) implies sort_field_of(name@) == Some(f) by {
            lemma_sort_field_names(f, f, name@);
        }
        if sort_field_of(name@) is Some {
            lemma_sort_field_names(SortField::Symbol, SortField::Symbol, name@);
        }
    }
    if str_eq(name, "symbol") {
        Ok(SortField::Symbol)
    } else if str_eq(name, "price") {
        Ok(SortField::Price)
    } else if str_eq(name, "change_percent") {
        Ok(SortField::ChangePercent)
    } else if str_eq(name, "volume") {
        Ok(SortField::Volume)
    } else if str_eq(name, "market_cap") {
        Ok(SortField::MarketCap)
    } else if str_eq(name, "pe_ratio") {
        Ok(SortField::PeRatio)
    } else {
        Err(ApiError::InvalidParameters(concat_str("Unknown sort field: ", name)))
    }
}

/// `a` may come before `b` in the requested direction.
pub open spec fn in_order(a: u64, b: u64, ascending: bool) -> bool {
    if ascending { a <= b } else { a >= b }
}

/// `order` lists each position `0..n` once.
pub open spec fn is_permutation(order: Seq<usize>, n: nat) -> bool {
    &&& order.len() == n
    &&& forall|i: int| 0 <= i < order.len() ==> (#[trigger] order[i]) < n
    &&& forall|i: int, j: int| 0 <= i < j < order.len() ==> #[trigger] order[i] != #[trigger] order[j]
}

/// `order` visits the keys in the requested direction, and keeps entries with
/// equal keys in the order they were given.
pub open spec fn stably_sorted(keys: Seq<u64>, order: Seq<usize>, ascending: bool) -> bool {
    &&& forall|i: int, j: int|
        0 <= i < j < order.len() ==> in_order(keys[#[trigger] order[i] as int], keys[#[trigger] order[j] as int], ascending)
    &&& forall|i: int, j: int|
        0 <= i < j < order.len() && keys[order[i] as int] == keys[order[j] as int]
            ==> #[trigger] order[i] < #[trigger] order[j]
}

/// The order in which to list entries with the given keys, smallest key first
/// or largest first; entries with equal keys keep their relative order, as
/// with a stable sort.
pub fn stable_order(keys: &Vec<u64>, ascending: bool) -> (r: Vec<usize>)
    ensures
        is_permutation(r@, keys@.len()),
        stably_sorted(keys@, r@, ascending),
        forall|i: int, j: int|
            0 <= i < j < r@.len() ==> (if ascending {
                keys@[#[trigger] r@[i] as int] <= keys@[#[trigger] r@[j] as int]
            } else {
                keys@[r@[i] as int] >= keys@[r@[j] as int]
            }),
{
    let mut out: Vec<usize> = Vec::new();
    let mut k: usize = 0;
    while k < keys.len()
        invariant
            k <= keys@.len(),
            out@.len() == k,
            forall|i: int| 0 <= i < out@.len() ==> (#[trigger] out@[i]) < k,
            forall|i: int, j: int| 0 <= i < j < out@.len() ==> #[trigger] out@[i] != #[trigger] out@[j],
            stably_sorted(keys@, out@, ascending),
        decreases keys@.len() - k,
    {
        let key: u64 = keys[k];
        let mut p: usize = 0;
        while p < out.len() && in_order_exec(keys[out[p]], key, ascending)
            invariant
                p <= out@.len(),
                out@.len() == k,
                k < keys@.len(),
                key == keys@[k as int],
                forall|i: int| 0 <= i < out@.len() ==> (#[trigger] out@[i]) < k,
                forall|i: int| 0 <= i < p ==> in_order(#[trigger] keys@[out@[i] as int], key, ascending),
            decreases out@.len() - p,
        {
            p = p + 1;
        }
        let ghost before = out@;
        proof {
            assert forall|i: int| p <= i < before.len() implies !in_order(
                #[trigger] keys@[before[i] as int],
                key,
                ascending,
            ) by {
                assert(stably_sorted(keys@, before, ascending));
                if i > p {
                    assert(in_order(keys@[before[p as int] as int], keys@[before[i] as int], ascending));
                }
            }
        }
        out.insert(p, k);
        proof {
            assert(out@ == before.insert(p as int, k));
            assert forall|i: int| 0 <= i < out@.len() implies (#[trigger] out@[i]) < k + 1 by {
                if i < p {
                    assert(out@[i] == before[i]);
                } else if i > p {
                    assert(out@[i] == before[i - 1]);
                }
            }
            assert forall|i: int, j: int| 0 <= i < j < out@.len() implies #[trigger] out@[i] != #[trigger] out@[j] by {
                if i < p && j < p {
                    assert(out@[i] == before[i] && out@[j] == before[j]);
                } else if i < p && j == p {
                    assert(out@[i] == before[i]);
                } else if i < p && j > p {
                    assert(out@[i] == before[i] && out@[j] == before[j - 1]);
                } else if i == p {
                    assert(out@[j] == before[j - 1]);
                } else {
                    assert(out@[i] == before[i - 1] && out@[j] == before[j - 1]);
                }
            }
            assert forall|i: int, j: int| 0 <= i < j < out@.len() implies in_order(
                keys@[#[trigger] out@[i] as int],
                keys@[#[trigger] out@[j] as int],
                ascending,
            ) by {
                if i < p && j < p {
                    assert(out@[i] == before[i] && out@[j] == before[j]);
                } else if i < p && j == p {
                    assert(out@[i] == before[i]);
                } else if i < p && j > p {
                    assert(out@[i] == before[i] && out@[j] == before[j - 1]);
                    assert(!in_order(keys@[before[j - 1] as int], key, ascending));
                } else if i == p {
                    assert(out@[j] == before[j - 1]);
                    assert(!in_order(keys@[before[j - 1] as int], key, ascending));
                } else {
                    assert(out@[i] == before[i - 1] && out@[j] == before[j - 1]);
                }
            }
            assert forall|i: int, j: int|
                0 <= i < j < out@.len() && keys@[out@[i] as int] == keys@[out@[j] as int]
                implies #[trigger] out@[i] < #[trigger] out@[j] by {
                if i < p && j < p {
                    assert(out@[i] == before[i] && out@[j] == before[j]);
                } else if i < p && j == p {
                    assert(out@[i] == before[i]);
                } else if i < p && j > p {
                    assert(out@[i] == before[i] && out@[j] == before[j - 1]);
                    assert(!in_order(keys@[before[j - 1] as int], key, ascending));
                } else if i == p {
                    assert(out@[j] == before[j - 1]);
                    assert(!in_order(keys@[before[j - 1] as int], key, ascending));
                } else {
                    assert(out@[i] == before[i - 1] && out@[j] == before[j - 1]);
                }
            }
        }
        k = k + 1;
    }
    out
}

fn in_order_exec(a: u64, b: u64, ascending: bool) -> (r: bool)
    ensures
        r == in_order(a, b, ascending),
{
    if ascending { a <= b } else { a >= b }
}

} // verus!
