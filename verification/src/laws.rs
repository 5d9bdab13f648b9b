//! The guarantees behind the cheap update paths, proved once and for all.
//!
//! The buffer's operations state *which* index the cache holds afterwards;
//! the lemmas here say why that index deserves the name "minimum": under a
//! total order the scan's pick is a least element, one incremental push gives
//! the same answer as a full rescan, and the targeted single-index update is
//! observationally the same as the rescanning fallback.

use crate::order::{
    comparison_antisymmetric, comparison_defined, comparison_transitive, le_under, lemma_reflexive,
    total_order,
};
use crate::scan::{push_min_index, pushed_min_index, scan_min, scan_min_from, single_update_min_index};
use core::cmp::Ordering;
use vstd::prelude::*;
use vstd::std_specs::cmp::{PartialEqSpec, PartialOrdSpec};

verus! {

/// A candidate that is below everything seen so far stays below everything:
/// the scan's final pick is below every element of the sequence.
proof fn lemma_scan_min_from_least<T: PartialOrd>(s: Seq<T>, c: int, i: int)
    requires
        comparison_defined::<T>(),
        comparison_antisymmetric::<T>(),
        comparison_transitive::<T>(),
        0 <= c < i <= s.len(),
        forall|j: int| 0 <= j < i ==> #[trigger] le_under(s[c], s[j]),
    ensures
        scan_min_from(s, c, i) matches Some(m) && 0 <= m < s.len() && (forall|j: int|
            0 <= j < s.len() ==> #[trigger] le_under(s[m], s[j])),
    decreases s.len() - i,
{
    if i >= s.len() {
    } else {
        assert(s[c].partial_cmp_spec(&s[i]) is Some);
        match s[c].partial_cmp_spec(&s[i]) {
            Some(Ordering::Greater) => {
                assert(s[i].partial_cmp_spec(&s[c]) == Some(Ordering::Less));
                assert(le_under(s[i], s[c]));
                lemma_reflexive(s[i]);
                assert forall|j: int| 0 <= j < i + 1 implies #[trigger] le_under(s[i], s[j]) by {
                    if j != i {
                        assert(le_under(s[c], s[j]));
                    }
                }
                lemma_scan_min_from_least(s, i, i + 1);
            },
            Some(_) => {
                assert(le_under(s[c], s[i]));
                lemma_scan_min_from_least(s, c, i + 1);
            },
            None => {
                assert(false);
            },
        }
    }
}

/// Every non-empty sequence under a total order has a defined scan minimum;
/// it is below every element, so no element compares strictly less than it.
pub proof fn lemma_scan_min_is_least<T: PartialOrd>(s: Seq<T>)
    requires
        total_order::<T>(),
        s.len() > 0,
    ensures
        scan_min(s) matches Some(m) && 0 <= m < s.len() && (forall|j: int|
            0 <= j < s.len() ==> #[trigger] le_under(s[m], s[j])) && (forall|j: int|
            0 <= j < s.len() ==> (#[trigger] s[j].partial_cmp_spec(&s[m])) != Some(
                Ordering::Less,
            )),
{
    lemma_reflexive(s[0]);
    assert(le_under(s[0], s[0]));
    lemma_scan_min_from_least(s, 0, 1);
    let m = scan_min(s)->0;
    assert forall|j: int|
        0 <= j < s.len() implies (#[trigger] s[j].partial_cmp_spec(&s[m])) != Some(
        Ordering::Less,
    ) by {
        assert(le_under(s[m], s[j]));
        if s[j].partial_cmp_spec(&s[m]) == Some(Ordering::Less) {
            assert(s[m].partial_cmp_spec(&s[j]) == Some(Ordering::Greater));
        }
    }
}

/// Appending one value extends the scan by exactly one comparison against
/// whatever the scan of the shorter sequence picked.
proof fn lemma_scan_min_from_push<T: PartialOrd>(s: Seq<T>, v: T, c: int, i: int)
    requires
        comparison_defined::<T>(),
        0 <= c < i <= s.len(),
    ensures
        scan_min_from(s, c, i) matches Some(m) && 0 <= m < s.len() && scan_min_from(
            s.push(v),
            c,
            i,
        ) == (match s[m].partial_cmp_spec(&v) {
            Some(Ordering::Greater) => Some(s.len() as int),
            _ => Some(m),
        }),
    decreases s.len() - i,
{
    let s2 = s.push(v);
    if i >= s.len() {
        assert(s2[c] == s[c]);
        assert(s2[i] == v);
        assert(s[c].partial_cmp_spec(&v) is Some);
        match s[c].partial_cmp_spec(&v) {
            Some(Ordering::Greater) => {
                assert(scan_min_from(s2, i, i + 1) == Some(i));
            },
            Some(_) => {
                assert(scan_min_from(s2, c, i + 1) == Some(c));
            },
            None => {
                assert(false);
            },
        }
    } else {
        assert(s2[c] == s[c]);
        assert(s2[i] == s[i]);
        assert(s[c].partial_cmp_spec(&s[i]) is Some);
        match s[c].partial_cmp_spec(&s[i]) {
            Some(Ordering::Greater) => {
                lemma_scan_min_from_push(s, v, i, i + 1);
            },
            Some(_) => {
                lemma_scan_min_from_push(s, v, c, i + 1);
            },
            None => {
                assert(false);
            },
        }
    }
}

/// One push kept incremental: applied to a cache that equals a full scan of
/// the old contents, the single-comparison push rule gives exactly what a
/// full rescan of the extended sequence gives.
pub proof fn lemma_push_matches_rescan<T: PartialOrd>(s: Seq<T>, v: T)
    requires
        total_order::<T>(),
    ensures
        push_min_index(s, scan_min(s), v) == scan_min(s.push(v)),
{
    let s2 = s.push(v);
    if s.len() == 0 {
        assert(scan_min(s2) == scan_min_from(s2, 0, 1));
        assert(scan_min_from(s2, 0, 1) == Some(0int));
    } else {
        lemma_scan_min_from_push(s, v, 0, 1);
        let m = scan_min(s)->0;
        assert(s[m].partial_cmp_spec(&v) is Some);
        assert(v.partial_cmp_spec(&s[m]) is Some);
        if s[m].partial_cmp_spec(&v) == Some(Ordering::Greater) {
            assert(v.partial_cmp_spec(&s[m]) == Some(Ordering::Less));
        } else {
            if v.partial_cmp_spec(&s[m]) == Some(Ordering::Less) {
                assert(s[m].partial_cmp_spec(&v) == Some(Ordering::Greater));
            }
        }
    }
}

/// After any sequence of pushes into an empty buffer, the incrementally kept
/// cache equals a full rescan of the pushed values: incremental and batch
/// computation agree.
pub proof fn lemma_pushes_match_rescan<T: PartialOrd>(vs: Seq<T>)
    requires
        total_order::<T>(),
    ensures
        pushed_min_index(vs) == scan_min(vs),
    decreases vs.len(),
{
    if vs.len() == 0 {
    } else {
        lemma_pushes_match_rescan(vs.drop_last());
        lemma_push_matches_rescan(vs.drop_last(), vs.last());
        assert(vs.drop_last().push(vs.last()) =~= vs);
    }
}

/// Targeted single-index mutation is observationally the same as the
/// rescanning fallback: under a total order, starting from a cache that
/// equals a full scan, the single-comparison rule and a full rescan of the
/// updated sequence both find a minimum, and the two compare `Equal`.
pub proof fn lemma_single_update_matches_rescan<T: PartialOrd>(s0: Seq<T>, i: int, y: T)
    requires
        total_order::<T>(),
        0 <= i < s0.len(),
        scan_min(s0) is Some,
    ensures
        ({
            let m = scan_min(s0)->0;
            let s = s0.update(i, y);
            single_update_min_index(s0, m, i, y) matches Some(k) && 0 <= k < s.len() && (
            scan_min(s) matches Some(r) && s[k].partial_cmp_spec(&s[r]) == Some(Ordering::Equal))
        }),
{
    let m = scan_min(s0)->0;
    let s = s0.update(i, y);
    lemma_scan_min_is_least(s0);
    lemma_scan_min_is_least(s);
    let r = scan_min(s)->0;
    if s0[m].eq_spec(&s0[i]) {
        lemma_reflexive(s[r]);
    } else {
        lemma_reflexive(s0[m]);
        assert(m != i);
        assert(s[m] == s0[m]);
        assert(s[i] == y);
        assert(s[m].partial_cmp_spec(&s[i]) is Some);
        let k: int = if s[m].partial_cmp_spec(&s[i]) == Some(Ordering::Greater) {
            i
        } else {
            m
        };
        assert(single_update_min_index(s0, m, i, y) == Some(k));
        lemma_reflexive(s[k]);
        if k == i {
            assert(s[i].partial_cmp_spec(&s[m]) == Some(Ordering::Less));
            assert(le_under(s[i], s[m]));
        } else {
            assert(le_under(s[m], s[i]));
        }
        assert forall|j: int| 0 <= j < s.len() implies #[trigger] le_under(s[k], s[j]) by {
            if j != i && j != k {
                assert(s[j] == s0[j]);
                assert(le_under(s0[m], s0[j]));
                assert(le_under(s[m], s[j]));
            }
        }
        assert(le_under(s[k], s[r]));
        assert(le_under(s[r], s[k]));
        if s[k].partial_cmp_spec(&s[r]) == Some(Ordering::Less) {
            assert(s[r].partial_cmp_spec(&s[k]) == Some(Ordering::Greater));
            assert(false);
        }
    }
}

/// One undefined comparison poisons the whole scan: a pair of incomparable
/// values has no scan minimum, although the sequence is not empty.
pub proof fn lemma_undefined_pair_has_no_min<T: PartialOrd>(a: T, b: T)
    requires
        a.partial_cmp_spec(&b) is None,
    ensures
        scan_min(seq![a, b]) is None,
{
    let s = seq![a, b];
    assert(s[0] == a);
    assert(s[1] == b);
    assert(scan_min_from(s, 0, 1) is None);
}

} // verus!
