//! The full recomputation scan and the incremental update rules.
//!
//! `scan_min` is the mathematical left-to-right fold that defines which
//! element counts as the minimum: ties keep the earlier element, and one
//! undefined comparison aborts the whole scan.  `slice_min` is its executable
//! counterpart.  `push_min_index` and `single_update_min_index` state the two
//! cheap update rules that the buffer uses instead of rescanning.

use core::cmp::Ordering;
use vstd::prelude::*;
use vstd::std_specs::cmp::{PartialEqSpec, PartialOrdSpec};

verus! {

/// The scan continued from candidate index `c` at position `i`: the candidate
/// is replaced only by a strictly smaller element, and an undefined comparison
/// aborts with `None`.
pub open spec fn scan_min_from<T: PartialOrd>(s: Seq<T>, c: int, i: int) -> Option<int>
    recommends
        0 <= c < i <= s.len(),
    decreases s.len() - i,
{
    if i >= s.len() {
        Some(c)
    } else {
        match s[c].partial_cmp_spec(&s[i]) {
            None => None,
            Some(Ordering::Greater) => scan_min_from(s, i, i + 1),
            Some(_) => scan_min_from(s, c, i + 1),
        }
    }
}

/// Index of the minimum that one full left-to-right scan finds: `None` for an
/// empty sequence, and `None` as soon as one needed comparison is undefined.
pub open spec fn scan_min<T: PartialOrd>(s: Seq<T>) -> Option<int> {
    if s.len() == 0 {
        None
    } else {
        scan_min_from(s, 0, 1)
    }
}

/// An executable index, read as a mathematical one.
pub open spec fn index_option(r: Option<usize>) -> Option<int> {
    match r {
        None => None,
        Some(i) => Some(i as int),
    }
}

/// What one push leaves in the cache: the first element is always the minimum,
/// an absent minimum of a non-empty buffer stays absent, and otherwise a single
/// comparison decides between the old minimum and the new value.
pub open spec fn push_min_index<T: PartialOrd>(s: Seq<T>, m: Option<int>, v: T) -> Option<int> {
    if s.len() == 0 {
        Some(0)
    } else {
        match m {
            None => None,
            Some(i) => if v.partial_cmp_spec(&s[i]) == Some(Ordering::Less) {
                Some(s.len() as int)
            } else {
                Some(i)
            },
        }
    }
}

/// What a targeted mutation of position `i` to value `y` leaves in the cache,
/// given that position `m` held the minimum before: a full rescan when the
/// mutated element equalled the minimum, otherwise one comparison between the
/// untouched minimum and the new value.
pub open spec fn single_update_min_index<T: PartialOrd>(
    s0: Seq<T>,
    m: int,
    i: int,
    y: T,
) -> Option<int> {
    let s = s0.update(i, y);
    if s0[m].eq_spec(&s0[i]) {
        scan_min(s)
    } else {
        match s[m].partial_cmp_spec(&s[i]) {
            None => None,
            Some(Ordering::Greater) => Some(i),
            Some(_) => Some(m),
        }
    }
}

/// The cache left by pushing the values of `vs` in order into an empty buffer,
/// applying only the incremental push rule.
pub open spec fn pushed_min_index<T: PartialOrd>(vs: Seq<T>) -> Option<int>
    decreases vs.len(),
{
    if vs.len() == 0 {
        None
    } else {
        push_min_index(vs.drop_last(), pushed_min_index(vs.drop_last()), vs.last())
    }
}

/// Full recomputation: one linear scan of the slice, returning the index of
/// its minimum, or `None` when the slice is empty or a comparison that the
/// scan needs is undefined.
pub fn slice_min<T: PartialOrd>(slice: &[T]) -> (r: Option<usize>)
    ensures
        T::obeys_partial_cmp_spec() ==> index_option(r) == scan_min(slice@),
        r matches Some(j) ==> j < slice@.len(),
{
    let n = slice.len();
    if n == 0 {
        return None;
    }
    let mut c: usize = 0;
    let mut i: usize = 1;
    while i < n
        invariant
            1 <= i <= n,
            c < i,
            n == slice@.len(),
            T::obeys_partial_cmp_spec() ==> scan_min_from(slice@, c as int, i as int) == scan_min(
                slice@,
            ),
        decreases n - i,
    {
        let o = (&slice[c]).partial_cmp(&slice[i]);
        match o {
            None => {
                return None;
            },
            Some(Ordering::Greater) => {
                c = i;
            },
            Some(_) => {},
        }
        i = i + 1;
    }
    Some(c)
}

/// The smaller of two values by one pairwise comparison: ties keep `lhs`, an
/// undefined comparison yields `None`.
pub fn partial_min<'a, T: PartialOrd>(lhs: &'a T, rhs: &'a T) -> (r: Option<&'a T>)
    ensures
        T::obeys_partial_cmp_spec() ==> match lhs.partial_cmp_spec(rhs) {
            None => r is None,
            Some(Ordering::Greater) => r matches Some(m) && *m == *rhs,
            Some(_) => r matches Some(m) && *m == *lhs,
        },
{
    match lhs.partial_cmp(rhs) {
        None => None,
        Some(Ordering::Greater) => Some(rhs),
        Some(_) => Some(lhs),
    }
}

} // verus!
