//! The buffer and its cached minimum.
//!
//! Elements live in a growable vector in insertion order; the cache is the
//! *position* of the minimum rather than a raw reference into the storage, so
//! it stays meaningful when the storage grows and relocates.  Every operation
//! that could invalidate the cache refreshes it before returning.

use crate::laws::lemma_scan_min_is_least;
use crate::order::{le_under, total_order};
use crate::scan::{
    index_option, push_min_index, scan_min, single_update_min_index, slice_min,
};
use core::cmp::Ordering;
use vstd::prelude::*;
use vstd::slice::slice_to_vec;
use vstd::std_specs::cmp::{PartialEqSpec, PartialOrdSpec};

verus! {

/// A collection that knows its own minimum value.
///
/// `S` is the inline-capacity hint fixed at the type level; it does not affect
/// which elements the buffer holds or which one is the minimum.  Comparisons
/// and equality between two buffers are delegated to their minimum values, so
/// a tree of buffers can derive its overall minimum from the children's cached
/// ones without visiting every leaf.
#[derive(Debug)]
pub struct MinSmallVec<T: PartialOrd, const S: usize> {
    inner: Vec<T>,
    /// Position of the minimum; `None` when the buffer is empty or a
    /// comparison that the last scan needed was undefined.
    min: Option<usize>,
}

impl<T: PartialOrd, const S: usize> View for MinSmallVec<T, S> {
    type V = Seq<T>;

    closed spec fn view(&self) -> Seq<T> {
        self.inner@
    }
}

impl<T: PartialOrd, const S: usize> MinSmallVec<T, S> {
    /// The cached position never dangles: it always lies inside the buffer.
    #[verifier::type_invariant]
    spec fn cache_in_bounds(self) -> bool {
        self.min matches Some(i) ==> i < self.inner@.len()
    }

    /// The cached minimum's position, if one is cached.
    pub closed spec fn min_index(&self) -> Option<int> {
        index_option(self.min)
    }

    /// The cached minimum's value, if one is cached.
    pub open spec fn min_value(&self) -> Option<T> {
        match self.min_index() {
            None => None,
            Some(i) => Some(self@[i]),
        }
    }

    /// An empty buffer with room for at least `capacity` elements.
    pub fn with_capacity(capacity: usize) -> (r: Self)
        ensures
            r@ == Seq::<T>::empty(),
            r.min_index() is None,
    {
        MinSmallVec { inner: Vec::with_capacity(capacity), min: None }
    }

    /// An empty buffer.
    pub fn new() -> (r: Self)
        ensures
            r@ == Seq::<T>::empty(),
            r.min_index() is None,
    {
        MinSmallVec { inner: Vec::new(), min: None }
    }

    /// Copies the slice into a fresh buffer and finds its minimum by one scan.
    pub fn from_slice(slice: &[T]) -> (r: Self) where T: Copy
        ensures
            r@ == slice@,
            T::obeys_partial_cmp_spec() ==> r.min_index() == scan_min(slice@),
    {
        let min = slice_min(slice);
        MinSmallVec { inner: slice_to_vec(slice), min }
    }

    /// Consumes an already materialized sequence of values and finds its
    /// minimum by one scan.
    pub fn from_iterator(values: Vec<T>) -> (r: Self)
        ensures
            r@ == values@,
            T::obeys_partial_cmp_spec() ==> r.min_index() == scan_min(values@),
    {
        let min = slice_min(values.as_slice());
        MinSmallVec { inner: values, min }
    }

    /// A reference to the cached minimum value, without any scan.  Whenever
    /// the cache equals a full scan of the contents and the order is total,
    /// the returned element is below every element of the buffer.
    pub fn get_min(&self) -> (r: Option<&T>)
        ensures
            match (r, self.min_value()) {
                (None, None) => true,
                (Some(e), Some(v)) => *e == v,
                _ => false,
            },
            self@.len() == 0 ==> r is None,
            r matches Some(e) ==> exists|i: int| 0 <= i < self@.len() && *e == self@[i],
            total_order::<T>() && self.min_index() == scan_min(self@) && self@.len() > 0 ==> (
            r matches Some(e) && (forall|j: int|
                0 <= j < self@.len() ==> le_under(*e, #[trigger] self@[j]))),
    {
        proof {
            use_type_invariant(&*self);
            if total_order::<T>() && self.min_index() == scan_min(self@) && self@.len() > 0 {
                lemma_scan_min_is_least(self@);
            }
        }
        match self.min {
            None => None,
            Some(i) => Some(&self.inner[i]),
        }
    }

    /// Appends `value` and refreshes the cache with at most one comparison:
    /// the first element becomes the minimum outright, an absent minimum of a
    /// non-empty buffer stays absent, and otherwise the new value takes over
    /// only when it compares strictly below the old minimum.
    pub fn push(&mut self, value: T)
        ensures
            final(self)@ == old(self)@.push(value),
            old(self)@.len() == 0 ==> final(self).min_index() == Some(0int),
            old(self)@.len() > 0 && old(self).min_index() is None ==> final(self).min_index()
                is None,
            T::obeys_partial_cmp_spec() ==> final(self).min_index() == push_min_index(
                old(self)@,
                old(self).min_index(),
                value,
            ),
    {
        proof {
            use_type_invariant(&*self);
        }
        let m = self.min;
        self.min = None;
        let mut v: Vec<T> = Vec::new();
        std::mem::swap(&mut v, &mut self.inner);
        v.push(value);
        let n = v.len();
        let new_min: Option<usize> = if n == 1 {
            Some(0)
        } else {
            match m {
                None => None,
                Some(i) => {
                    if (&v[n - 1]).lt(&v[i]) {
                        Some(n - 1)
                    } else {
                        Some(i)
                    }
                },
            }
        };
        std::mem::swap(&mut v, &mut self.inner);
        self.min = new_min;
    }

    /// Hands the whole element vector to `f` and rebuilds the cache by one
    /// full scan afterwards: arbitrary mutation offers no cheaper guarantee.
    pub fn modify<F: FnOnce(Vec<T>) -> Vec<T>>(&mut self, f: F)
        requires
            forall|v: Vec<T>| v@ == old(self)@ ==> #[trigger] call_requires(f, (v,)),
        ensures
            exists|v: Vec<T>, w: Vec<T>|
                v@ == old(self)@ && w@ == final(self)@ && #[trigger] call_ensures(f, (v,), w),
            T::obeys_partial_cmp_spec() ==> final(self).min_index() == scan_min(final(self)@),
    {
        self.min = None;
        let mut v: Vec<T> = Vec::new();
        std::mem::swap(&mut v, &mut self.inner);
        let w = f(v);
        let min = slice_min(w.as_slice());
        self.inner = w;
        self.min = min;
    }

    /// Replaces the element at `index` with `f`'s result.  When the old
    /// element equalled the cached minimum the cache is rebuilt by a full
    /// scan; otherwise one comparison between the untouched minimum and the
    /// new value refreshes it.  The buffer must hold a cached minimum and the
    /// index must be in range: violating either is a contract violation, not
    /// a recoverable state.
    pub fn modify_single<F: FnOnce(&T) -> T>(&mut self, index: usize, f: F)
        requires
            old(self).min_index() is Some,
            index < old(self)@.len(),
            call_requires(f, (&old(self)@[index as int],)),
        ensures
            exists|y: T|
                {
                    &&& #[trigger] call_ensures(f, (&old(self)@[index as int],), y)
                    &&& final(self)@ == old(self)@.update(index as int, y)
                    &&& T::obeys_eq_spec() && T::obeys_partial_cmp_spec()
                        ==> final(self).min_index() == single_update_min_index(
                        old(self)@,
                        old(self).min_index()->0,
                        index as int,
                        y,
                    )
                },
    {
        proof {
            use_type_invariant(&*self);
        }
        let m = self.min.unwrap();
        self.min = None;
        let mut v: Vec<T> = Vec::new();
        std::mem::swap(&mut v, &mut self.inner);
        let was_min = (&v[m]).eq(&v[index]);
        let y = f(&v[index]);
        v[index] = y;
        let new_min: Option<usize> = if was_min {
            slice_min(v.as_slice())
        } else {
            match (&v[m]).partial_cmp(&v[index]) {
                None => None,
                Some(Ordering::Greater) => Some(index),
                Some(_) => Some(m),
            }
        };
        std::mem::swap(&mut v, &mut self.inner);
        self.min = new_min;
    }
}

impl<T: PartialOrd, const S: usize> Default for MinSmallVec<T, S> {
    /// An empty buffer, the same as `new`.
    fn default() -> (r: Self)
        ensures
            r@ == Seq::<T>::empty(),
            r.min_index() is None,
    {
        MinSmallVec { inner: Vec::new(), min: None }
    }
}

impl<T: PartialOrd + Eq, const S: usize> vstd::std_specs::cmp::PartialEqSpecImpl for MinSmallVec<T, S> {
    open spec fn obeys_eq_spec() -> bool {
        T::obeys_eq_spec()
    }

    /// Two buffers are equal exactly when their cached minimum values are,
    /// an absent minimum equalling only an absent one.
    open spec fn eq_spec(&self, other: &Self) -> bool {
        match (self.min_value(), other.min_value()) {
            (None, None) => true,
            (Some(a), Some(b)) => a.eq_spec(&b),
            _ => false,
        }
    }
}

impl<T: PartialOrd + Eq, const S: usize> PartialEq for MinSmallVec<T, S> {
    fn eq(&self, other: &Self) -> (r: bool) {
        proof {
            use_type_invariant(&*self);
            use_type_invariant(&*other);
        }
        match (self.min, other.min) {
            (None, None) => true,
            (Some(i), Some(j)) => (&self.inner[i]).eq(&other.inner[j]),
            _ => false,
        }
    }
}

impl<T: PartialOrd + Eq, const S: usize> Eq for MinSmallVec<T, S> {}

impl<T: PartialOrd + Eq, const S: usize> vstd::std_specs::cmp::PartialOrdSpecImpl for MinSmallVec<T, S> {
    open spec fn obeys_partial_cmp_spec() -> bool {
        T::obeys_partial_cmp_spec()
    }

    /// Buffers are ordered solely by their cached minimum values; a buffer
    /// without one compares to nothing.
    open spec fn partial_cmp_spec(&self, other: &Self) -> Option<Ordering> {
        match (self.min_value(), other.min_value()) {
            (Some(a), Some(b)) => a.partial_cmp_spec(&b),
            _ => None,
        }
    }
}

impl<T: PartialOrd + Eq, const S: usize> PartialOrd for MinSmallVec<T, S> {
    fn partial_cmp(&self, other: &Self) -> (r: Option<Ordering>) {
        proof {
            use_type_invariant(&*self);
            use_type_invariant(&*other);
        }
        match (self.min, other.min) {
            (Some(i), Some(j)) => (&self.inner[i]).partial_cmp(&other.inner[j]),
            _ => None,
        }
    }
}

} // verus!
