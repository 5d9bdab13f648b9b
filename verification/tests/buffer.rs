use min_smallvec::MinSmallVec;

/// A partially ordered value: anything marked murky compares to nothing,
/// including itself; the rest order by their number.
#[derive(Debug, Clone, Copy, PartialEq)]
struct Murky {
    value: i32,
    murky: bool,
}

impl Murky {
    fn clear(value: i32) -> Murky {
        Murky { value, murky: false }
    }

    fn murky(value: i32) -> Murky {
        Murky { value, murky: true }
    }
}

impl PartialOrd for Murky {
    fn partial_cmp(&self, other: &Self) -> Option<std::cmp::Ordering> {
        if self.murky || other.murky {
            None
        } else {
            self.value.partial_cmp(&other.value)
        }
    }
}

#[test]
fn empty_buffer_has_no_min() {
    let b = MinSmallVec::<i64, 4>::new();
    assert_eq!(b.get_min(), None);
    let c = MinSmallVec::<i64, 4>::with_capacity(16);
    assert_eq!(c.get_min(), None);
}

#[test]
fn push_on_empty_sets_min() {
    let mut b = MinSmallVec::<i64, 2>::new();
    b.push(7);
    assert_eq!(b.get_min(), Some(&7));
}

#[test]
fn pushes_agree_with_full_rescan() {
    let values: [i64; 5] = [5, 3, 8, 3, 9];
    let mut b = MinSmallVec::<i64, 4>::new();
    for v in values {
        b.push(v);
    }
    let rescanned = min_smallvec::slice_min(&values).map(|i| &values[i]);
    assert_eq!(b.get_min(), rescanned);
    assert_eq!(b.get_min(), Some(&3));
}

#[test]
fn get_min_is_idempotent() {
    let mut b = MinSmallVec::<i64, 4>::new();
    b.push(4);
    b.push(2);
    let first = b.get_min().copied();
    let second = b.get_min().copied();
    assert_eq!(first, second);
    assert_eq!(first, Some(2));
}

#[test]
fn from_slice_finds_min() {
    let b = MinSmallVec::<i64, 4>::from_slice(&[3, 1, 2]);
    assert_eq!(b.get_min(), Some(&1));
    let empty = MinSmallVec::<i64, 4>::from_slice(&[]);
    assert_eq!(empty.get_min(), None);
}

#[test]
fn from_iterator_finds_min() {
    let b = MinSmallVec::<i64, 4>::from_iterator(vec![4, 9, 2]);
    assert_eq!(b.get_min(), Some(&2));
    let empty = MinSmallVec::<i64, 4>::from_iterator(Vec::new());
    assert_eq!(empty.get_min(), None);
}

#[test]
fn default_is_empty() {
    let b = MinSmallVec::<i64, 3>::default();
    assert_eq!(b.get_min(), None);
}

#[test]
fn equality_goes_by_minimum_alone() {
    let a = MinSmallVec::<i64, 4>::from_slice(&[3, 1, 2]);
    let b = MinSmallVec::<i64, 4>::from_slice(&[1, 9]);
    let c = MinSmallVec::<i64, 4>::from_slice(&[5, 4]);
    assert_eq!(a, b);
    assert_ne!(a, c);
    assert_ne!(b, c);
    let empty = MinSmallVec::<i64, 4>::new();
    let also_empty = MinSmallVec::<i64, 4>::with_capacity(9);
    assert_eq!(empty, also_empty);
    assert_ne!(empty, a);
}

#[test]
fn ordering_goes_by_minimum_alone() {
    let a = MinSmallVec::<i64, 4>::from_slice(&[3, 1, 2]);
    let c = MinSmallVec::<i64, 4>::from_slice(&[5, 4]);
    assert!(a < c);
    assert!(!(c < a));
    let empty = MinSmallVec::<i64, 4>::new();
    assert_eq!(empty.partial_cmp(&a), None);
    assert!(!(empty < a));
    assert!(!(a < empty));
}

#[test]
fn modify_rescans_afterwards() {
    let mut b = MinSmallVec::<i64, 4>::from_slice(&[5, 3]);
    b.modify(|mut v| {
        v.push(1);
        v
    });
    assert_eq!(b.get_min(), Some(&1));
    b.modify(|mut v| {
        v.clear();
        v
    });
    assert_eq!(b.get_min(), None);
}

#[test]
fn modify_single_matches_full_modify() {
    let mut fast = MinSmallVec::<i64, 4>::from_slice(&[5, 3, 8]);
    let mut slow = MinSmallVec::<i64, 4>::from_slice(&[5, 3, 8]);
    fast.modify_single(2, |t| *t - 10);
    slow.modify(|mut v| {
        v[2] -= 10;
        v
    });
    assert_eq!(fast.get_min(), slow.get_min());
    assert_eq!(fast.get_min(), Some(&-2));
}

#[test]
fn targeted_mutation_scenario() {
    let mut b = MinSmallVec::<i64, 4>::with_capacity(4);
    b.push(5);
    b.push(3);
    b.push(8);
    assert_eq!(b.get_min(), Some(&3));
    // index 0 holds 5, not the minimum: the cheap path compares once
    b.modify_single(0, |t| -*t);
    assert_eq!(b.get_min(), Some(&-5));
    // index 0 now holds the minimum: the update falls back to a full rescan
    b.modify_single(0, |_| 100);
    assert_eq!(b.get_min(), Some(&3));
}

#[test]
fn undefined_comparison_leaves_min_absent() {
    let b = MinSmallVec::<Murky, 4>::from_slice(&[Murky::clear(1), Murky::murky(2)]);
    assert_eq!(b.get_min(), None);
}

#[test]
fn push_never_revives_an_absent_min() {
    let mut b = MinSmallVec::<Murky, 4>::from_slice(&[Murky::clear(1), Murky::murky(2)]);
    assert_eq!(b.get_min(), None);
    // a single push cannot resolve the earlier undefined comparison
    b.push(Murky::clear(0));
    assert_eq!(b.get_min(), None);
}

#[test]
fn push_keeps_old_min_on_undefined_comparison() {
    let mut b = MinSmallVec::<Murky, 4>::new();
    b.push(Murky::clear(1));
    assert_eq!(b.get_min(), Some(&Murky::clear(1)));
    // the new value does not compare to the cached minimum, so it does not replace it
    b.push(Murky::murky(0));
    assert_eq!(b.get_min(), Some(&Murky::clear(1)));
}

#[test]
fn full_rescan_restores_min_after_collapse() {
    let mut b = MinSmallVec::<Murky, 4>::from_slice(&[Murky::clear(3), Murky::murky(2)]);
    assert_eq!(b.get_min(), None);
    b.modify(|mut v| {
        v.retain(|m| !m.murky);
        v
    });
    assert_eq!(b.get_min(), Some(&Murky::clear(3)));
}
