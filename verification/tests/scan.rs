use min_smallvec::{partial_min, slice_min};

/// A value whose order is undefined against anything, itself included.
#[derive(Debug, Clone, Copy, PartialEq)]
struct Fog(i32);

impl PartialOrd for Fog {
    fn partial_cmp(&self, _other: &Self) -> Option<std::cmp::Ordering> {
        None
    }
}

#[test]
fn slice_min_of_empty_is_none() {
    let empty: [i64; 0] = [];
    assert_eq!(slice_min(&empty), None);
}

#[test]
fn slice_min_of_single_is_first() {
    assert_eq!(slice_min(&[42i64]), Some(0));
}

#[test]
fn slice_min_finds_least_index() {
    assert_eq!(slice_min(&[5i64, 3, 8, 4]), Some(1));
}

#[test]
fn slice_min_ties_keep_the_earlier_element() {
    assert_eq!(slice_min(&[2i64, 1, 1]), Some(1));
    assert_eq!(slice_min(&[1i64, 1]), Some(0));
}

#[test]
fn slice_min_aborts_on_undefined_comparison() {
    assert_eq!(slice_min(&[Fog(1), Fog(2)]), None);
}

#[test]
fn partial_min_picks_the_smaller() {
    let a: i64 = 1;
    let b: i64 = 2;
    assert_eq!(partial_min(&a, &b), Some(&1));
    assert_eq!(partial_min(&b, &a), Some(&1));
}

#[test]
fn partial_min_ties_keep_the_left_value() {
    let a: i64 = 6;
    let b: i64 = 6;
    let r = partial_min(&a, &b).unwrap();
    assert!(std::ptr::eq(r, &a));
}

#[test]
fn partial_min_is_none_on_undefined_comparison() {
    assert_eq!(partial_min(&Fog(1), &Fog(2)), None);
}
