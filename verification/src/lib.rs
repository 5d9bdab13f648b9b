//! A small buffer that keeps a live reference to its minimum element.
//!
//! The buffer stores values in insertion order and caches the position of the
//! least one, so that `get_min` never scans.  Pushing refreshes the cache with
//! a single comparison; arbitrary mutation falls back to one linear rescan.
//! Element types only need a partial order: when a comparison that the scan
//! needs is undefined, the cached minimum becomes absent even though the
//! buffer is not empty, and stays absent until the next full rescan.

mod buffer;
mod laws;
mod order;
mod scan;

pub use buffer::MinSmallVec;
pub use laws::{
    lemma_push_matches_rescan, lemma_pushes_match_rescan, lemma_scan_min_is_least,
    lemma_single_update_matches_rescan, lemma_undefined_pair_has_no_min,
};
pub use order::{
    comparison_antisymmetric, comparison_defined, comparison_transitive, equality_matches_order,
    le_under, lemma_reflexive, lemma_total_order_i64, total_order,
};
pub use scan::{
    index_option, partial_min, push_min_index, pushed_min_index, scan_min, scan_min_from,
    single_update_min_index, slice_min,
};
