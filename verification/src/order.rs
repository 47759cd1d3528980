//! The spec-level view of the strict ordering that index types must supply.

use core::cmp::Ordering;
use vstd::prelude::*;
use vstd::std_specs::cmp::PartialOrdSpec;

verus! {

/// What "`a` is strictly after `b`" means for an index type: its
/// `partial_cmp` specification places `a` strictly above `b`.
///
/// All ordering checks of the series, and all ordering facts in its
/// invariants, are stated through this predicate.
pub open spec fn gt_spec<I: PartialOrd>(a: I, b: I) -> bool {
    a.partial_cmp_spec(&b) == Some(Ordering::Greater)
}

} // verus!
