//! Categories and subcategories are ordered by their numbers in the search
//! engine.
use vstd::prelude::*;

use core::cmp::Ordering;

use crate::yggtorrent_params::{YggCategory, YggSubCategory};

verus! {

/// The order of two numbers.
pub open spec fn order_of(a: u32, b: u32) -> Option<Ordering> {
    if a < b {
        Some(Ordering::Less)
    } else if a == b {
        Some(Ordering::Equal)
    } else {
        Some(Ordering::Greater)
    }
}

/// The order of two numbers.
fn compare_numbers(a: u32, b: u32) -> (res: Option<Ordering>)
    ensures
        res == order_of(a, b),
{
    if a < b {
        Some(Ordering::Less)
    } else if a == b {
        Some(Ordering::Equal)
    } else {
        Some(Ordering::Greater)
    }
}

impl PartialOrd for YggCategory {
    fn partial_cmp(&self, other: &Self) -> (res: Option<Ordering>) {
        compare_numbers(self.discriminant(), other.discriminant())
    }
}

impl vstd::std_specs::cmp::PartialOrdSpecImpl for YggCategory {
    open spec fn obeys_partial_cmp_spec() -> bool {
        true
    }

    open spec fn partial_cmp_spec(&self, other: &Self) -> Option<Ordering> {
        order_of(self.value(), other.value())
    }
}

impl PartialOrd for YggSubCategory {
    fn partial_cmp(&self, other: &Self) -> (res: Option<Ordering>) {
        compare_numbers(self.discriminant(), other.discriminant())
    }
}

impl vstd::std_specs::cmp::PartialOrdSpecImpl for YggSubCategory {
    open spec fn obeys_partial_cmp_spec() -> bool {
        true
    }

    open spec fn partial_cmp_spec(&self, other: &Self) -> Option<Ordering> {
        order_of(self.value(), other.value())
    }
}

} // verus!
