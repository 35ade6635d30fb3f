//! The fast-shipping filter.

use crate::amazon::models::{Product, ProductView};
use crate::filters::Filter;
use vstd::prelude::*;

verus! {

/// Accepts the products that carry the fast-shipping badge.
#[derive(Debug, Clone, Copy, PartialEq, Eq, Structural)]
pub struct PrimeFilter;

impl PrimeFilter {
    /// The filter; it has no settings.
    pub fn new() -> (r: PrimeFilter)
        ensures
            r == PrimeFilter,
    {
        PrimeFilter
    }
}

impl Default for PrimeFilter {
    fn default() -> (r: PrimeFilter)
        ensures
            r == PrimeFilter,
    {
        PrimeFilter
    }
}

impl Filter for PrimeFilter {
    open spec fn accepts(&self, product: ProductView) -> bool {
        product.is_prime
    }

    open spec fn description_text(&self) -> Seq<char> {
        "Prime only"@
    }

    fn matches(&self, product: &Product) -> (r: bool) {
        product.is_prime
    }

    fn description(&self) -> (r: String) {
        "Prime only".to_owned()
    }
}

} // verus!
