//! The price filter.

use crate::amazon::models::{Product, ProductView};
use crate::decimal::Decimal;
use crate::filters::Filter;
use vstd::prelude::*;
use vstd::string::StringExecFns;

verus! {

/// Accepts the products whose price lies within bounds. A product without a
/// visible price is accepted: nothing is known against it.
#[derive(Debug, Clone, Copy, PartialEq, Eq, Structural)]
pub struct PriceFilter {
    pub min: Option<Decimal>,
    pub max: Option<Decimal>,
}

impl PriceFilter {
    /// A filter with optional lower and upper bounds, both inclusive.
    pub fn new(min: Option<Decimal>, max: Option<Decimal>) -> (r: PriceFilter)
        ensures
            r == (PriceFilter { min, max }),
    {
        PriceFilter { min, max }
    }

    /// A filter with a lower bound only.
    pub fn min(price: Decimal) -> (r: PriceFilter)
        ensures
            r == (PriceFilter { min: Some(price), max: None }),
    {
        PriceFilter { min: Some(price), max: None }
    }

    /// A filter with an upper bound only.
    pub fn max(price: Decimal) -> (r: PriceFilter)
        ensures
            r == (PriceFilter { min: None, max: Some(price) }),
    {
        PriceFilter { min: None, max: Some(price) }
    }

    /// A filter with both bounds.
    pub fn range(min: Decimal, max: Decimal) -> (r: PriceFilter)
        ensures
            r == (PriceFilter { min: Some(min), max: Some(max) }),
    {
        PriceFilter { min: Some(min), max: Some(max) }
    }

    /// Whether a price lies within the bounds.
    pub open spec fn within(self, price: Decimal) -> bool {
        &&& self.min matches Some(min) ==> !price.lt(min)
        &&& self.max matches Some(max) ==> !max.lt(price)
    }
}

impl Filter for PriceFilter {
    open spec fn accepts(&self, product: ProductView) -> bool {
        match product.current_price() {
            Some(price) => self.within(price),
            None => true,
        }
    }

    open spec fn description_text(&self) -> Seq<char> {
        match (self.min, self.max) {
            (Some(min), Some(max)) => "Price: $"@ + min.fixed_text(2) + " - $"@ + max.fixed_text(2),
            (Some(min), None) => "Price: >= $"@ + min.fixed_text(2),
            (None, Some(max)) => "Price: <= $"@ + max.fixed_text(2),
            (None, None) => "Price: any"@,
        }
    }

    fn matches(&self, product: &Product) -> (r: bool) {
        let price = match product.current_price() {
            Some(price) => price,
            None => {
                return true;
            },
        };
        if let Some(min) = self.min {
            if price.is_less_than(&min) {
                return false;
            }
        }
        if let Some(max) = self.max {
            if max.is_less_than(&price) {
                return false;
            }
        }
        true
    }

    fn description(&self) -> (r: String) {
        match (self.min, self.max) {
            (Some(min), Some(max)) => {
                let mut text = "Price: $".to_owned();
                text.append(min.to_fixed(2).as_str());
                text.append(" - $");
                text.append(max.to_fixed(2).as_str());
                text
            },
            (Some(min), None) => {
                let mut text = "Price: >= $".to_owned();
                text.append(min.to_fixed(2).as_str());
                text
            },
            (None, Some(max)) => {
                let mut text = "Price: <= $".to_owned();
                text.append(max.to_fixed(2).as_str());
                text
            },
            (None, None) => "Price: any".to_owned(),
        }
    }
}

} // verus!
