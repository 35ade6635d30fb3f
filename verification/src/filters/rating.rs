//! The rating filter.

use crate::amazon::models::{Product, ProductView};
use crate::decimal::Decimal;
use crate::filters::Filter;
use vstd::prelude::*;
use vstd::string::StringExecFns;

verus! {

/// Accepts the products with at least a given star value. A product without
/// a rating is accepted: nothing is known against it.
#[derive(Debug, Clone, Copy, PartialEq, Eq, Structural)]
pub struct RatingFilter {
    pub min_stars: Decimal,
}

impl RatingFilter {
    /// A filter for at least `min_stars` stars, brought into the range from
    /// 0 to 5.
    pub fn new(min_stars: Decimal) -> (r: RatingFilter)
        ensures
            r.min_stars == min_stars.clamped(Decimal::whole(0), Decimal::whole(5)),
    {
        let zero = Decimal::whole(0);
        let five = Decimal::whole(5);
        RatingFilter { min_stars: min_stars.clamp_to(&zero, &five) }
    }

    /// The lowest star value that the filter accepts.
    pub fn min_stars(&self) -> (r: Decimal)
        ensures
            r == self.min_stars,
    {
        self.min_stars
    }
}

impl Filter for RatingFilter {
    open spec fn accepts(&self, product: ProductView) -> bool {
        match product.stars() {
            Some(stars) => !stars.lt(self.min_stars),
            None => true,
        }
    }

    open spec fn description_text(&self) -> Seq<char> {
        "Rating: >= "@ + self.min_stars.fixed_text(1) + " stars"@
    }

    fn matches(&self, product: &Product) -> (r: bool) {
        match product.stars() {
            Some(stars) => !stars.is_less_than(&self.min_stars),
            None => true,
        }
    }

    fn description(&self) -> (r: String) {
        let mut text = "Rating: >= ".to_owned();
        text.append(self.min_stars.to_fixed(1).as_str());
        text.append(" stars");
        text
    }
}

} // verus!
