//! The filter chain: composable tests on products, applied to a result list
//! without changing its order.

pub mod keyword;
pub mod price;
pub mod prime;
pub mod rating;

pub use keyword::KeywordFilter;
pub use price::PriceFilter;
pub use prime::PrimeFilter;
pub use rating::RatingFilter;

use crate::amazon::models::{Product, product_views, ProductView};
use crate::decimal::Decimal;
use crate::text::views;
use vstd::prelude::*;

verus! {

/// A test on products.
pub trait Filter {
    /// Whether the filter lets a product pass.
    spec fn accepts(&self, product: ProductView) -> bool;

    /// What the filter says of itself.
    spec fn description_text(&self) -> Seq<char>;

    /// Whether the filter lets a product pass.
    fn matches(&self, product: &Product) -> (r: bool)
        ensures
            r == self.accepts(product@),
    ;

    /// What the filter says of itself.
    fn description(&self) -> (r: String)
        ensures
            r@ == self.description_text(),
    ;
}

/// Accepts the products that are no paid placements.
#[derive(Debug, Clone, Copy, PartialEq, Eq, Structural)]
pub struct SponsoredFilter;

/// Any of the filters of this library.
#[derive(Debug, Clone)]
pub enum AnyFilter {
    Price(PriceFilter),
    Rating(RatingFilter),
    Prime(PrimeFilter),
    Sponsored(SponsoredFilter),
    Keyword(KeywordFilter),
}

/// Filters that must all let a product pass.
pub struct FilterChain {
    pub filters: Vec<AnyFilter>,
}

/// Builds a chain from optional settings: a setting that is switched off
/// adds no filter.
pub struct FilterChainBuilder {
    pub chain: FilterChain,
}

impl SponsoredFilter {
    /// The filter; it has no settings.
    pub fn new() -> (r: SponsoredFilter)
        ensures
            r == SponsoredFilter,
    {
        SponsoredFilter
    }
}

impl Default for SponsoredFilter {
    fn default() -> (r: SponsoredFilter)
        ensures
            r == SponsoredFilter,
    {
        SponsoredFilter
    }
}

impl Filter for SponsoredFilter {
    open spec fn accepts(&self, product: ProductView) -> bool {
        !product.is_sponsored
    }

    open spec fn description_text(&self) -> Seq<char> {
        "Exclude sponsored"@
    }

    fn matches(&self, product: &Product) -> (r: bool) {
        !product.is_sponsored
    }

    fn description(&self) -> (r: String) {
        "Exclude sponsored".to_owned()
    }
}

impl Filter for AnyFilter {
    open spec fn accepts(&self, product: ProductView) -> bool {
        match self {
            AnyFilter::Price(f) => f.accepts(product),
            AnyFilter::Rating(f) => f.accepts(product),
            AnyFilter::Prime(f) => f.accepts(product),
            AnyFilter::Sponsored(f) => f.accepts(product),
            AnyFilter::Keyword(f) => f.accepts(product),
        }
    }

    open spec fn description_text(&self) -> Seq<char> {
        match self {
            AnyFilter::Price(f) => f.description_text(),
            AnyFilter::Rating(f) => f.description_text(),
            AnyFilter::Prime(f) => f.description_text(),
            AnyFilter::Sponsored(f) => f.description_text(),
            AnyFilter::Keyword(f) => f.description_text(),
        }
    }

    fn matches(&self, product: &Product) -> (r: bool) {
        match self {
            AnyFilter::Price(f) => f.matches(product),
            AnyFilter::Rating(f) => f.matches(product),
            AnyFilter::Prime(f) => f.matches(product),
            AnyFilter::Sponsored(f) => f.matches(product),
            AnyFilter::Keyword(f) => f.matches(product),
        }
    }

    fn description(&self) -> (r: String) {
        match self {
            AnyFilter::Price(f) => f.description(),
            AnyFilter::Rating(f) => f.description(),
            AnyFilter::Prime(f) => f.description(),
            AnyFilter::Sponsored(f) => f.description(),
            AnyFilter::Keyword(f) => f.description(),
        }
    }
}

/// Every filter of a list lets a product pass.
pub open spec fn all_accept(filters: Seq<AnyFilter>, product: ProductView) -> bool {
    forall|i: int| 0 <= i < filters.len() ==> (#[trigger] filters[i]).accepts(product)
}

/// The test "every filter of the list lets the product pass", as a value.
pub open spec fn passing(filters: Seq<AnyFilter>) -> spec_fn(ProductView) -> bool {
    |product: ProductView| all_accept(filters, product)
}

/// What the filters of a list say of themselves.
pub open spec fn descriptions_of(filters: Seq<AnyFilter>) -> Seq<Seq<char>> {
    filters.map_values(|f: AnyFilter| f.description_text())
}

impl FilterChain {
    /// Whether the chain lets a product pass: every filter does. The empty
    /// chain lets every product pass.
    pub open spec fn accepts(&self, product: ProductView) -> bool {
        all_accept(self.filters@, product)
    }

    /// The empty chain.
    pub fn new() -> (r: FilterChain)
        ensures
            r.filters@.len() == 0,
    {
        FilterChain { filters: Vec::new() }
    }

    /// Puts a filter at the end of the chain.
    pub fn add(&mut self, filter: AnyFilter)
        ensures
            final(self).filters@ == old(self).filters@.push(filter),
    {
        self.filters.push(filter);
    }

    /// Whether the chain lets a product pass.
    pub fn matches(&self, product: &Product) -> (r: bool)
        ensures
            r == self.accepts(product@),
    {
        let mut i: usize = 0;
        while i < self.filters.len()
            invariant
                i <= self.filters.len(),
                forall|k: int| 0 <= k < i ==> (#[trigger] self.filters@[k]).accepts(product@),
            decreases self.filters.len() - i,
        {
            if !self.filters[i].matches(product) {
                return false;
            }
            i = i + 1;
        }
        true
    }

    /// The products that the chain lets pass, in their order.
    pub fn apply(&self, products: Vec<Product>) -> (r: Vec<Product>)
        ensures
            product_views(r@) == product_views(products@).filter(passing(self.filters@)),
    {
        let mut kept: Vec<Product> = Vec::new();
        let ghost all = product_views(products@);
        let ghost keep = passing(self.filters@);
        let mut i: usize = 0;
        assert(all.take(0).filter(keep) == Seq::<ProductView>::empty()) by {
            reveal(Seq::filter);
        }
        assert(product_views(kept@) == Seq::<ProductView>::empty());
        while i < products.len()
            invariant
                i <= products.len(),
                all == product_views(products@),
                keep == passing(self.filters@),
                product_views(kept@) == all.take(i as int).filter(keep),
            decreases products.len() - i,
        {
            proof {
                assert(all.take(i + 1) == all.take(i as int).push(all[i as int]));
                all.take(i as int).lemma_filter_push(all[i as int], keep);
                assert(all[i as int] == products@[i as int]@);
            }
            if self.matches(&products[i]) {
                let ghost before = kept@;
                let copy = products[i].duplicate();
                kept.push(copy);
                assert(product_views(kept@) == product_views(before).push(copy@));
            }
            i = i + 1;
        }
        assert(all.take(all.len() as int) == all);
        kept
    }

    /// Whether the chain holds no filter.
    pub fn is_empty(&self) -> (r: bool)
        ensures
            r == (self.filters@.len() == 0),
    {
        self.filters.len() == 0
    }

    /// The number of filters.
    pub fn len(&self) -> (r: usize)
        ensures
            r == self.filters@.len(),
    {
        self.filters.len()
    }

    /// What the filters say of themselves, in chain order.
    pub fn descriptions(&self) -> (r: Vec<String>)
        ensures
            views(r@) == descriptions_of(self.filters@),
    {
        let mut r: Vec<String> = Vec::new();
        let mut i: usize = 0;
        while i < self.filters.len()
            invariant
                i <= self.filters.len(),
                r@.len() == i,
                forall|k: int| 0 <= k < i ==> (#[trigger] r@[k])@ == self.filters@[k].description_text(),
            decreases self.filters.len() - i,
        {
            r.push(self.filters[i].description());
            i = i + 1;
        }
        assert(views(r@) =~= descriptions_of(self.filters@));
        r
    }
}

impl Default for FilterChain {
    fn default() -> (r: FilterChain)
        ensures
            r.filters@.len() == 0,
    {
        FilterChain::new()
    }
}

impl FilterChainBuilder {
    /// A builder with the empty chain.
    pub fn new() -> (r: FilterChainBuilder)
        ensures
            r.chain.filters@.len() == 0,
    {
        FilterChainBuilder { chain: FilterChain::new() }
    }

    /// Adds a price filter where at least one bound is given.
    pub fn price_range(self, min: Option<Decimal>, max: Option<Decimal>) -> (r: FilterChainBuilder)
        ensures
            r.chain.filters@ == if min is Some || max is Some {
                self.chain.filters@.push(AnyFilter::Price(PriceFilter { min, max }))
            } else {
                self.chain.filters@
            },
    {
        let mut builder = self;
        if min.is_some() || max.is_some() {
            builder.chain.add(AnyFilter::Price(PriceFilter::new(min, max)));
        }
        builder
    }

    /// Adds a rating filter where a lowest star value is given.
    pub fn min_rating(self, min: Option<Decimal>) -> (r: FilterChainBuilder)
        ensures
            r.chain.filters@ == match min {
                Some(stars) => self.chain.filters@.push(
                    AnyFilter::Rating(
                        RatingFilter {
                            min_stars: stars.clamped(Decimal::whole(0), Decimal::whole(5)),
                        },
                    ),
                ),
                None => self.chain.filters@,
            },
    {
        let mut builder = self;
        if let Some(stars) = min {
            builder.chain.add(AnyFilter::Rating(RatingFilter::new(stars)));
        }
        builder
    }

    /// Adds the fast-shipping filter where it is asked for.
    pub fn prime_only(self, enabled: bool) -> (r: FilterChainBuilder)
        ensures
            r.chain.filters@ == if enabled {
                self.chain.filters@.push(AnyFilter::Prime(PrimeFilter))
            } else {
                self.chain.filters@
            },
    {
        let mut builder = self;
        if enabled {
            builder.chain.add(AnyFilter::Prime(PrimeFilter::new()));
        }
        builder
    }

    /// Adds the filter against paid placements where it is asked for.
    pub fn no_sponsored(self, enabled: bool) -> (r: FilterChainBuilder)
        ensures
            r.chain.filters@ == if enabled {
                self.chain.filters@.push(AnyFilter::Sponsored(SponsoredFilter))
            } else {
                self.chain.filters@
            },
    {
        let mut builder = self;
        if enabled {
            builder.chain.add(AnyFilter::Sponsored(SponsoredFilter::new()));
        }
        builder
    }

    /// Adds a filter for required keywords where there are any.
    pub fn keywords(self, keywords: Vec<String>) -> (r: FilterChainBuilder)
        ensures
            keywords@.len() == 0 ==> r.chain.filters@ == self.chain.filters@,
            keywords@.len() > 0 ==> {
                &&& r.chain.filters@.len() == self.chain.filters@.len() + 1
                &&& r.chain.filters@.drop_last() == self.chain.filters@
                &&& r.chain.filters@.last() matches AnyFilter::Keyword(f)
                &&& views(f.required@) == keyword::lowercased_all(views(keywords@))
                &&& f.excluded@.len() == 0
            },
    {
        let mut builder = self;
        if keywords.len() > 0 {
            builder.chain.add(AnyFilter::Keyword(KeywordFilter::required(keywords)));
            assert(builder.chain.filters@.drop_last() == self.chain.filters@);
        }
        builder
    }

    /// Adds a filter for excluded keywords where there are any.
    pub fn exclude_keywords(self, keywords: Vec<String>) -> (r: FilterChainBuilder)
        ensures
            keywords@.len() == 0 ==> r.chain.filters@ == self.chain.filters@,
            keywords@.len() > 0 ==> {
                &&& r.chain.filters@.len() == self.chain.filters@.len() + 1
                &&& r.chain.filters@.drop_last() == self.chain.filters@
                &&& r.chain.filters@.last() matches AnyFilter::Keyword(f)
                &&& f.required@.len() == 0
                &&& views(f.excluded@) == keyword::lowercased_all(views(keywords@))
            },
    {
        let mut builder = self;
        if keywords.len() > 0 {
            builder.chain.add(AnyFilter::Keyword(KeywordFilter::excluded(keywords)));
            assert(builder.chain.filters@.drop_last() == self.chain.filters@);
        }
        builder
    }

    /// The chain that was built.
    pub fn build(self) -> (r: FilterChain)
        ensures
            r.filters@ == self.chain.filters@,
    {
        self.chain
    }
}

impl Default for FilterChainBuilder {
    fn default() -> (r: FilterChainBuilder)
        ensures
            r.chain.filters@.len() == 0,
    {
        FilterChainBuilder::new()
    }
}

} // verus!
