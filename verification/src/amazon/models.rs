//! The records that extraction produces: products, prices, ratings and result
//! pages. Each record has a view in which its texts are sequences of `char`;
//! the contracts of the library speak of those views.

use crate::decimal::{Decimal, lemma_pow10_positive, pow10};
use vstd::prelude::*;

verus! {

/// The bounds of a price that varies with the chosen variant.
#[derive(Debug, Clone, Copy, PartialEq, Eq, Structural)]
pub struct PriceRange {
    /// The lowest price.
    pub min: Decimal,
    /// The highest price; absent for "from X" offers.
    pub max: Option<Decimal>,
}

/// What a listing costs.
#[derive(Debug, Clone)]
pub struct Price {
    /// The current price. Meaningless where `is_hidden` is set.
    pub current: Decimal,
    /// The price before a discount, where one is shown.
    pub original: Option<Decimal>,
    /// The ISO code of the currency.
    pub currency: String,
    /// The bounds of a variable price.
    pub range: Option<PriceRange>,
    /// Set where the seller shows the price only in the cart.
    pub is_hidden: bool,
}

/// A star rating with the number of reviews behind it.
#[derive(Debug, Clone, Copy, PartialEq, Eq, Structural)]
pub struct Rating {
    /// The star value, between 0 and 5.
    pub stars: Decimal,
    /// The number of reviews; 0 where the page does not tell.
    pub review_count: u32,
}

/// One listing.
#[derive(Debug, Clone)]
pub struct Product {
    /// The catalog code of the listing.
    pub asin: String,
    pub title: String,
    /// The address of the listing's own page.
    pub url: String,
    pub image_url: Option<String>,
    pub price: Option<Price>,
    pub rating: Option<Rating>,
    /// Set for paid placements.
    pub is_sponsored: bool,
    pub is_prime: bool,
    /// Set for listings that carry the editorial badge.
    pub is_amazon_choice: bool,
    pub in_stock: bool,
    pub brand: Option<String>,
}

/// One page of search results.
#[derive(Debug, Clone)]
pub struct SearchResults {
    pub query: String,
    /// The code of the region that was searched.
    pub region: String,
    /// The number of results that the page claims, where it does.
    pub total_results: Option<u32>,
    /// The listings, in the order of the page.
    pub products: Vec<Product>,
    pub page: u32,
    /// Whether the page links to a next one.
    pub has_more: bool,
}

pub ghost struct PriceView {
    pub current: Decimal,
    pub original: Option<Decimal>,
    pub currency: Seq<char>,
    pub range: Option<PriceRange>,
    pub is_hidden: bool,
}

pub ghost struct ProductView {
    pub asin: Seq<char>,
    pub title: Seq<char>,
    pub url: Seq<char>,
    pub image_url: Option<Seq<char>>,
    pub price: Option<PriceView>,
    pub rating: Option<Rating>,
    pub is_sponsored: bool,
    pub is_prime: bool,
    pub is_amazon_choice: bool,
    pub in_stock: bool,
    pub brand: Option<Seq<char>>,
}

pub ghost struct SearchResultsView {
    pub query: Seq<char>,
    pub region: Seq<char>,
    pub total_results: Option<u32>,
    pub products: Seq<ProductView>,
    pub page: u32,
    pub has_more: bool,
}

/// The view of an optional text.
pub open spec fn text_view(text: Option<String>) -> Option<Seq<char>> {
    match text {
        Some(s) => Some(s@),
        None => None,
    }
}

/// The view of an optional price.
pub open spec fn price_view(price: Option<Price>) -> Option<PriceView> {
    match price {
        Some(p) => Some(p@),
        None => None,
    }
}

/// The views of a list of products.
pub open spec fn product_views(products: Seq<Product>) -> Seq<ProductView> {
    products.map_values(|p: Product| p@)
}

impl View for Price {
    type V = PriceView;

    open spec fn view(&self) -> PriceView {
        PriceView {
            current: self.current,
            original: self.original,
            currency: self.currency@,
            range: self.range,
            is_hidden: self.is_hidden,
        }
    }
}

impl View for Product {
    type V = ProductView;

    open spec fn view(&self) -> ProductView {
        ProductView {
            asin: self.asin@,
            title: self.title@,
            url: self.url@,
            image_url: text_view(self.image_url),
            price: price_view(self.price),
            rating: self.rating,
            is_sponsored: self.is_sponsored,
            is_prime: self.is_prime,
            is_amazon_choice: self.is_amazon_choice,
            in_stock: self.in_stock,
            brand: text_view(self.brand),
        }
    }
}

impl View for SearchResults {
    type V = SearchResultsView;

    open spec fn view(&self) -> SearchResultsView {
        SearchResultsView {
            query: self.query@,
            region: self.region@,
            total_results: self.total_results,
            products: product_views(self.products@),
            page: self.page,
            has_more: self.has_more,
        }
    }
}

impl PriceView {
    /// A plain price.
    pub open spec fn simple(current: Decimal, currency: Seq<char>) -> PriceView {
        PriceView { current, original: None, currency, range: None, is_hidden: false }
    }

    /// A price that the seller shows only in the cart.
    pub open spec fn hidden(currency: Seq<char>) -> PriceView {
        PriceView {
            current: Decimal::whole(0),
            original: None,
            currency,
            range: None,
            is_hidden: true,
        }
    }
}

impl ProductView {
    /// The price a buyer sees: absent where there is none or it is hidden.
    pub open spec fn current_price(self) -> Option<Decimal> {
        match self.price {
            Some(p) => if p.is_hidden {
                None
            } else {
                Some(p.current)
            },
            None => None,
        }
    }

    /// The star value, where the listing is rated.
    pub open spec fn stars(self) -> Option<Decimal> {
        match self.rating {
            Some(r) => Some(r.stars),
            None => None,
        }
    }

    /// The discount against the original price in whole percent, where an
    /// original price is shown.
    pub open spec fn discount_percent(self) -> Option<int> {
        match self.price {
            Some(p) => match p.original {
                Some(original) => Some(p.current.discount_from(original)),
                None => None,
            },
            None => None,
        }
    }
}

impl Price {
    /// A plain price.
    pub fn simple(current: Decimal, currency: &str) -> (r: Price)
        ensures
            r@ == PriceView::simple(current, currency@),
    {
        Price {
            current,
            original: None,
            currency: currency.to_owned(),
            range: None,
            is_hidden: false,
        }
    }

    /// A discounted price together with the price it was reduced from.
    pub fn with_discount(current: Decimal, original: Decimal, currency: &str) -> (r: Price)
        ensures
            r@ == (PriceView {
                original: Some(original),
                ..PriceView::simple(current, currency@)
            }),
    {
        Price {
            current,
            original: Some(original),
            currency: currency.to_owned(),
            range: None,
            is_hidden: false,
        }
    }

    /// A price that the seller shows only in the cart.
    pub fn hidden(currency: &str) -> (r: Price)
        ensures
            r@ == PriceView::hidden(currency@),
    {
        Price {
            current: Decimal::whole(0),
            original: None,
            currency: currency.to_owned(),
            range: None,
            is_hidden: true,
        }
    }

    /// A price that varies between `min` and, where known, `max`.
    pub fn with_range(min: Decimal, max: Option<Decimal>, currency: &str) -> (r: Price)
        ensures
            r@ == (PriceView {
                range: Some(PriceRange { min, max }),
                ..PriceView::simple(min, currency@)
            }),
    {
        Price {
            current: min,
            original: None,
            currency: currency.to_owned(),
            range: Some(PriceRange { min, max }),
            is_hidden: false,
        }
    }

    /// A copy of the price.
    pub fn duplicate(&self) -> (r: Price)
        ensures
            r@ == self@,
    {
        Price {
            current: self.current,
            original: self.original,
            currency: self.currency.clone(),
            range: self.range,
            is_hidden: self.is_hidden,
        }
    }
}

impl Rating {
    /// A rating of `stars` stars, brought into the range from 0 to 5.
    pub fn new(stars: Decimal, review_count: u32) -> (r: Rating)
        ensures
            r.stars == stars.clamped(Decimal::whole(0), Decimal::whole(5)),
            r.review_count == review_count,
            Decimal::whole(5).lt(stars) ==> r.stars == Decimal::whole(5),
            stars.lt(Decimal::whole(0)) ==> r.stars == Decimal::whole(0),
            !stars.lt(Decimal::whole(0)) && !Decimal::whole(5).lt(stars) ==> r.stars == stars,
    {
        let zero = Decimal::whole(0);
        let five = Decimal::whole(5);
        proof {
            broadcast use Decimal::lemma_from_parts;

            lemma_pow10_positive(stars.scale());
            assert(pow10(0) == 1);
            if five.lt(stars) && stars.lt(zero) {
                assert(5 * pow10(stars.scale()) < stars.units() * 1);
                assert(stars.units() * 1 < 0 * pow10(stars.scale()));
                assert(5 * pow10(stars.scale()) >= 0) by (nonlinear_arith)
                    requires
                        pow10(stars.scale()) >= 1,
                ;
            }
        }
        Rating { stars: stars.clamp_to(&zero, &five), review_count }
    }
}

/// A copy of an optional text.
pub fn duplicate_text(text: &Option<String>) -> (r: Option<String>)
    ensures
        text_view(r) == text_view(*text),
{
    match text {
        Some(s) => Some(s.clone()),
        None => None,
    }
}

impl Product {
    /// The price a buyer sees: absent where there is none or it is hidden.
    pub fn current_price(&self) -> (r: Option<Decimal>)
        ensures
            r == self@.current_price(),
    {
        match &self.price {
            Some(p) => if p.is_hidden {
                None
            } else {
                Some(p.current)
            },
            None => None,
        }
    }

    /// The star value, where the listing is rated.
    pub fn stars(&self) -> (r: Option<Decimal>)
        ensures
            r == self@.stars(),
    {
        match &self.rating {
            Some(r) => Some(r.stars),
            None => None,
        }
    }

    /// The discount against the original price in whole percent, where an
    /// original price is shown. It never reaches 100.
    pub fn discount_percent(&self) -> (r: Option<u8>)
        ensures
            r is Some == self@.discount_percent() is Some,
            r matches Some(d) ==> d == self@.discount_percent()->0 && d <= 99,
    {
        match &self.price {
            Some(p) => match &p.original {
                Some(original) => Some(p.current.discount_percent_from(original)),
                None => None,
            },
            None => None,
        }
    }

    /// A copy of the product.
    pub fn duplicate(&self) -> (r: Product)
        ensures
            r@ == self@,
    {
        Product {
            asin: self.asin.clone(),
            title: self.title.clone(),
            url: self.url.clone(),
            image_url: duplicate_text(&self.image_url),
            price: match &self.price {
                Some(p) => Some(p.duplicate()),
                None => None,
            },
            rating: self.rating,
            is_sponsored: self.is_sponsored,
            is_prime: self.is_prime,
            is_amazon_choice: self.is_amazon_choice,
            in_stock: self.in_stock,
            brand: duplicate_text(&self.brand),
        }
    }
}

impl SearchResults {
    /// An empty first page for a query in a region.
    pub fn new(query: &str, region: &str) -> (r: SearchResults)
        ensures
            r@ == (SearchResultsView {
                query: query@,
                region: region@,
                total_results: None,
                products: Seq::empty(),
                page: 1,
                has_more: false,
            }),
    {
        let r = SearchResults {
            query: query.to_owned(),
            region: region.to_owned(),
            total_results: None,
            products: Vec::new(),
            page: 1,
            has_more: false,
        };
        assert(r@.products =~= Seq::empty());
        r
    }

    /// The number of listings on the page.
    pub fn count(&self) -> (r: usize)
        ensures
            r == self@.products.len(),
    {
        self.products.len()
    }

    /// Whether the page holds no listing.
    pub fn is_empty(&self) -> (r: bool)
        ensures
            r == (self@.products.len() == 0),
    {
        self.products.len() == 0
    }
}

} // verus!
