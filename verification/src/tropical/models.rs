//! The records of the price comparison site.

use crate::decimal::{Decimal, difference};
use crate::text::{same_text, uppercased};
use vstd::prelude::*;

verus! {

/// A product found by a search on the comparison site.
#[derive(Debug, Clone)]
pub struct TropicalProduct {
    /// The catalog code of the product.
    pub asin: String,
    pub title: String,
    /// The lowest price in euros, where one is shown.
    pub price: Option<Decimal>,
    /// The ISO code of the currency; the site quotes in euros.
    pub currency: String,
    /// The address of the product on the comparison site.
    pub url: String,
}

/// What a product costs in the store of one country.
#[derive(Debug, Clone)]
pub struct CountryPrice {
    /// The code of the country, in upper case.
    pub country: String,
    /// The price in euros.
    pub price: Decimal,
    pub currency: String,
    /// Whether a marketplace seller quotes the price, not the store itself.
    pub is_marketplace: bool,
    /// The address of the product in that country's store.
    pub amazon_url: String,
}

/// The prices of one product across the stores.
#[derive(Debug, Clone)]
pub struct PriceComparison {
    pub asin: String,
    pub title: String,
    /// The prices, the cheapest first.
    pub prices: Vec<CountryPrice>,
    /// The number of stores that quote a price.
    pub total_stores: usize,
}

pub ghost struct TropicalProductView {
    pub asin: Seq<char>,
    pub title: Seq<char>,
    pub price: Option<Decimal>,
    pub currency: Seq<char>,
    pub url: Seq<char>,
}

pub ghost struct CountryPriceView {
    pub country: Seq<char>,
    pub price: Decimal,
    pub currency: Seq<char>,
    pub is_marketplace: bool,
    pub amazon_url: Seq<char>,
}

pub ghost struct PriceComparisonView {
    pub asin: Seq<char>,
    pub title: Seq<char>,
    pub prices: Seq<CountryPriceView>,
    pub total_stores: usize,
}

impl View for TropicalProduct {
    type V = TropicalProductView;

    open spec fn view(&self) -> TropicalProductView {
        TropicalProductView {
            asin: self.asin@,
            title: self.title@,
            price: self.price,
            currency: self.currency@,
            url: self.url@,
        }
    }
}

impl View for CountryPrice {
    type V = CountryPriceView;

    open spec fn view(&self) -> CountryPriceView {
        CountryPriceView {
            country: self.country@,
            price: self.price,
            currency: self.currency@,
            is_marketplace: self.is_marketplace,
            amazon_url: self.amazon_url@,
        }
    }
}

/// The views of a list of prices.
pub open spec fn price_views(prices: Seq<CountryPrice>) -> Seq<CountryPriceView> {
    prices.map_values(|p: CountryPrice| p@)
}

/// The views of a list of products.
pub open spec fn tropical_views(products: Seq<TropicalProduct>) -> Seq<TropicalProductView> {
    products.map_values(|p: TropicalProduct| p@)
}

impl View for PriceComparison {
    type V = PriceComparisonView;

    open spec fn view(&self) -> PriceComparisonView {
        PriceComparisonView {
            asin: self.asin@,
            title: self.title@,
            prices: price_views(self.prices@),
            total_stores: self.total_stores,
        }
    }
}

/// The flag of the country that an upper-case code stands for; a white
/// flag for every other text.
pub open spec fn flag_of(code: Seq<char>) -> Seq<char> {
    if code == "DE"@ {
        "🇩🇪"@
    } else if code == "ES"@ {
        "🇪🇸"@
    } else if code == "FR"@ {
        "🇫🇷"@
    } else if code == "IT"@ {
        "🇮🇹"@
    } else if code == "NL"@ {
        "🇳🇱"@
    } else if code == "BE"@ {
        "🇧🇪"@
    } else if code == "AT"@ {
        "🇦🇹"@
    } else if code == "PL"@ {
        "🇵🇱"@
    } else if code == "SE"@ {
        "🇸🇪"@
    } else if code == "CO.UK"@ || code == "UK"@ {
        "🇬🇧"@
    } else {
        "🏳️"@
    }
}

/// The flag of the country that an upper-case code stands for.
pub fn flag_for(code: &str) -> (r: &'static str)
    ensures
        r@ == flag_of(code@),
{
    if same_text(code, "DE") {
        "🇩🇪"
    } else if same_text(code, "ES") {
        "🇪🇸"
    } else if same_text(code, "FR") {
        "🇫🇷"
    } else if same_text(code, "IT") {
        "🇮🇹"
    } else if same_text(code, "NL") {
        "🇳🇱"
    } else if same_text(code, "BE") {
        "🇧🇪"
    } else if same_text(code, "AT") {
        "🇦🇹"
    } else if same_text(code, "PL") {
        "🇵🇱"
    } else if same_text(code, "SE") {
        "🇸🇪"
    } else if same_text(code, "CO.UK") || same_text(code, "UK") {
        "🇬🇧"
    } else {
        "🏳️"
    }
}

/// The flag of a country, by its code in any letter case.
pub fn country_flag(code: &str) -> (r: &'static str)
    ensures
        r@ == flag_of(uppercased(code@)),
{
    let upper = code.to_uppercase();
    flag_for(upper.as_str())
}

impl CountryPrice {
    /// The flag of the country.
    pub fn flag(&self) -> (r: &'static str)
        ensures
            r@ == flag_of(uppercased(self.country@)),
    {
        country_flag(self.country.as_str())
    }

    /// A copy of the price.
    pub fn duplicate(&self) -> (r: CountryPrice)
        ensures
            r@ == self@,
    {
        CountryPrice {
            country: self.country.clone(),
            price: self.price,
            currency: self.currency.clone(),
            is_marketplace: self.is_marketplace,
            amazon_url: self.amazon_url.clone(),
        }
    }
}

impl PriceComparisonView {
    /// What is saved by buying in the first store of the list instead of
    /// the last: nothing to tell for an empty list, or where the
    /// difference has too many digits to be held.
    pub open spec fn max_savings(self) -> Option<Decimal> {
        if self.prices.len() == 0 {
            None
        } else {
            difference(self.prices.last().price, self.prices[0].price)
        }
    }
}

impl PriceComparison {
    /// The first price of the list: the cheapest, the list being ordered.
    pub fn cheapest(&self) -> (r: Option<&CountryPrice>)
        ensures
            r is Some == (self.prices@.len() > 0),
            r matches Some(p) ==> *p == self.prices@[0],
    {
        if self.prices.len() > 0 {
            Some(&self.prices[0])
        } else {
            None
        }
    }

    /// The last price of the list: the dearest, the list being ordered.
    pub fn most_expensive(&self) -> (r: Option<&CountryPrice>)
        ensures
            r is Some == (self.prices@.len() > 0),
            r matches Some(p) ==> *p == self.prices@.last(),
    {
        if self.prices.len() > 0 {
            Some(&self.prices[self.prices.len() - 1])
        } else {
            None
        }
    }

    /// What is saved by buying in the cheapest store instead of the
    /// dearest.
    pub fn max_savings(&self) -> (r: Option<Decimal>)
        ensures
            r == self@.max_savings(),
    {
        if self.prices.len() == 0 {
            return None;
        }
        let cheap = self.prices[0].price;
        let dear = self.prices[self.prices.len() - 1].price;
        assert(self@.prices.last().price == dear);
        assert(self@.prices[0].price == cheap);
        dear.minus(&cheap)
    }
}

} // verus!
