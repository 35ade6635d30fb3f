//! The extraction pipeline: from the HTML of a results page or a detail page
//! to typed records.
//!
//! Every extraction first asks the block detector whether the document is a
//! page served in place of real content; on such a page nothing is extracted.
//! Fields are then looked up through the selector catalog, and numeric fields
//! pass through the normalizer with the conventions of the parser's region. A
//! field that no rule finds is absent; only the title of a detail page is
//! required.

use crate::amazon::dom::{
    attribute_of, element_attribute, element_text, parse_document, parsed_document, text_of,
};
use crate::amazon::models::{
    Price, price_view, PriceRange, PriceView, Product, ProductView, Rating, SearchResults,
    SearchResultsView, text_view,
};
use crate::amazon::normalizer::{
    count_value, normalize_count, normalize_price, normalize_review_count, normalize_single_price,
    normalize_stars, price_value, review_count_value, single_price, stars_value,
};
use crate::amazon::regions::Region;
use crate::amazon::selectors::{
    ASIN_ATTR, Catalog, field_attribute, field_present, field_text, first_attribute, first_match,
    first_selection, first_text, has_match, RuleList, Scope,
};
use crate::decimal::Decimal;
use crate::text::{
    after_first, before_first, chars_of, contains, contains_text, lowercased, matches_at,
    starts_with, string_of, strip_prefix, strip_suffix, take_after, take_before, trim, trimmed,
    without_prefix, without_suffix,
};
use scraper::{ElementRef, Html};
use vstd::prelude::*;
use vstd::string::StringExecFns;

verus! {

/// Which page was served in place of real content.
#[derive(Debug, Clone, Copy, PartialEq, Eq, Structural)]
pub enum BlockKind {
    /// A challenge for automated traffic.
    Captcha,
    /// The error page of a degraded service.
    ServicePage,
}

/// What the block detector finds in a document.
#[derive(Debug, Clone, Copy, PartialEq, Eq, Structural)]
pub enum BlockStatus {
    Clean,
    Blocked(BlockKind),
}

/// Why an extraction failed as a whole.
#[derive(Debug, Clone, Copy, PartialEq, Eq, Structural)]
pub enum ParseError {
    /// The document is a block page; nothing on it can be trusted.
    ContentBlocked(BlockKind),
    /// A detail page without a title is no detail page.
    MissingRequiredField,
}

/// Extracts records from the pages of one region.
pub struct Parser {
    pub region: Region,
    pub catalog: Catalog,
}

/// Whether a price text says that the price shows only in the cart.
pub open spec fn is_hidden_price(text: Seq<char>) -> bool {
    contains_text(lowercased(text), "cart"@) || contains_text(lowercased(text), "see price"@)
}

/// Whether an availability text says that the product can be had.
pub open spec fn is_available(text: Seq<char>) -> bool {
    contains_text(lowercased(text), "in stock"@) || contains_text(
        lowercased(text),
        "available"@,
    )
}

/// A brand line without the phrases that wrap the brand's name.
pub open spec fn clean_brand(text: Seq<char>) -> Seq<char> {
    trimmed(
        without_suffix(
            without_prefix(
                without_prefix(without_prefix(trimmed(text), "by "@), "Brand:"@),
                "Visit the"@,
            ),
            "Store"@,
        ),
    )
}

/// The result count in a line such as "1-48 of over 10,000 results": the
/// number spelled by the digits between the first "of" and the next.
pub open spec fn total_results_value(text: Seq<char>) -> Option<u32> {
    match after_first(text, "of"@) {
        Some(rest) => count_value(before_first(rest, "of"@)),
        None => None,
    }
}

/// A text, or the empty text in its place.
pub open spec fn text_or_empty(text: Option<Seq<char>>) -> Seq<char> {
    match text {
        Some(t) => t,
        None => Seq::empty(),
    }
}

impl ParseError {
    /// The message shown for the error.
    pub open spec fn message_text(self) -> Seq<char> {
        match self {
            ParseError::ContentBlocked(BlockKind::Captcha) =>
                "CAPTCHA detected. Amazon is blocking requests. Try using a proxy or waiting before retrying."@,
            ParseError::ContentBlocked(BlockKind::ServicePage) =>
                "Amazon error page detected (503). The service may be temporarily unavailable."@,
            ParseError::MissingRequiredField => "Could not find product title"@,
        }
    }

    /// The message shown for the error. It tells the two kinds of block page
    /// apart, so that a caller can advise to slow down or to come back later.
    pub fn to_string(&self) -> (r: String)
        ensures
            r@ == self.message_text(),
    {
        match self {
            ParseError::ContentBlocked(BlockKind::Captcha) =>
                "CAPTCHA detected. Amazon is blocking requests. Try using a proxy or waiting before retrying.".to_owned(),
            ParseError::ContentBlocked(BlockKind::ServicePage) =>
                "Amazon error page detected (503). The service may be temporarily unavailable.".to_owned(),
            ParseError::MissingRequiredField => "Could not find product title".to_owned(),
        }
    }
}

/// Whether a price text says that the price shows only in the cart.
pub fn mentions_hidden_price(text: &str) -> (r: bool)
    ensures
        r == is_hidden_price(text@),
{
    let lower = text.to_lowercase();
    contains(lower.as_str(), "cart") || contains(lower.as_str(), "see price")
}

/// Whether an availability text says that the product can be had.
pub fn mentions_availability(text: &str) -> (r: bool)
    ensures
        r == is_available(text@),
{
    let lower = text.to_lowercase();
    contains(lower.as_str(), "in stock") || contains(lower.as_str(), "available")
}

/// A text without leading and trailing white space.
pub fn trim_text(text: &str) -> (r: String)
    ensures
        r@ == trimmed(text@),
{
    let chars = chars_of(text);
    let kept = trim(chars.as_slice());
    string_of(kept.as_slice())
}

/// A brand line without the phrases that wrap the brand's name.
pub fn tidy_brand(text: &str) -> (r: String)
    ensures
        r@ == clean_brand(text@),
{
    let chars = chars_of(text);
    let by = chars_of("by ");
    let brand = chars_of("Brand:");
    let visit = chars_of("Visit the");
    let store = chars_of("Store");
    let a = trim(chars.as_slice());
    let b = strip_prefix(a.as_slice(), by.as_slice());
    let c = strip_prefix(b.as_slice(), brand.as_slice());
    let d = strip_prefix(c.as_slice(), visit.as_slice());
    let e = strip_suffix(d.as_slice(), store.as_slice());
    let f = trim(e.as_slice());
    string_of(f.as_slice())
}

/// Reads the result count from a line such as "1-48 of over 10,000 results".
pub fn read_total_results(text: &str) -> (r: Option<u32>)
    ensures
        r == total_results_value(text@),
{
    let chars = chars_of(text);
    let of = chars_of("of");
    match take_after(chars.as_slice(), of.as_slice()) {
        Some(rest) => {
            let piece = take_before(rest.as_slice(), of.as_slice());
            normalize_count(piece.as_slice())
        },
        None => None,
    }
}

impl Parser {
    /// What a price text is worth in the parser's region.
    pub open spec fn price_of(self, text: Seq<char>) -> Option<Decimal> {
        price_value(text, self.region.comma_decimal())
    }

    /// What the block detector finds: the challenge marks are looked for
    /// first, then the marks of the service's error page.
    pub open spec fn block_status(self, document: &Html) -> BlockStatus {
        if field_present(Scope::Page(document), self.catalog.error_captcha.rules@) {
            BlockStatus::Blocked(BlockKind::Captcha)
        } else if field_present(Scope::Page(document), self.catalog.error_dog_page.rules@) {
            BlockStatus::Blocked(BlockKind::ServicePage)
        } else {
            BlockStatus::Clean
        }
    }

    /// The value of an optional price field.
    pub open spec fn optional_price<'a>(self, scope: Scope<'a>, rules: Seq<crate::amazon::selectors::Rule>) -> Option<
        Decimal,
    > {
        match field_text(scope, rules) {
            Some(text) => self.price_of(text),
            None => None,
        }
    }

    /// The range of a variable price: present only where the range container
    /// is, and a second price text is worth more than the first.
    pub open spec fn price_range<'a>(self, scope: Scope<'a>, current: Decimal) -> Option<
        PriceRange,
    > {
        let prices = first_selection(scope, self.catalog.search_price_current.rules@);
        if field_present(scope, self.catalog.search_price_range.rules@) && prices.len() >= 2 {
            match self.price_of(element_text(prices[1])) {
                Some(max) => if current.lt(max) {
                    Some(PriceRange { min: current, max: Some(max) })
                } else {
                    None
                },
                None => None,
            }
        } else {
            None
        }
    }

    /// The price of a listing: hidden where its text says so, absent where
    /// its text is missing or unparsable.
    pub open spec fn listing_price<'a>(self, scope: Scope<'a>) -> Option<PriceView> {
        match field_text(scope, self.catalog.search_price_current.rules@) {
            None => None,
            Some(text) => if is_hidden_price(text) {
                Some(PriceView::hidden(self.region.currency_text()))
            } else {
                match self.price_of(text) {
                    None => None,
                    Some(current) => Some(
                        PriceView {
                            current,
                            original: self.optional_price(
                                scope,
                                self.catalog.search_price_original.rules@,
                            ),
                            currency: self.region.currency_text(),
                            range: self.price_range(scope, current),
                            is_hidden: false,
                        },
                    ),
                }
            },
        }
    }

    /// The price on a detail page: absent where its text is missing or
    /// unparsable.
    pub open spec fn detail_price<'a>(self, scope: Scope<'a>) -> Option<PriceView> {
        match self.optional_price(scope, self.catalog.product_price.rules@) {
            None => None,
            Some(current) => Some(
                PriceView {
                    current,
                    original: self.optional_price(
                        scope,
                        self.catalog.product_price_original.rules@,
                    ),
                    currency: self.region.currency_text(),
                    range: None,
                    is_hidden: false,
                },
            ),
        }
    }

    /// A rating: absent where the star text is missing or unparsable; its
    /// review count is 0 where the count text is.
    pub open spec fn rating<'a>(
        scope: Scope<'a>,
        stars: Seq<crate::amazon::selectors::Rule>,
        count: Seq<crate::amazon::selectors::Rule>,
    ) -> Option<Rating> {
        match field_text(scope, stars) {
            None => None,
            Some(text) => match stars_value(text) {
                None => None,
                Some(value) => Some(
                    Rating {
                        stars: value.clamped(Decimal::whole(0), Decimal::whole(5)),
                        review_count: review_count_value(text_or_empty(field_text(scope, count))),
                    },
                ),
            },
        }
    }

    /// A parser for the pages of a region, with the standard catalog.
    pub fn new(region: Region) -> (parser: Parser)
        ensures
            parser.region == region,
            parser.catalog.wf(),
    {
        Parser { region, catalog: Catalog::standard() }
    }

    /// The region whose pages the parser reads.
    pub fn region(&self) -> (r: Region)
        ensures
            r == self.region,
    {
        self.region
    }

    /// Reads a price text by the conventions of the parser's region.
    pub fn parse_price_value(&self, text: &str) -> (r: Option<Decimal>)
        ensures
            r == self.price_of(text@),
    {
        normalize_price(text, self.region.uses_comma_decimal())
    }

    /// Reads one price number by the conventions of the parser's region.
    pub fn parse_single_price(&self, text: &str) -> (r: Option<Decimal>)
        ensures
            r == single_price(text@, self.region.comma_decimal()),
    {
        let chars = chars_of(text);
        normalize_single_price(chars.as_slice(), self.region.uses_comma_decimal())
    }

    /// Reads the star value from a text such as "4.5 out of 5 stars".
    pub fn parse_stars(&self, text: &str) -> (r: Option<Decimal>)
        ensures
            r == stars_value(text@),
    {
        normalize_stars(text)
    }

    /// Reads the review count from a text such as "1,234 ratings"; 0 where
    /// the text tells none.
    pub fn parse_review_count(&self, text: &str) -> (r: u32)
        ensures
            r == review_count_value(text@),
    {
        normalize_review_count(text)
    }

    /// The block detector.
    pub fn detect_block(&self, document: &Html) -> (r: BlockStatus)
        ensures
            r == self.block_status(document),
    {
        let scope = Scope::Page(document);
        if has_match(&scope, &self.catalog.error_captcha) {
            BlockStatus::Blocked(BlockKind::Captcha)
        } else if has_match(&scope, &self.catalog.error_dog_page) {
            BlockStatus::Blocked(BlockKind::ServicePage)
        } else {
            BlockStatus::Clean
        }
    }

    /// Fails on a block page.
    pub fn check_for_errors(&self, document: &Html) -> (r: Result<(), ParseError>)
        ensures
            match self.block_status(document) {
                BlockStatus::Clean => r is Ok,
                BlockStatus::Blocked(kind) => r == Err::<(), ParseError>(
                    ParseError::ContentBlocked(kind),
                ),
            },
    {
        match self.detect_block(document) {
            BlockStatus::Clean => Ok(()),
            BlockStatus::Blocked(kind) => Err(ParseError::ContentBlocked(kind)),
        }
    }

    /// The value of an optional price field.
    fn read_optional_price<'a>(&self, scope: &Scope<'a>, rules: &RuleList) -> (r: Option<Decimal>)
        ensures
            r == self.optional_price(*scope, rules.rules@),
    {
        match first_text(scope, rules) {
            Some(text) => self.parse_price_value(text.as_str()),
            None => None,
        }
    }

    /// The range of a variable price.
    fn detect_price_range<'a>(&self, scope: &Scope<'a>, current: Decimal) -> (r: Option<
        PriceRange,
    >)
        ensures
            r == self.price_range(*scope, current),
    {
        if !has_match(scope, &self.catalog.search_price_range) {
            return None;
        }
        let prices = first_match(scope, &self.catalog.search_price_current);
        if prices.len() < 2 {
            return None;
        }
        let text = text_of(&prices[1]);
        match self.parse_price_value(text.as_str()) {
            Some(max) => if current.is_less_than(&max) {
                Some(PriceRange { min: current, max: Some(max) })
            } else {
                None
            },
            None => None,
        }
    }

    /// The price of a listing.
    fn parse_search_price<'a>(&self, scope: &Scope<'a>) -> (r: Option<Price>)
        ensures
            price_view(r) == self.listing_price(*scope),
    {
        let text = match first_text(scope, &self.catalog.search_price_current) {
            Some(text) => text,
            None => {
                return None;
            },
        };
        if mentions_hidden_price(text.as_str()) {
            return Some(Price::hidden(self.region.currency()));
        }
        let current = match self.parse_price_value(text.as_str()) {
            Some(current) => current,
            None => {
                return None;
            },
        };
        let original = self.read_optional_price(scope, &self.catalog.search_price_original);
        let range = self.detect_price_range(scope, current);
        Some(
            Price {
                current,
                original,
                currency: self.region.currency().to_owned(),
                range,
                is_hidden: false,
            },
        )
    }

    /// The price on a detail page.
    fn parse_product_page_price<'a>(&self, scope: &Scope<'a>) -> (r: Option<Price>)
        ensures
            price_view(r) == self.detail_price(*scope),
    {
        let current = match self.read_optional_price(scope, &self.catalog.product_price) {
            Some(current) => current,
            None => {
                return None;
            },
        };
        let original = self.read_optional_price(scope, &self.catalog.product_price_original);
        Some(
            Price {
                current,
                original,
                currency: self.region.currency().to_owned(),
                range: None,
                is_hidden: false,
            },
        )
    }

    /// A rating, from its star field and its count field.
    fn parse_rating<'a>(&self, scope: &Scope<'a>, stars: &RuleList, count: &RuleList) -> (r: Option<
        Rating,
    >)
        ensures
            r == Parser::rating(*scope, stars.rules@, count.rules@),
    {
        let stars_text = match first_text(scope, stars) {
            Some(text) => text,
            None => {
                return None;
            },
        };
        let value = match self.parse_stars(stars_text.as_str()) {
            Some(value) => value,
            None => {
                return None;
            },
        };
        let review_count = match first_text(scope, count) {
            Some(text) => self.parse_review_count(text.as_str()),
            None => {
                let empty = String::new();
                self.parse_review_count(empty.as_str())
            },
        };
        Some(Rating::new(value, review_count))
    }
}

impl Parser {
    /// Whether a listing's container carries a catalog code.
    pub open spec fn has_identifier<'a>(card: ElementRef<'a>) -> bool {
        element_attribute(card, ASIN_ATTR@) matches Some(asin) && asin.len() > 0
    }

    /// The address of a listing: that of its title link, made absolute with
    /// the region's domain where it is relative; without a link, the address
    /// built from the catalog code.
    pub open spec fn listing_url<'a>(self, scope: Scope<'a>, asin: Seq<char>) -> Seq<char> {
        match field_attribute(scope, self.catalog.search_title_link.rules@, "href"@) {
            Some(href) => if starts_with(href, "http"@) {
                href
            } else {
                self.region.base_url_text() + href
            },
            None => self.region.base_url_text() + "/dp/"@ + asin,
        }
    }

    /// Whether a listing is a paid placement: its label is there, or the
    /// word "Sponsored" stands somewhere in the listing's text, written
    /// exactly so.
    pub open spec fn listing_sponsored<'a>(self, card: ElementRef<'a>) -> bool {
        field_present(Scope::Card(card), self.catalog.search_sponsored.rules@) || contains_text(
            element_text(card),
            "Sponsored"@,
        )
    }

    /// The cleaned brand line of a scope, where it has one.
    pub open spec fn brand<'a>(scope: Scope<'a>, rules: Seq<crate::amazon::selectors::Rule>) -> Option<
        Seq<char>,
    > {
        match field_text(scope, rules) {
            Some(text) => Some(clean_brand(text)),
            None => None,
        }
    }

    /// The record of one listing; `None` for a container without a catalog
    /// code, which is a placeholder and no listing.
    pub open spec fn listing<'a>(self, card: ElementRef<'a>) -> Option<ProductView> {
        let scope = Scope::Card(card);
        match element_attribute(card, ASIN_ATTR@) {
            None => None,
            Some(asin) => if asin.len() == 0 {
                None
            } else {
                Some(
                    ProductView {
                        asin,
                        title: match field_text(scope, self.catalog.search_title.rules@) {
                            Some(text) => trimmed(text),
                            None => "Unknown"@,
                        },
                        url: self.listing_url(scope, asin),
                        image_url: field_attribute(
                            scope,
                            self.catalog.search_image.rules@,
                            "src"@,
                        ),
                        price: self.listing_price(scope),
                        rating: Parser::rating(
                            scope,
                            self.catalog.search_rating_stars.rules@,
                            self.catalog.search_rating_count.rules@,
                        ),
                        is_sponsored: self.listing_sponsored(card),
                        is_prime: field_present(scope, self.catalog.search_prime_badge.rules@),
                        is_amazon_choice: field_present(
                            scope,
                            self.catalog.search_amazon_choice.rules@,
                        ),
                        in_stock: self.listing_price(scope) is Some,
                        brand: Parser::brand(scope, self.catalog.search_brand.rules@),
                    },
                )
            },
        }
    }

    /// The function `listing`, as a value.
    pub open spec fn listing_of<'a>(self) -> spec_fn(ElementRef<'a>) -> Option<ProductView> {
        |card: ElementRef<'a>| self.listing(card)
    }

    /// The records of the listings among the containers, in their order.
    pub open spec fn listings<'a>(self, cards: Seq<ElementRef<'a>>) -> Seq<ProductView> {
        cards.filter_map(self.listing_of())
    }

    /// The result count that a results page claims.
    pub open spec fn total_results<'a>(self, scope: Scope<'a>) -> Option<u32> {
        match field_text(scope, self.catalog.search_total_results.rules@) {
            Some(text) => total_results_value(text),
            None => None,
        }
    }

    /// What the extraction of a results page yields.
    pub open spec fn search_page(self, html: Seq<char>, query: Seq<char>, page: u32) -> Result<
        SearchResultsView,
        ParseError,
    > {
        let document = parsed_document(html);
        let scope = Scope::Page(&document);
        match self.block_status(&document) {
            BlockStatus::Blocked(kind) => Err(ParseError::ContentBlocked(kind)),
            BlockStatus::Clean => Ok(
                SearchResultsView {
                    query,
                    region: self.region.code_text(),
                    total_results: self.total_results(scope),
                    products: self.listings(
                        first_selection(scope, self.catalog.search_result.rules@),
                    ),
                    page,
                    has_more: field_present(scope, self.catalog.search_next_page.rules@),
                },
            ),
        }
    }

    /// The picture of a detail page: the source of its first image element,
    /// or else that element's high-resolution source.
    pub open spec fn detail_image<'a>(self, scope: Scope<'a>) -> Option<Seq<char>> {
        let found = first_selection(scope, self.catalog.product_image.rules@);
        if found.len() > 0 {
            match element_attribute(found[0], "src"@) {
                Some(source) => Some(source),
                None => element_attribute(found[0], "data-old-hires"@),
            }
        } else {
            None
        }
    }

    /// Whether a detail page says that the product can be had. A page
    /// without an availability text counts as saying that it cannot.
    pub open spec fn detail_in_stock<'a>(self, scope: Scope<'a>) -> bool {
        match field_text(scope, self.catalog.product_availability.rules@) {
            Some(text) => is_available(text),
            None => false,
        }
    }

    /// What the extraction of a detail page yields.
    pub open spec fn detail_page(self, html: Seq<char>, asin: Seq<char>) -> Result<
        ProductView,
        ParseError,
    > {
        let document = parsed_document(html);
        let scope = Scope::Page(&document);
        match self.block_status(&document) {
            BlockStatus::Blocked(kind) => Err(ParseError::ContentBlocked(kind)),
            BlockStatus::Clean => match field_text(scope, self.catalog.product_title.rules@) {
                None => Err(ParseError::MissingRequiredField),
                Some(title) => Ok(
                    ProductView {
                        asin,
                        title: trimmed(title),
                        url: self.region.base_url_text() + "/dp/"@ + asin,
                        image_url: self.detail_image(scope),
                        price: self.detail_price(scope),
                        rating: Parser::rating(
                            scope,
                            self.catalog.product_rating.rules@,
                            self.catalog.product_review_count.rules@,
                        ),
                        is_sponsored: false,
                        is_prime: field_present(scope, self.catalog.product_prime.rules@),
                        is_amazon_choice: field_present(
                            scope,
                            self.catalog.product_amazon_choice.rules@,
                        ),
                        in_stock: self.detail_in_stock(scope),
                        brand: Parser::brand(scope, self.catalog.product_brand.rules@),
                    },
                ),
            },
        }
    }

    /// The address of a listing.
    fn parse_listing_url<'a>(&self, scope: &Scope<'a>, asin: &str) -> (r: String)
        ensures
            r@ == self.listing_url(*scope, asin@),
    {
        let mut url = self.region.base_url();
        match first_attribute(scope, &self.catalog.search_title_link, "href") {
            Some(href) => {
                let chars = chars_of(href.as_str());
                let http = chars_of("http");
                if matches_at(chars.as_slice(), http.as_slice(), 0) {
                    href
                } else {
                    url.append(href.as_str());
                    url
                }
            },
            None => {
                url.append("/dp/");
                url.append(asin);
                url
            },
        }
    }

    /// Whether a listing is a paid placement.
    fn is_sponsored<'a>(&self, card: ElementRef<'a>) -> (r: bool)
        ensures
            r == self.listing_sponsored(card),
    {
        if has_match(&Scope::Card(card), &self.catalog.search_sponsored) {
            return true;
        }
        let text = text_of(&card);
        contains(text.as_str(), "Sponsored")
    }

    /// The cleaned brand line of a scope.
    fn parse_brand<'a>(&self, scope: &Scope<'a>, rules: &RuleList) -> (r: Option<String>)
        ensures
            text_view(r) == Parser::brand(*scope, rules.rules@),
    {
        match first_text(scope, rules) {
            Some(text) => Some(tidy_brand(text.as_str())),
            None => None,
        }
    }

    /// The record of one listing, or `None` for a placeholder.
    pub fn parse_product_card<'a>(&self, card: ElementRef<'a>) -> (r: Option<Product>)
        ensures
            r is Some == self.listing(card) is Some,
            r matches Some(product) ==> self.listing(card) == Some(product@),
            r is Some == Parser::has_identifier(card),
    {
        let asin = match attribute_of(&card, ASIN_ATTR) {
            Some(asin) => asin,
            None => {
                return None;
            },
        };
        let asin_chars = chars_of(asin.as_str());
        if asin_chars.len() == 0 {
            return None;
        }
        let scope = Scope::Card(card);
        let title = match first_text(&scope, &self.catalog.search_title) {
            Some(text) => trim_text(text.as_str()),
            None => "Unknown".to_owned(),
        };
        let url = self.parse_listing_url(&scope, asin.as_str());
        let image_url = first_attribute(&scope, &self.catalog.search_image, "src");
        let price = self.parse_search_price(&scope);
        let rating = self.parse_rating(
            &scope,
            &self.catalog.search_rating_stars,
            &self.catalog.search_rating_count,
        );
        let is_sponsored = self.is_sponsored(card);
        let is_prime = has_match(&scope, &self.catalog.search_prime_badge);
        let is_amazon_choice = has_match(&scope, &self.catalog.search_amazon_choice);
        let brand = self.parse_brand(&scope, &self.catalog.search_brand);
        let in_stock = price.is_some();
        Some(
            Product {
                asin,
                title,
                url,
                image_url,
                price,
                rating,
                is_sponsored,
                is_prime,
                is_amazon_choice,
                in_stock,
                brand,
            },
        )
    }

    /// The result count that a results page claims.
    fn parse_total_results<'a>(&self, scope: &Scope<'a>) -> (r: Option<u32>)
        ensures
            r == self.total_results(*scope),
    {
        match first_text(scope, &self.catalog.search_total_results) {
            Some(text) => read_total_results(text.as_str()),
            None => None,
        }
    }

    /// Extracts a results page. On a block page the extraction fails with
    /// `ContentBlocked`; on every other document it yields the listings in
    /// page order, leaving out the containers without a catalog code.
    pub fn parse_search(&self, html: &str, query: &str, page: u32) -> (r: Result<
        SearchResults,
        ParseError,
    >)
        ensures
            match r {
                Ok(results) => self.search_page(html@, query@, page) == Ok::<
                    SearchResultsView,
                    ParseError,
                >(results@),
                Err(error) => self.search_page(html@, query@, page) == Err::<
                    SearchResultsView,
                    ParseError,
                >(error),
            },
    {
        let document = parse_document(html);
        match self.check_for_errors(&document) {
            Err(error) => {
                return Err(error);
            },
            Ok(_) => {},
        }
        let scope = Scope::Page(&document);
        let total_results = self.parse_total_results(&scope);
        let cards = first_match(&scope, &self.catalog.search_result);
        let mut products: Vec<Product> = Vec::new();
        let mut i: usize = 0;
        assert(cards@.take(0) == Seq::<ElementRef>::empty());
        assert(crate::amazon::models::product_views(products@) == Seq::<ProductView>::empty());
        while i < cards.len()
            invariant
                i <= cards.len(),
                crate::amazon::models::product_views(products@) == self.listings(cards@.take(i as int)),
            decreases cards.len() - i,
        {
            proof {
                cards@.lemma_filter_map_take_succ(self.listing_of(), i as int);
            }
            let ghost before = products@;
            match self.parse_product_card(cards[i]) {
                Some(product) => {
                    products.push(product);
                    assert(crate::amazon::models::product_views(products@)
                        == crate::amazon::models::product_views(before) + seq![product@]);
                },
                None => {},
            }
            i = i + 1;
        }
        assert(cards@.take(cards@.len() as int) == cards@);
        let has_more = has_match(&scope, &self.catalog.search_next_page);
        Ok(
            SearchResults {
                query: query.to_owned(),
                region: self.region.to_string(),
                total_results,
                products,
                page,
                has_more,
            },
        )
    }

    /// The picture of a detail page.
    fn parse_detail_image<'a>(&self, scope: &Scope<'a>) -> (r: Option<String>)
        ensures
            text_view(r) == self.detail_image(*scope),
    {
        let found = first_match(scope, &self.catalog.product_image);
        if found.len() > 0 {
            match attribute_of(&found[0], "src") {
                Some(source) => Some(source),
                None => attribute_of(&found[0], "data-old-hires"),
            }
        } else {
            None
        }
    }

    /// Extracts a detail page. On a block page the extraction fails with
    /// `ContentBlocked`, on a page without a title with
    /// `MissingRequiredField`; every other field may be absent.
    pub fn parse_product_page(&self, html: &str, asin: &str) -> (r: Result<Product, ParseError>)
        ensures
            match r {
                Ok(product) => self.detail_page(html@, asin@) == Ok::<ProductView, ParseError>(
                    product@,
                ),
                Err(error) => self.detail_page(html@, asin@) == Err::<ProductView, ParseError>(
                    error,
                ),
            },
    {
        let document = parse_document(html);
        match self.check_for_errors(&document) {
            Err(error) => {
                return Err(error);
            },
            Ok(_) => {},
        }
        let scope = Scope::Page(&document);
        let title = match first_text(&scope, &self.catalog.product_title) {
            Some(text) => trim_text(text.as_str()),
            None => {
                return Err(ParseError::MissingRequiredField);
            },
        };
        let price = self.parse_product_page_price(&scope);
        let rating = self.parse_rating(
            &scope,
            &self.catalog.product_rating,
            &self.catalog.product_review_count,
        );
        let image_url = self.parse_detail_image(&scope);
        let brand = self.parse_brand(&scope, &self.catalog.product_brand);
        let in_stock = match first_text(&scope, &self.catalog.product_availability) {
            Some(text) => mentions_availability(text.as_str()),
            None => false,
        };
        let is_prime = has_match(&scope, &self.catalog.product_prime);
        let is_amazon_choice = has_match(&scope, &self.catalog.product_amazon_choice);
        let mut url = self.region.base_url();
        url.append("/dp/");
        url.append(asin);
        Ok(
            Product {
                asin: asin.to_owned(),
                title,
                url,
                image_url,
                price,
                rating,
                is_sponsored: false,
                is_prime,
                is_amazon_choice,
                in_stock,
                brand,
            },
        )
    }

    /// Every container with a catalog code yields a record.
    pub proof fn lemma_identified_cards_all_listed<'a>(self, cards: Seq<ElementRef<'a>>)
        requires
            forall|i: int| 0 <= i < cards.len() ==> Parser::has_identifier(#[trigger] cards[i]),
        ensures
            self.listings(cards).len() == cards.len(),
        decreases cards.len(),
    {
        if cards.len() > 0 {
            let rest = cards.drop_last();
            assert forall|i: int| 0 <= i < rest.len() implies Parser::has_identifier(
                #[trigger] rest[i],
            ) by {
                assert(rest[i] == cards[i]);
            }
            self.lemma_identified_cards_all_listed(rest);
            assert(Parser::has_identifier(cards[cards.len() - 1]));
            assert(self.listing(cards.last()) is Some);
        }
    }

    /// A container without a catalog code is left out of the result, and
    /// nothing else is: of `n` containers of which exactly one lacks the
    /// code, `n - 1` records come out.
    pub proof fn law_card_without_identifier_is_dropped<'a>(
        self,
        cards: Seq<ElementRef<'a>>,
        k: int,
    )
        requires
            0 <= k < cards.len(),
            !Parser::has_identifier(cards[k]),
            forall|i: int|
                0 <= i < cards.len() && i != k ==> Parser::has_identifier(#[trigger] cards[i]),
        ensures
            self.listing(cards[k]) is None,
            self.listings(cards).len() == cards.len() - 1,
        decreases cards.len(),
    {
        let rest = cards.drop_last();
        if k == cards.len() - 1 {
            assert forall|i: int| 0 <= i < rest.len() implies Parser::has_identifier(
                #[trigger] rest[i],
            ) by {
                assert(rest[i] == cards[i]);
            }
            self.lemma_identified_cards_all_listed(rest);
            assert(self.listing(cards.last()) is None);
        } else {
            assert(rest[k] == cards[k]);
            assert forall|i: int| 0 <= i < rest.len() && i != k implies Parser::has_identifier(
                #[trigger] rest[i],
            ) by {
                assert(rest[i] == cards[i]);
            }
            self.law_card_without_identifier_is_dropped(rest, k);
            assert(Parser::has_identifier(cards[cards.len() - 1]));
            assert(self.listing(cards.last()) is Some);
        }
    }

    /// A document that bears the marks of an automated-traffic challenge
    /// fails both extractions with `ContentBlocked`, whatever else it holds.
    pub proof fn law_challenge_blocks_extraction(
        self,
        html: Seq<char>,
        query: Seq<char>,
        page: u32,
        asin: Seq<char>,
    )
        requires
            field_present(
                Scope::Page(&parsed_document(html)),
                self.catalog.error_captcha.rules@,
            ),
        ensures
            self.search_page(html, query, page) == Err::<SearchResultsView, ParseError>(
                ParseError::ContentBlocked(BlockKind::Captcha),
            ),
            self.detail_page(html, asin) == Err::<ProductView, ParseError>(
                ParseError::ContentBlocked(BlockKind::Captcha),
            ),
    {
    }

    /// A detail page that is no block page and has no title element fails
    /// with `MissingRequiredField`, whether or not it has prices or ratings.
    pub proof fn law_detail_page_requires_title(self, html: Seq<char>, asin: Seq<char>)
        requires
            self.block_status(&parsed_document(html)) == BlockStatus::Clean,
            !field_present(
                Scope::Page(&parsed_document(html)),
                self.catalog.product_title.rules@,
            ),
        ensures
            self.detail_page(html, asin) == Err::<ProductView, ParseError>(
                ParseError::MissingRequiredField,
            ),
    {
    }
}

} // verus!
