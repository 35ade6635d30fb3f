//! Extraction from the pages of the comparison site.

use crate::amazon::dom::{parse_document, parsed_document};
use crate::amazon::models::text_view;
use crate::amazon::parser::trim_text;
use crate::amazon::selectors::{
    field_attribute, field_text, first_attribute, first_match, first_selection, first_text,
    RuleList, Scope,
};
use crate::decimal::{Decimal, decimal_of};
use crate::text::{
    char_is_digit, chars_of, contains, contains_text, is_digit, lowercased, remove_char,
    replace_char, replaced, same_text, trimmed, uppercased, without_char,
};
use crate::tropical::models::{
    CountryPrice, CountryPriceView, price_views, PriceComparison, PriceComparisonView,
    tropical_views, TropicalProduct, TropicalProductView,
};
use regex_lite::Regex;
use scraper::ElementRef;
use vstd::prelude::*;
use vstd::string::StringExecFns;

verus! {

/// `regex_lite::Regex`, a compiled pattern, carried through as an opaque
/// value.
#[verifier::external_type_specification]
#[verifier::external_body]
pub struct ExRegex(Regex);

/// The compiled form of a pattern text, where the text is a valid pattern.
pub uninterp spec fn compiled_pattern(pattern: Seq<char>) -> Option<Regex>;

/// What the first group of a pattern captures in the leftmost match in a
/// text; `None` where the pattern does not match.
pub uninterp spec fn first_group(regex: Regex, text: Seq<char>) -> Option<Seq<char>>;

/// `Regex::new`: compiles a pattern, `None` where it is not valid.
#[verifier::external_body]
fn compile_pattern(pattern: &str) -> (regex: Option<Regex>)
    ensures
        regex == compiled_pattern(pattern@),
{
    Regex::new(pattern).ok()
}

/// `Regex::captures`: the text of the first group in the leftmost match.
#[verifier::external_body]
fn capture_first_group(regex: &Regex, text: &str) -> (group: Option<String>)
    ensures
        text_view(group) == first_group(*regex, text@),
{
    regex.captures(text).and_then(|found| found.get(1)).map(|m| m.as_str().to_owned())
}

/// The pattern of a product address on the comparison site.
pub const PRODUCT_PATTERN: &'static str = "/product/([A-Z0-9]{10})";

/// The entries of a result list.
pub const SEARCH_ITEM: [&'static str; 1] = ["li"];

/// The link of an entry to its product.
pub const PRODUCT_LINK: [&'static str; 1] = ["a[href*='/product/']"];

/// The title of an entry or of a product page.
pub const PRODUCT_TITLE: [&'static str; 1] = ["h2"];

/// The price of an entry.
pub const PRICE_LINK: [&'static str; 1] = ["a.price"];

/// The table of prices on a product page.
pub const PRICE_TABLE: [&'static str; 1] = ["table.product-table"];

/// A row of the price table.
pub const TABLE_ROW: [&'static str; 1] = ["tr"];

/// The cell of a row that holds the flag.
pub const FLAG_CELL: [&'static str; 1] = ["td.product-table-flag"];

/// The flag picture, whose alternative text is the country code.
pub const FLAG_IMG: [&'static str; 1] = ["img"];

/// The cell of a row that holds the price.
pub const PRICE_CELL: [&'static str; 1] = ["td.product-table-price"];

/// The price amount within its cell.
pub const PRICE_AMOUNT: [&'static str; 1] = ["span.product-table-price-amount"];

/// The compiled rules for the pages of the comparison site.
pub struct TropicalCatalog {
    pub search_item: RuleList,
    pub product_link: RuleList,
    pub product_title: RuleList,
    pub price_link: RuleList,
    pub price_table: RuleList,
    pub table_row: RuleList,
    pub flag_cell: RuleList,
    pub flag_img: RuleList,
    pub price_cell: RuleList,
    pub price_amount: RuleList,
}

/// The form of a catalog code: ten capital letters or digits.
pub open spec fn is_product_code(code: Seq<char>) -> bool {
    code.len() == 10 && forall|i: int|
        0 <= i < code.len() ==> is_digit(#[trigger] code[i]) || ('A' <= code[i] && code[i] <= 'Z')
}

/// A captured text, where it has the form of a catalog code.
pub open spec fn accepted_code(candidate: Option<Seq<char>>) -> Option<Seq<char>> {
    match candidate {
        Some(code) => if is_product_code(code) {
            Some(code)
        } else {
            None
        },
        None => None,
    }
}

/// The catalog code in a product address of the comparison site.
pub open spec fn product_code(url: Seq<char>) -> Option<Seq<char>> {
    match compiled_pattern(PRODUCT_PATTERN@) {
        Some(regex) => accepted_code(first_group(regex, url)),
        None => None,
    }
}

/// The test "is a digit, a period or a comma", as a value.
pub open spec fn euro_char_test() -> spec_fn(char) -> bool {
    |c: char| is_digit(c) || c == '.' || c == ','
}

/// The position after the last occurrence of a character; 0 where there is
/// none.
pub open spec fn end_of_last(s: Seq<char>, c: char) -> nat
    decreases s.len(),
{
    if s.len() == 0 {
        0
    } else if s.last() == c {
        s.len()
    } else {
        end_of_last(s.drop_last(), c)
    }
}

/// A euro amount with its separators resolved. The separator that comes
/// last is the decimal one: with a comma last, periods separate thousands;
/// with a period last, commas do. A lone comma is a decimal comma.
pub open spec fn euro_normalized(s: Seq<char>) -> Seq<char> {
    let comma = end_of_last(s, ',');
    let period = end_of_last(s, '.');
    if comma > period {
        replaced(without_char(s, '.'), ',', '.')
    } else if comma > 0 {
        without_char(s, ',')
    } else {
        s
    }
}

/// The value of a euro amount such as "€99.99" or "1.234,56 €".
pub open spec fn euro_value(text: Seq<char>) -> Option<Decimal> {
    if text.filter(euro_char_test()).len() == 0 {
        None
    } else {
        decimal_of(euro_normalized(text.filter(euro_char_test())))
    }
}

/// A captured text, where it has the form of a catalog code.
pub fn accept_code(candidate: Option<String>) -> (r: Option<String>)
    ensures
        text_view(r) == accepted_code(text_view(candidate)),
{
    let code = match candidate {
        Some(code) => code,
        None => {
            return None;
        },
    };
    let chars = chars_of(code.as_str());
    if chars.len() != 10 {
        return None;
    }
    let mut i: usize = 0;
    while i < chars.len()
        invariant
            i <= chars.len(),
            chars@ == code@,
            chars@.len() == 10,
            candidate == Some(code),
            forall|k: int|
                0 <= k < i ==> is_digit(#[trigger] chars@[k]) || ('A' <= chars@[k] && chars@[k]
                    <= 'Z'),
        decreases chars.len() - i,
    {
        let c = chars[i];
        if !(char_is_digit(c) || ('A' <= c && c <= 'Z')) {
            assert(!(is_digit(code@[i as int]) || ('A' <= code@[i as int] && code@[i as int]
                <= 'Z')));
            return None;
        }
        i = i + 1;
    }
    Some(code)
}

/// The catalog code in a product address of the comparison site.
pub fn extract_asin(url: &str) -> (r: Option<String>)
    ensures
        text_view(r) == product_code(url@),
        r matches Some(code) ==> is_product_code(code@),
{
    match compile_pattern(PRODUCT_PATTERN) {
        Some(regex) => accept_code(capture_first_group(&regex, url)),
        None => None,
    }
}

/// Reads a euro amount such as "€99.99" or "1.234,56 €".
pub fn parse_eur_price(text: &str) -> (r: Option<Decimal>)
    ensures
        r == euro_value(text@),
{
    let chars = chars_of(text);
    let mut kept: Vec<char> = Vec::new();
    let ghost keep = euro_char_test();
    let mut comma: usize = 0;
    let mut period: usize = 0;
    let mut i: usize = 0;
    assert(chars@.take(0).filter(keep) == Seq::<char>::empty()) by {
        reveal(Seq::filter);
    }
    while i < chars.len()
        invariant
            i <= chars.len(),
            keep == euro_char_test(),
            kept@ == chars@.take(i as int).filter(keep),
            kept@.len() <= i,
            comma == end_of_last(kept@, ','),
            period == end_of_last(kept@, '.'),
        decreases chars.len() - i,
    {
        proof {
            assert(chars@.take(i + 1) == chars@.take(i as int).push(chars@[i as int]));
            chars@.take(i as int).lemma_filter_push(chars@[i as int], keep);
        }
        let c = chars[i];
        if char_is_digit(c) || c == '.' || c == ',' {
            let ghost before = kept@;
            kept.push(c);
            assert(kept@.drop_last() == before);
            if c == ',' {
                comma = kept.len();
            } else if c == '.' {
                period = kept.len();
            }
        }
        i = i + 1;
    }
    assert(chars@.take(chars@.len() as int) == chars@);
    if kept.len() == 0 {
        return None;
    }
    let normalized = if comma > period {
        let no_periods = remove_char(kept.as_slice(), '.');
        replace_char(no_periods.as_slice(), ',', '.')
    } else if comma > 0 {
        remove_char(kept.as_slice(), ',')
    } else {
        kept
    };
    Decimal::parse(normalized.as_slice())
}

impl TropicalCatalog {
    /// Every field holds the compiled rule of its table above.
    pub open spec fn wf(self) -> bool {
        &&& self.search_item.follows_plain(SEARCH_ITEM@)
        &&& self.product_link.follows_plain(PRODUCT_LINK@)
        &&& self.product_title.follows_plain(PRODUCT_TITLE@)
        &&& self.price_link.follows_plain(PRICE_LINK@)
        &&& self.price_table.follows_plain(PRICE_TABLE@)
        &&& self.table_row.follows_plain(TABLE_ROW@)
        &&& self.flag_cell.follows_plain(FLAG_CELL@)
        &&& self.flag_img.follows_plain(FLAG_IMG@)
        &&& self.price_cell.follows_plain(PRICE_CELL@)
        &&& self.price_amount.follows_plain(PRICE_AMOUNT@)
    }

    /// Compiles the tables above.
    pub fn standard() -> (catalog: TropicalCatalog)
        ensures
            catalog.wf(),
    {
        TropicalCatalog {
            search_item: RuleList::plain(&SEARCH_ITEM),
            product_link: RuleList::plain(&PRODUCT_LINK),
            product_title: RuleList::plain(&PRODUCT_TITLE),
            price_link: RuleList::plain(&PRICE_LINK),
            price_table: RuleList::plain(&PRICE_TABLE),
            table_row: RuleList::plain(&TABLE_ROW),
            flag_cell: RuleList::plain(&FLAG_CELL),
            flag_img: RuleList::plain(&FLAG_IMG),
            price_cell: RuleList::plain(&PRICE_CELL),
            price_amount: RuleList::plain(&PRICE_AMOUNT),
        }
    }

    /// The product of one entry of a result list; `None` for an entry
    /// without a link to a product.
    pub open spec fn entry<'a>(self, item: ElementRef<'a>) -> Option<TropicalProductView> {
        let scope = Scope::Card(item);
        match field_attribute(scope, self.product_link.rules@, "href"@) {
            None => None,
            Some(href) => match product_code(href) {
                None => None,
                Some(asin) => Some(
                    TropicalProductView {
                        asin,
                        title: match field_text(scope, self.product_title.rules@) {
                            Some(text) => trimmed(text),
                            None => "Unknown"@,
                        },
                        price: match field_text(scope, self.price_link.rules@) {
                            Some(text) => euro_value(text),
                            None => None,
                        },
                        currency: "EUR"@,
                        url: "https://tropicalprice.com"@ + href,
                    },
                ),
            },
        }
    }

    /// The function `entry`, as a value.
    pub open spec fn entry_of<'a>(self) -> spec_fn(ElementRef<'a>) -> Option<TropicalProductView> {
        |item: ElementRef<'a>| self.entry(item)
    }

    /// What the extraction of a result list yields: the products among its
    /// first `max_results` entries.
    pub open spec fn search_results(self, html: Seq<char>, max_results: usize) -> Seq<
        TropicalProductView,
    > {
        let document = parsed_document(html);
        let items = first_selection(Scope::Page(&document), self.search_item.rules@);
        let count = if items.len() <= max_results {
            items.len() as int
        } else {
            max_results as int
        };
        items.take(count).filter_map(self.entry_of())
    }

    /// The Amazon domain ending of a country code in upper case.
    pub open spec fn domain_ending(country: Seq<char>) -> Seq<char> {
        if country == "UK"@ || country == "CO.UK"@ {
            "co.uk"@
        } else {
            lowercased(country)
        }
    }

    /// The price that one row of the price table quotes; `None` for a row
    /// without a flag, without a country code or without a readable price.
    pub open spec fn quote<'a>(self, row: ElementRef<'a>, asin: Seq<char>) -> Option<
        CountryPriceView,
    > {
        let flags = first_selection(Scope::Card(row), self.flag_cell.rules@);
        let cells = first_selection(Scope::Card(row), self.price_cell.rules@);
        if flags.len() == 0 || cells.len() == 0 {
            None
        } else {
            match (
                field_attribute(Scope::Card(flags[0]), self.flag_img.rules@, "alt"@),
                field_text(Scope::Card(cells[0]), self.price_amount.rules@),
            ) {
                (Some(alt), Some(text)) => match euro_value(text) {
                    Some(price) => Some(
                        CountryPriceView {
                            country: uppercased(alt),
                            price,
                            currency: "EUR"@,
                            is_marketplace: contains_text(text, "**"@),
                            amazon_url: "https://www.amazon."@ + TropicalCatalog::domain_ending(
                                uppercased(alt),
                            ) + "/dp/"@ + asin,
                        },
                    ),
                    None => None,
                },
                _ => None,
            }
        }
    }

    /// The function `quote` for a catalog code, as a value.
    pub open spec fn quote_of<'a>(self, asin: Seq<char>) -> spec_fn(ElementRef<'a>) -> Option<
        CountryPriceView,
    > {
        |row: ElementRef<'a>| self.quote(row, asin)
    }

    /// What the extraction of a product page yields: the quotes of its
    /// price table, the cheapest first; `None` for a page without a price
    /// table or without a quote.
    pub open spec fn comparison(self, html: Seq<char>, asin: Seq<char>) -> Option<
        PriceComparisonView,
    > {
        let document = parsed_document(html);
        let scope = Scope::Page(&document);
        let tables = first_selection(scope, self.price_table.rules@);
        if tables.len() == 0 {
            None
        } else {
            let quotes = first_selection(Scope::Card(tables[0]), self.table_row.rules@).filter_map(
                self.quote_of(asin),
            );
            if quotes.len() == 0 || quotes.len() > usize::MAX {
                None
            } else {
                Some(
                    PriceComparisonView {
                        asin,
                        title: match field_text(scope, self.product_title.rules@) {
                            Some(text) => trimmed(text),
                            None => "Unknown Product"@,
                        },
                        prices: ascending(quotes),
                        total_stores: quotes.len() as usize,
                    },
                )
            }
        }
    }
}

/// Where a quote goes into a list ordered by price: before the first quote
/// that is dearer, so after every quote of the same price.
pub open spec fn slot(sorted: Seq<CountryPriceView>, price: Decimal) -> int
    decreases sorted.len(),
{
    if sorted.len() == 0 {
        0
    } else if price.lt(sorted[0].price) {
        0
    } else {
        1 + slot(sorted.drop_first(), price)
    }
}

/// The quotes ordered by price, the cheapest first; quotes of the same
/// price keep their order.
pub open spec fn ascending(quotes: Seq<CountryPriceView>) -> Seq<CountryPriceView>
    decreases quotes.len(),
{
    if quotes.len() == 0 {
        Seq::empty()
    } else {
        let rest = ascending(quotes.drop_last());
        rest.insert(slot(rest, quotes.last().price), quotes.last())
    }
}

proof fn lemma_slot(sorted: Seq<CountryPriceView>, price: Decimal, at: int)
    requires
        0 <= at <= sorted.len(),
        forall|k: int| 0 <= k < at ==> !price.lt((#[trigger] sorted[k]).price),
        at < sorted.len() ==> price.lt(sorted[at].price),
    ensures
        slot(sorted, price) == at,
    decreases sorted.len(),
{
    if sorted.len() > 0 && at > 0 {
        let rest = sorted.drop_first();
        assert(!price.lt(sorted[0].price));
        assert forall|k: int| 0 <= k < at - 1 implies !price.lt((#[trigger] rest[k]).price) by {
            assert(rest[k] == sorted[k + 1]);
        }
        if at - 1 < rest.len() {
            assert(rest[at - 1] == sorted[at]);
        }
        lemma_slot(rest, price, at - 1);
    }
}

/// The quotes stand in order of price: none is dearer than a later one.
pub open spec fn in_price_order(quotes: Seq<CountryPriceView>) -> bool {
    forall|i: int, j: int|
        0 <= i < j < quotes.len() ==> (#[trigger] quotes[i]).price.le((#[trigger] quotes[j]).price)
}

proof fn lemma_slot_bounds(sorted: Seq<CountryPriceView>, price: Decimal)
    ensures
        0 <= slot(sorted, price) <= sorted.len(),
        forall|k: int| 0 <= k < slot(sorted, price) ==> !price.lt((#[trigger] sorted[k]).price),
        slot(sorted, price) < sorted.len() ==> price.lt(sorted[slot(sorted, price)].price),
    decreases sorted.len(),
{
    if sorted.len() > 0 && !price.lt(sorted[0].price) {
        let rest = sorted.drop_first();
        lemma_slot_bounds(rest, price);
        assert forall|k: int| 0 <= k < slot(sorted, price) implies !price.lt(
            (#[trigger] sorted[k]).price,
        ) by {
            if k > 0 {
                assert(sorted[k] == rest[k - 1]);
            }
        }
        if slot(sorted, price) < sorted.len() {
            assert(sorted[slot(sorted, price)] == rest[slot(rest, price)]);
        }
    }
}

/// The quotes that `ascending` yields are as many as it was given, and
/// stand in order of price.
pub proof fn law_ascending_is_ordered(quotes: Seq<CountryPriceView>)
    ensures
        ascending(quotes).len() == quotes.len(),
        in_price_order(ascending(quotes)),
    decreases quotes.len(),
{
    if quotes.len() > 0 {
        let rest = ascending(quotes.drop_last());
        let item = quotes.last();
        let at = slot(rest, item.price);
        law_ascending_is_ordered(quotes.drop_last());
        lemma_slot_bounds(rest, item.price);
        let all = rest.insert(at, item);
        assert forall|i: int, j: int| 0 <= i < j < all.len() implies (#[trigger] all[i]).price.le(
            (#[trigger] all[j]).price,
        ) by {
            if j < at {
                assert(all[i] == rest[i] && all[j] == rest[j]);
            } else if j == at {
                assert(all[i] == rest[i]);
                crate::decimal::lemma_order_total(item.price, rest[i].price);
            } else if i < at {
                assert(all[i] == rest[i] && all[j] == rest[j - 1]);
            } else if i == at {
                assert(all[j] == rest[j - 1]);
                crate::decimal::lemma_order_total(item.price, rest[at].price);
                if j - 1 > at {
                    assert(rest[at].price.le(rest[j - 1].price));
                    crate::decimal::lemma_le_transitive(
                        item.price,
                        rest[at].price,
                        rest[j - 1].price,
                    );
                }
            } else {
                assert(all[i] == rest[i - 1] && all[j] == rest[j - 1]);
            }
        }
    }
}

/// Puts the quotes in order of price, the cheapest first.
pub fn sort_by_price(quotes: Vec<CountryPrice>) -> (r: Vec<CountryPrice>)
    ensures
        price_views(r@) == ascending(price_views(quotes@)),
{
    let mut sorted: Vec<CountryPrice> = Vec::new();
    let ghost all = price_views(quotes@);
    let mut i: usize = 0;
    assert(all.take(0) == Seq::<CountryPriceView>::empty());
    assert(price_views(sorted@) == Seq::<CountryPriceView>::empty());
    while i < quotes.len()
        invariant
            i <= quotes.len(),
            all == price_views(quotes@),
            price_views(sorted@) == ascending(all.take(i as int)),
            sorted@.len() == i,
        decreases quotes.len() - i,
    {
        let price = quotes[i].price;
        let mut at: usize = 0;
        while at < sorted.len() && !price.is_less_than(&sorted[at].price)
            invariant
                at <= sorted.len(),
                forall|k: int| 0 <= k < at ==> !price.lt((#[trigger] price_views(sorted@)[k]).price),
            decreases sorted.len() - at,
        {
            assert(price_views(sorted@)[at as int].price == sorted@[at as int].price);
            at = at + 1;
        }
        proof {
            let views = price_views(sorted@);
            if at < sorted.len() {
                assert(views[at as int].price == sorted@[at as int].price);
            }
            lemma_slot(views, price, at as int);
            assert(all.take(i + 1).drop_last() == all.take(i as int));
            assert(all.take(i + 1).last() == quotes@[i as int]@);
        }
        let ghost before = sorted@;
        let copy = quotes[i].duplicate();
        sorted.insert(at, copy);
        assert(price_views(sorted@) == price_views(before).insert(at as int, copy@));
        i = i + 1;
    }
    assert(all.take(all.len() as int) == all);
    sorted
}

impl TropicalCatalog {
    /// The product of one entry of a result list.
    pub fn parse_entry<'a>(&self, item: ElementRef<'a>) -> (r: Option<TropicalProduct>)
        ensures
            r is Some == self.entry(item) is Some,
            r matches Some(product) ==> self.entry(item) == Some(product@),
    {
        let scope = Scope::Card(item);
        let href = match first_attribute(&scope, &self.product_link, "href") {
            Some(href) => href,
            None => {
                return None;
            },
        };
        let asin = match extract_asin(href.as_str()) {
            Some(asin) => asin,
            None => {
                return None;
            },
        };
        let title = match first_text(&scope, &self.product_title) {
            Some(text) => trim_text(text.as_str()),
            None => "Unknown".to_owned(),
        };
        let price = match first_text(&scope, &self.price_link) {
            Some(text) => parse_eur_price(text.as_str()),
            None => None,
        };
        let mut url = "https://tropicalprice.com".to_owned();
        url.append(href.as_str());
        Some(TropicalProduct { asin, title, price, currency: "EUR".to_owned(), url })
    }

    /// Extracts a result list: the products among its first `max_results`
    /// entries, in page order.
    pub fn parse_search_results(&self, html: &str, max_results: usize) -> (r: Vec<
        TropicalProduct,
    >)
        ensures
            tropical_views(r@) == self.search_results(html@, max_results),
    {
        let document = parse_document(html);
        let scope = Scope::Page(&document);
        let items = first_match(&scope, &self.search_item);
        let count: usize = if items.len() <= max_results {
            items.len()
        } else {
            max_results
        };
        let ghost shown = items@.take(count as int);
        let mut products: Vec<TropicalProduct> = Vec::new();
        let mut i: usize = 0;
        assert(shown.take(0) == Seq::<ElementRef>::empty());
        assert(tropical_views(products@) == Seq::<TropicalProductView>::empty());
        while i < count
            invariant
                i <= count <= items.len(),
                shown == items@.take(count as int),
                tropical_views(products@) == shown.take(i as int).filter_map(self.entry_of()),
            decreases count - i,
        {
            proof {
                shown.lemma_filter_map_take_succ(self.entry_of(), i as int);
                assert(shown[i as int] == items@[i as int]);
            }
            let ghost before = products@;
            match self.parse_entry(items[i]) {
                Some(product) => {
                    products.push(product);
                    assert(tropical_views(products@) == tropical_views(before) + seq![product@]);
                },
                None => {},
            }
            i = i + 1;
        }
        assert(shown.take(count as int) == shown);
        products
    }

    /// The Amazon domain ending of a country code in upper case.
    pub fn domain_ending_of(country: &str) -> (r: String)
        ensures
            r@ == TropicalCatalog::domain_ending(country@),
    {
        if same_text(country, "UK") || same_text(country, "CO.UK") {
            "co.uk".to_owned()
        } else {
            country.to_lowercase()
        }
    }

    /// The price that one row of the price table quotes.
    pub fn parse_quote<'a>(&self, row: ElementRef<'a>, asin: &str) -> (r: Option<CountryPrice>)
        ensures
            r is Some == self.quote(row, asin@) is Some,
            r matches Some(quote) ==> self.quote(row, asin@) == Some(quote@),
    {
        let scope = Scope::Card(row);
        let flags = first_match(&scope, &self.flag_cell);
        let cells = first_match(&scope, &self.price_cell);
        if flags.len() == 0 || cells.len() == 0 {
            return None;
        }
        let alt = first_attribute(&Scope::Card(flags[0]), &self.flag_img, "alt");
        let amount = first_text(&Scope::Card(cells[0]), &self.price_amount);
        let (alt, text) = match (alt, amount) {
            (Some(alt), Some(text)) => (alt, text),
            _ => {
                return None;
            },
        };
        let price = match parse_eur_price(text.as_str()) {
            Some(price) => price,
            None => {
                return None;
            },
        };
        let country = alt.as_str().to_uppercase();
        let is_marketplace = contains(text.as_str(), "**");
        let mut amazon_url = "https://www.amazon.".to_owned();
        amazon_url.append(TropicalCatalog::domain_ending_of(country.as_str()).as_str());
        amazon_url.append("/dp/");
        amazon_url.append(asin);
        Some(
            CountryPrice {
                country,
                price,
                currency: "EUR".to_owned(),
                is_marketplace,
                amazon_url,
            },
        )
    }

    /// Extracts the price table of a product page.
    pub fn parse_price_comparison(&self, html: &str, asin: &str) -> (r: Option<PriceComparison>)
        ensures
            r is Some == self.comparison(html@, asin@) is Some,
            r matches Some(found) ==> self.comparison(html@, asin@) == Some(found@),
    {
        let document = parse_document(html);
        let scope = Scope::Page(&document);
        let title = match first_text(&scope, &self.product_title) {
            Some(text) => trim_text(text.as_str()),
            None => "Unknown Product".to_owned(),
        };
        let tables = first_match(&scope, &self.price_table);
        if tables.len() == 0 {
            return None;
        }
        let rows = first_match(&Scope::Card(tables[0]), &self.table_row);
        let mut quotes: Vec<CountryPrice> = Vec::new();
        let mut i: usize = 0;
        assert(rows@.take(0) == Seq::<ElementRef>::empty());
        assert(price_views(quotes@) == Seq::<CountryPriceView>::empty());
        while i < rows.len()
            invariant
                i <= rows.len(),
                price_views(quotes@) == rows@.take(i as int).filter_map(self.quote_of(asin@)),
            decreases rows.len() - i,
        {
            proof {
                rows@.lemma_filter_map_take_succ(self.quote_of(asin@), i as int);
            }
            let ghost before = quotes@;
            match self.parse_quote(rows[i], asin) {
                Some(quote) => {
                    quotes.push(quote);
                    assert(price_views(quotes@) == price_views(before) + seq![quote@]);
                },
                None => {},
            }
            i = i + 1;
        }
        assert(rows@.take(rows@.len() as int) == rows@);
        if quotes.len() == 0 {
            return None;
        }
        let total_stores = quotes.len();
        let prices = sort_by_price(quotes);
        Some(PriceComparison { asin: asin.to_owned(), title, prices, total_stores })
    }
}

/// Extracts a result list of the comparison site with the standard rules.
pub fn parse_search_results(html: &str, max_results: usize) -> (r: Vec<TropicalProduct>)
    ensures
        exists|catalog: TropicalCatalog|
            catalog.wf() && tropical_views(r@) == #[trigger] catalog.search_results(
                html@,
                max_results,
            ),
{
    let catalog = TropicalCatalog::standard();
    catalog.parse_search_results(html, max_results)
}

/// Extracts the price table of a product page of the comparison site with
/// the standard rules.
pub fn parse_price_comparison(html: &str, asin: &str) -> (r: Option<PriceComparison>)
    ensures
        exists|catalog: TropicalCatalog|
            catalog.wf() && match r {
                Some(found) => #[trigger] catalog.comparison(html@, asin@) == Some(found@),
                None => catalog.comparison(html@, asin@) is None,
            },
{
    let catalog = TropicalCatalog::standard();
    catalog.parse_price_comparison(html, asin)
}

} // verus!
