//! The decisions of the commands: which catalog codes are acceptable, which
//! filters a search applies, when a search asks for another page and what
//! it shows in the end. Fetching the pages is left to the caller, who hands
//! each page's results back.

use crate::amazon::models::{Product, product_views, ProductView, SearchResults, text_view};
use crate::config::Config;
use crate::decimal::Decimal;
use crate::filters::keyword::{holds_all, holds_none, lowercased_all};
use crate::filters::{
    all_accept, AnyFilter, Filter, FilterChain, FilterChainBuilder, passing, PriceFilter,
    RatingFilter,
};
use crate::format::Formatter;
use crate::text::{chars_of, lowercased, string_of, trim, trimmed, uppercased, views};
use vstd::prelude::*;
use vstd::string::StringExecFns;

verus! {

/// The most pages that one search asks for.
pub const MAX_PAGES: u32 = 10;

/// An ASCII letter or digit.
pub open spec fn is_ascii_alphanumeric(c: char) -> bool {
    ('0' <= c && c <= '9') || ('A' <= c && c <= 'Z') || ('a' <= c && c <= 'z')
}

/// The form of a catalog code as users give it: ten ASCII letters or
/// digits.
pub open spec fn is_valid_asin(s: Seq<char>) -> bool {
    s.len() == 10 && forall|i: int| 0 <= i < s.len() ==> is_ascii_alphanumeric(#[trigger] s[i])
}

/// A catalog code as it is looked up: without white space around it, in
/// upper case.
pub open spec fn cleaned_asin(input: Seq<char>) -> Seq<char> {
    uppercased(trimmed(input))
}

/// The message for a text that is no catalog code.
pub open spec fn invalid_asin_text(cleaned: Seq<char>) -> Seq<char> {
    "Invalid ASIN format: '"@ + cleaned + "'. ASIN should be 10 alphanumeric characters."@
}

/// Whether a text has the form of a catalog code.
pub fn is_asin(text: &str) -> (r: bool)
    ensures
        r == is_valid_asin(text@),
{
    let chars = chars_of(text);
    if chars.len() != 10 {
        return false;
    }
    let mut i: usize = 0;
    while i < chars.len()
        invariant
            i <= chars.len(),
            chars@ == text@,
            forall|k: int| 0 <= k < i ==> is_ascii_alphanumeric(#[trigger] chars@[k]),
        decreases chars.len() - i,
    {
        let c = chars[i];
        if !(('0' <= c && c <= '9') || ('A' <= c && c <= 'Z') || ('a' <= c && c <= 'z')) {
            assert(!is_ascii_alphanumeric(text@[i as int]));
            return false;
        }
        i = i + 1;
    }
    true
}

/// A catalog code as it is looked up: trimmed and in upper case.
pub fn clean_asin(input: &str) -> (r: String)
    ensures
        r@ == cleaned_asin(input@),
{
    let chars = chars_of(input);
    let kept = trim(chars.as_slice());
    string_of(kept.as_slice()).as_str().to_uppercase()
}

/// The catalog code that a user's text stands for, or the message that
/// rejects the text.
pub fn normalize_asin(input: &str) -> (r: Result<String, String>)
    ensures
        match r {
            Ok(asin) => asin@ == cleaned_asin(input@) && is_valid_asin(asin@),
            Err(message) => !is_valid_asin(cleaned_asin(input@)) && message@ == invalid_asin_text(
                cleaned_asin(input@),
            ),
        },
{
    let asin = clean_asin(input);
    if is_asin(asin.as_str()) {
        Ok(asin)
    } else {
        let mut message = "Invalid ASIN format: '".to_owned();
        message.append(asin.as_str());
        message.append("'. ASIN should be 10 alphanumeric characters.");
        Err(message)
    }
}

/// The decisions of a product search.
pub struct SearchCommand {
    pub config: Config,
}

/// The decisions of a product lookup.
pub struct ProductCommand {
    pub config: Config,
}

/// How far a search has come.
pub struct SearchProgress {
    /// The products collected so far.
    pub products: Vec<Product>,
    /// The page that is asked for next.
    pub page: u32,
    /// Set when no further page is to be asked for.
    pub done: bool,
}

/// A copy of a list of texts.
pub fn duplicate_texts(texts: &Vec<String>) -> (r: Vec<String>)
    ensures
        views(r@) == views(texts@),
        r@.len() == texts@.len(),
{
    let mut r: Vec<String> = Vec::new();
    let mut i: usize = 0;
    while i < texts.len()
        invariant
            i <= texts.len(),
            r@.len() == i,
            forall|k: int| 0 <= k < i ==> (#[trigger] r@[k])@ == texts@[k]@,
        decreases texts.len() - i,
    {
        r.push(texts[i].clone());
        i = i + 1;
    }
    assert(views(r@) =~= views(texts@));
    r
}

impl Config {
    /// Whether the filters of the settings let a product pass.
    pub open spec fn lets_pass(self, product: ProductView) -> bool {
        &&& (PriceFilter { min: self.min_price, max: self.max_price }).accepts(product)
        &&& self.min_rating matches Some(stars) ==> (RatingFilter {
            min_stars: stars.clamped(Decimal::whole(0), Decimal::whole(5)),
        }).accepts(product)
        &&& self.prime_only ==> product.is_prime
        &&& self.no_sponsored ==> !product.is_sponsored
        &&& holds_all(lowercased(product.title), lowercased_all(views(self.keywords@)))
        &&& holds_none(lowercased(product.title), lowercased_all(views(self.exclude_keywords@)))
    }
}

impl SearchProgress {
    /// Whether the search asks for another page: it is not done, it has
    /// fewer products than it may show, and it has not asked for too many
    /// pages.
    pub open spec fn wants_page(self, max_results: usize) -> bool {
        !self.done && self.products@.len() < max_results && self.page <= MAX_PAGES
    }
}

impl SearchCommand {
    /// The decisions of a search with the given settings.
    pub fn new(config: Config) -> (r: SearchCommand)
        ensures
            r.config == config,
    {
        SearchCommand { config }
    }

    /// The filters that the settings ask for.
    pub fn filters(&self) -> (chain: FilterChain)
        ensures
            forall|product: ProductView|
                #[trigger] chain.accepts(product) == self.config.lets_pass(product),
    {
        let a = FilterChainBuilder::new();
        let b = a.price_range(self.config.min_price, self.config.max_price);
        let c = b.min_rating(self.config.min_rating);
        let d = c.prime_only(self.config.prime_only);
        let e = d.no_sponsored(self.config.no_sponsored);
        let f = e.keywords(duplicate_texts(&self.config.keywords));
        let g = f.exclude_keywords(duplicate_texts(&self.config.exclude_keywords));
        let chain = g.build();
        proof {
            assert forall|product: ProductView| #[trigger]
                chain.accepts(product) == self.config.lets_pass(product) by {
                let fa = a.chain.filters@;
                let fb = b.chain.filters@;
                let fc = c.chain.filters@;
                let fd = d.chain.filters@;
                let fe = e.chain.filters@;
                let ff = f.chain.filters@;
                let fg = g.chain.filters@;
                lemma_all_accept_empty(fa, product);
                let price = PriceFilter { min: self.config.min_price, max: self.config.max_price };
                if self.config.min_price is Some || self.config.max_price is Some {
                    lemma_all_accept_push(fa, AnyFilter::Price(price), product);
                }
                assert(all_accept(fb, product) == price.accepts(product));
                if let Some(stars) = self.config.min_rating {
                    lemma_all_accept_push(
                        fb,
                        AnyFilter::Rating(
                            RatingFilter {
                                min_stars: stars.clamped(Decimal::whole(0), Decimal::whole(5)),
                            },
                        ),
                        product,
                    );
                }
                if self.config.prime_only {
                    lemma_all_accept_push(fc, AnyFilter::Prime(crate::filters::PrimeFilter), product);
                }
                if self.config.no_sponsored {
                    lemma_all_accept_push(
                        fd,
                        AnyFilter::Sponsored(crate::filters::SponsoredFilter),
                        product,
                    );
                }
                if self.config.keywords@.len() > 0 {
                    assert(ff == fe.push(ff.last()));
                    lemma_all_accept_push(fe, ff.last(), product);
                }
                if self.config.exclude_keywords@.len() > 0 {
                    assert(fg == ff.push(fg.last()));
                    lemma_all_accept_push(ff, fg.last(), product);
                }
            }
        }
        chain
    }

    /// The state of a search before its first page.
    pub fn start(&self) -> (r: SearchProgress)
        ensures
            r.products@.len() == 0,
            r.page == 1,
            !r.done,
    {
        SearchProgress { products: Vec::new(), page: 1, done: false }
    }

    /// The page to fetch next, or `None` when the search is over.
    pub fn next_page(&self, progress: &SearchProgress) -> (r: Option<u32>)
        ensures
            r == if progress.wants_page(self.config.max_results) {
                Some(progress.page)
            } else {
                None
            },
    {
        if !progress.done && progress.products.len() < self.config.max_results && progress.page
            <= MAX_PAGES {
            Some(progress.page)
        } else {
            None
        }
    }

    /// Takes in the results of the page that was asked for. A page without
    /// products ends the search. Otherwise the products that pass the
    /// filters are added, in page order; the search goes on with the next
    /// page where the page links to one, and ends where it does not.
    pub fn absorb(&self, progress: SearchProgress, results: SearchResults, filters: &FilterChain) -> (r:
        SearchProgress)
        requires
            progress.page <= MAX_PAGES,
        ensures
            results@.products.len() == 0 ==> r.done && r.page == progress.page && product_views(
                r.products@,
            ) == product_views(progress.products@),
            results@.products.len() > 0 ==> {
                &&& product_views(r.products@) == product_views(progress.products@)
                    + results@.products.filter(passing(filters.filters@))
                &&& r.done == (progress.done || !results.has_more)
                &&& r.page == if results.has_more {
                    (progress.page + 1) as u32
                } else {
                    progress.page
                }
            },
    {
        let mut next = progress;
        if results.is_empty() {
            next.done = true;
            return next;
        }
        let has_more = results.has_more;
        let filtered = filters.apply(results.products);
        let mut i: usize = 0;
        let ghost start = next.products@;
        assert(product_views(filtered@).take(0) == Seq::<ProductView>::empty());
        while i < filtered.len()
            invariant
                i <= filtered.len(),
                product_views(next.products@) == product_views(start) + product_views(
                    filtered@,
                ).take(i as int),
                next.page == progress.page,
                next.done == progress.done,
            decreases filtered.len() - i,
        {
            let ghost before = next.products@;
            let copy = filtered[i].duplicate();
            next.products.push(copy);
            proof {
                assert(product_views(next.products@) == product_views(before).push(copy@));
                assert(product_views(filtered@).take(i + 1) == product_views(filtered@).take(
                    i as int,
                ).push(filtered@[i as int]@));
            }
            i = i + 1;
        }
        assert(product_views(filtered@).take(filtered@.len() as int) == product_views(filtered@));
        if has_more {
            next.page = next.page + 1;
        } else {
            next.done = true;
        }
        next
    }

    /// The products that a finished search shows: the first of those
    /// collected, up to the number that the settings allow.
    pub fn finish(&self, progress: SearchProgress) -> (r: Vec<Product>)
        ensures
            product_views(r@) == product_views(progress.products@).take(
                if progress.products@.len() <= self.config.max_results {
                    progress.products@.len() as int
                } else {
                    self.config.max_results as int
                },
            ),
    {
        let mut products = progress.products;
        let ghost all = product_views(products@);
        if products.len() > self.config.max_results {
            products.truncate(self.config.max_results);
            assert(product_views(products@) == all.take(self.config.max_results as int));
        } else {
            assert(all.take(all.len() as int) == all);
        }
        products
    }

    /// The products in the output format of the settings; `None` where the
    /// format is JSON and there are products.
    pub fn render(&self, products: &[Product]) -> (r: Option<String>)
        ensures
            text_view(r) == (Formatter { format: self.config.format }).products_text(
                product_views(products@),
            ),
    {
        Formatter::new(self.config.format).format_products(products)
    }
}

impl ProductCommand {
    /// The decisions of a lookup with the given settings.
    pub fn new(config: Config) -> (r: ProductCommand)
        ensures
            r.config == config,
    {
        ProductCommand { config }
    }

    /// One product in the output format of the settings; `None` where the
    /// format is JSON.
    pub fn render(&self, product: &Product) -> (r: Option<String>)
        ensures
            text_view(r) == (Formatter { format: self.config.format }).product_text(product@),
    {
        Formatter::new(self.config.format).format_product(product)
    }

    /// Several products in the output format of the settings; `None`
    /// where the format is JSON and there are products.
    pub fn render_batch(&self, products: &[Product]) -> (r: Option<String>)
        ensures
            text_view(r) == (Formatter { format: self.config.format }).products_text(
                product_views(products@),
            ),
    {
        Formatter::new(self.config.format).format_products(products)
    }
}

/// No filter rejects anything.
pub proof fn lemma_all_accept_empty(filters: Seq<AnyFilter>, product: ProductView)
    requires
        filters.len() == 0,
    ensures
        all_accept(filters, product),
{
}

/// A chain with one more filter lets pass what the chain and the filter
/// both let pass.
pub proof fn lemma_all_accept_push(filters: Seq<AnyFilter>, filter: AnyFilter, product: ProductView)
    ensures
        all_accept(filters.push(filter), product) == (all_accept(filters, product)
            && filter.accepts(product)),
{
    let longer = filters.push(filter);
    if all_accept(filters, product) && filter.accepts(product) {
        assert forall|i: int| 0 <= i < longer.len() implies (#[trigger] longer[i]).accepts(
            product,
        ) by {
            if i < filters.len() {
                assert(longer[i] == filters[i]);
            }
        }
    }
    if all_accept(longer, product) {
        assert(longer[filters.len() as int].accepts(product));
        assert forall|i: int| 0 <= i < filters.len() implies (#[trigger] filters[i]).accepts(
            product,
        ) by {
            assert(longer[i] == filters[i]);
        }
    }
}

} // verus!
