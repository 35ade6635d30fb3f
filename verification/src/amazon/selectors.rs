//! The selector catalog: for every logical field of a page an ordered list of
//! alternative matching rules, the most reliable first.
//!
//! The marketplace renders the same field with different markup from one
//! layout experiment to the next, so one rule per field is brittle. A field is
//! looked up by trying its rules in order; the first rule that matches at least
//! one element decides, and its matches are the field's selection. A rule is a
//! CSS selector, optionally narrowed to the elements whose text holds a given
//! phrase.

use crate::amazon::dom::{
    attribute_of, compile_selector, compiled_selector, document_selection, element_attribute,
    element_selection, element_text, select_in_document, select_in_element, text_of,
};
use crate::text::{chars_of, contains_chars, contains_text, occurs_at};
use scraper::{ElementRef, Html, Selector};
use vstd::prelude::*;

verus! {

/// One matching rule: a compiled selector and the phrase that a matched
/// element's text must hold. An empty phrase asks nothing of the text. A rule
/// whose selector text is not valid holds no selector and matches nothing.
pub struct Rule {
    pub selector: Option<Selector>,
    pub needle: String,
}

/// The ordered alternatives for one field.
pub struct RuleList {
    pub rules: Vec<Rule>,
}

/// Where a field is looked up: in a whole document, or below one element.
#[derive(Clone, Copy)]
pub enum Scope<'a> {
    Page(&'a Html),
    Card(ElementRef<'a>),
}

/// The elements in a scope that a selector matches.
pub open spec fn scope_selection<'a>(scope: Scope<'a>, selector: Selector) -> Seq<ElementRef<'a>> {
    match scope {
        Scope::Page(document) => document_selection(document, selector),
        Scope::Card(element) => element_selection(element, selector),
    }
}

/// The test "the element's text holds the phrase".
pub open spec fn holds_phrase<'a>(needle: Seq<char>) -> spec_fn(ElementRef<'a>) -> bool {
    |element: ElementRef<'a>| contains_text(element_text(element), needle)
}

/// The elements in a scope that a rule matches: those its selector matches and
/// whose text holds its phrase.
pub open spec fn rule_selection<'a>(scope: Scope<'a>, rule: Rule) -> Seq<ElementRef<'a>> {
    match rule.selector {
        Some(selector) => scope_selection(scope, selector).filter(holds_phrase(rule.needle@)),
        None => Seq::empty(),
    }
}

/// The selection of a field: the matches of the first rule that matches
/// anything, and nothing where no rule does.
pub open spec fn first_selection<'a>(scope: Scope<'a>, rules: Seq<Rule>) -> Seq<ElementRef<'a>>
    decreases rules.len(),
{
    if rules.len() == 0 {
        Seq::empty()
    } else if rule_selection(scope, rules[0]).len() > 0 {
        rule_selection(scope, rules[0])
    } else {
        first_selection(scope, rules.drop_first())
    }
}

/// Whether a field is present in a scope.
pub open spec fn field_present<'a>(scope: Scope<'a>, rules: Seq<Rule>) -> bool {
    first_selection(scope, rules).len() > 0
}

/// The text of a field: that of the first element of its selection.
pub open spec fn field_text<'a>(scope: Scope<'a>, rules: Seq<Rule>) -> Option<Seq<char>> {
    if field_present(scope, rules) {
        Some(element_text(first_selection(scope, rules)[0]))
    } else {
        None
    }
}

/// An attribute of a field: that of the first element of its selection.
pub open spec fn field_attribute<'a>(scope: Scope<'a>, rules: Seq<Rule>, name: Seq<char>) -> Option<
    Seq<char>,
> {
    if field_present(scope, rules) {
        element_attribute(first_selection(scope, rules)[0], name)
    } else {
        None
    }
}

impl Rule {
    /// The rule is the compiled form of a selector text with a phrase.
    pub open spec fn follows(self, css: Seq<char>, needle: Seq<char>) -> bool {
        self.selector == compiled_selector(css) && self.needle@ == needle
    }

    /// Compiles a selector text into a rule with the given phrase.
    pub fn compile(css: &str, needle: &str) -> (rule: Rule)
        ensures
            rule.follows(css@, needle@),
    {
        Rule { selector: compile_selector(css), needle: needle.to_owned() }
    }

    /// Whether the selector text of the rule was valid.
    pub fn is_compiled(&self) -> (r: bool)
        ensures
            r == self.selector is Some,
    {
        self.selector.is_some()
    }
}

impl RuleList {
    /// The list holds the compiled forms of the selector texts, in order, each
    /// with the phrase at the same position.
    pub open spec fn follows(self, css: Seq<&'static str>, needles: Seq<&'static str>) -> bool {
        &&& self.rules@.len() == css.len()
        &&& css.len() == needles.len()
        &&& forall|i: int|
            0 <= i < css.len() ==> (#[trigger] self.rules@[i]).follows(css[i]@, needles[i]@)
    }

    /// The list holds the compiled forms of the selector texts, in order, none
    /// of them with a phrase.
    pub open spec fn follows_plain(self, css: Seq<&'static str>) -> bool {
        &&& self.rules@.len() == css.len()
        &&& forall|i: int|
            0 <= i < css.len() ==> (#[trigger] self.rules@[i]).follows(css[i]@, Seq::empty())
    }

    /// Compiles the alternatives of a field that asks for phrases.
    pub fn compile(css: &[&'static str], needles: &[&'static str]) -> (list: RuleList)
        requires
            css@.len() == needles@.len(),
        ensures
            list.follows(css@, needles@),
    {
        let mut rules: Vec<Rule> = Vec::new();
        let mut i: usize = 0;
        while i < css.len()
            invariant
                i <= css.len(),
                css@.len() == needles@.len(),
                rules@.len() == i,
                forall|k: int| 0 <= k < i ==> (#[trigger] rules@[k]).follows(css@[k]@, needles@[k]@),
            decreases css.len() - i,
        {
            rules.push(Rule::compile(css[i], needles[i]));
            i = i + 1;
        }
        RuleList { rules }
    }

    /// Compiles the alternatives of a field that asks for no phrase.
    pub fn plain(css: &[&'static str]) -> (list: RuleList)
        ensures
            list.follows_plain(css@),
    {
        let mut rules: Vec<Rule> = Vec::new();
        let mut i: usize = 0;
        while i < css.len()
            invariant
                i <= css.len(),
                rules@.len() == i,
                forall|k: int|
                    0 <= k < i ==> (#[trigger] rules@[k]).follows(css@[k]@, Seq::empty()),
            decreases css.len() - i,
        {
            rules.push(Rule { selector: compile_selector(css[i]), needle: String::new() });
            i = i + 1;
        }
        RuleList { rules }
    }

    /// Every selector text of the list was valid.
    pub open spec fn compiled(self) -> bool {
        forall|i: int| 0 <= i < self.rules@.len() ==> (#[trigger] self.rules@[i]).selector is Some
    }

    /// Whether every selector text of the list was valid.
    pub fn all_compiled(&self) -> (r: bool)
        ensures
            r == self.compiled(),
    {
        let mut i: usize = 0;
        while i < self.rules.len()
            invariant
                i <= self.rules.len(),
                forall|k: int| 0 <= k < i ==> (#[trigger] self.rules@[k]).selector is Some,
            decreases self.rules.len() - i,
        {
            if !self.rules[i].is_compiled() {
                return false;
            }
            i = i + 1;
        }
        true
    }

    /// The number of alternatives.
    pub fn len(&self) -> (r: usize)
        ensures
            r == self.rules@.len(),
    {
        self.rules.len()
    }
}

/// The elements in a scope that a rule matches.
pub fn select<'a>(scope: &Scope<'a>, rule: &Rule) -> (found: Vec<ElementRef<'a>>)
    ensures
        found@ == rule_selection(*scope, *rule),
{
    let selector = match &rule.selector {
        Some(selector) => selector,
        None => {
            return Vec::new();
        },
    };
    let all = match scope {
        Scope::Page(document) => select_in_document(document, selector),
        Scope::Card(element) => select_in_element(element, selector),
    };
    let needle = chars_of(rule.needle.as_str());
    let ghost keep = holds_phrase::<'a>(rule.needle@);
    let mut found: Vec<ElementRef<'a>> = Vec::new();
    let mut i: usize = 0;
    assert(all@.take(0).filter(keep) == Seq::<ElementRef<'a>>::empty()) by {
        reveal(Seq::filter);
    }
    while i < all.len()
        invariant
            i <= all.len(),
            needle@ == rule.needle@,
            keep == holds_phrase::<'a>(rule.needle@),
            found@ == all@.take(i as int).filter(keep),
        decreases all.len() - i,
    {
        proof {
            assert(all@.take(i + 1) == all@.take(i as int).push(all@[i as int]));
            all@.take(i as int).lemma_filter_push(all@[i as int], keep);
        }
        let element = all[i];
        let kept = if needle.len() == 0 {
            assert(element_text(element).subrange(0, 0) =~= needle@);
            assert(occurs_at(element_text(element), needle@, 0));
            true
        } else {
            let text = text_of(&element);
            let chars = chars_of(text.as_str());
            contains_chars(chars.as_slice(), needle.as_slice())
        };
        if kept {
            found.push(element);
        }
        i = i + 1;
    }
    assert(all@.take(all@.len() as int) == all@);
    found
}

/// The selection of a field: the matches of the first rule that matches
/// anything.
pub fn first_match<'a>(scope: &Scope<'a>, rules: &RuleList) -> (found: Vec<ElementRef<'a>>)
    ensures
        found@ == first_selection(*scope, rules.rules@),
{
    let mut i: usize = 0;
    assert(rules.rules@.skip(0) == rules.rules@);
    while i < rules.rules.len()
        invariant
            i <= rules.rules.len(),
            first_selection(*scope, rules.rules@) == first_selection(
                *scope,
                rules.rules@.skip(i as int),
            ),
        decreases rules.rules.len() - i,
    {
        let found = select(scope, &rules.rules[i]);
        proof {
            let rest = rules.rules@.skip(i as int);
            assert(rest[0] == rules.rules@[i as int]);
            assert(rest.drop_first() == rules.rules@.skip(i + 1));
        }
        if found.len() > 0 {
            return found;
        }
        i = i + 1;
    }
    Vec::new()
}

/// Whether a field is present in a scope.
pub fn has_match<'a>(scope: &Scope<'a>, rules: &RuleList) -> (r: bool)
    ensures
        r == field_present(*scope, rules.rules@),
{
    first_match(scope, rules).len() > 0
}

/// The text of a field: that of the first element of its selection.
pub fn first_text<'a>(scope: &Scope<'a>, rules: &RuleList) -> (r: Option<String>)
    ensures
        crate::amazon::models::text_view(r) == field_text(*scope, rules.rules@),
{
    let found = first_match(scope, rules);
    if found.len() > 0 {
        Some(text_of(&found[0]))
    } else {
        None
    }
}

/// An attribute of a field: that of the first element of its selection.
pub fn first_attribute<'a>(scope: &Scope<'a>, rules: &RuleList, name: &str) -> (r: Option<String>)
    ensures
        crate::amazon::models::text_view(r) == field_attribute(*scope, rules.rules@, name@),
{
    let found = first_match(scope, rules);
    if found.len() > 0 {
        attribute_of(&found[0], name)
    } else {
        None
    }
}

/// The attribute of a listing's container that holds its catalog code.
pub const ASIN_ATTR: &'static str = "data-asin";

/// The container of one listing on a results page.
pub const SEARCH_RESULT: [&'static str; 1] = [
    "[data-component-type='s-search-result']",
];

/// The title text of a listing.
pub const SEARCH_TITLE: [&'static str; 4] = [
    "h2 a span",
    "h2 span.a-text-normal",
    ".a-size-medium.a-text-normal",
    ".a-size-base-plus.a-text-normal",
];

/// The link that carries a listing's address.
pub const SEARCH_TITLE_LINK: [&'static str; 3] = [
    "h2 a.a-link-normal",
    "h2 a.s-link-style",
    ".a-link-normal.s-underline-text",
];

/// The picture of a listing.
pub const SEARCH_IMAGE: [&'static str; 2] = [
    "img.s-image",
    ".s-product-image-container img",
];

/// The current price of a listing, as screen readers hear it.
pub const SEARCH_PRICE_CURRENT: [&'static str; 2] = [
    ".a-price:not([data-a-strike]) .a-offscreen",
    ".a-price .a-offscreen",
];

/// The struck-through price of a listing.
pub const SEARCH_PRICE_ORIGINAL: [&'static str; 3] = [
    ".a-price[data-a-strike] .a-offscreen",
    ".a-text-price .a-offscreen",
    "span[data-a-strike='true'] .a-offscreen",
];

/// The container of a price that spans a range.
pub const SEARCH_PRICE_RANGE: [&'static str; 2] = [
    ".a-price-range",
    ".a-price + .a-price",
];

/// The star value of a listing.
pub const SEARCH_RATING_STARS: [&'static str; 3] = [
    "i.a-icon-star-small span.a-icon-alt",
    "i.a-icon-star span.a-icon-alt",
    "span.a-icon-alt",
];

/// The review count of a listing.
pub const SEARCH_RATING_COUNT: [&'static str; 3] = [
    "span.a-size-base.s-underline-text",
    "a[href*='customerReviews'] span",
    ".a-size-base.puis-light-weight-text",
];

/// The badge of listings with fast shipping.
pub const SEARCH_PRIME_BADGE: [&'static str; 3] = [
    "i.a-icon-prime",
    ".a-icon-prime",
    "[data-component-type='s-prime-badge']",
];

/// The label of paid placements.
pub const SEARCH_SPONSORED: [&'static str; 4] = [
    ".puis-label-popover-default",
    ".s-label-popover-default",
    "span",
    ".a-color-secondary",
];

/// The phrases that go with the rules of `SEARCH_SPONSORED`.
pub const SEARCH_SPONSORED_PHRASES: [&'static str; 4] = [
    "",
    "",
    "Sponsored",
    "Sponsored",
];

/// The editorial badge.
pub const SEARCH_AMAZON_CHOICE: [&'static str; 2] = [
    ".a-badge-text",
    "[data-component-type='s-merchandised-badge']",
];

/// The phrases that go with the rules of `SEARCH_AMAZON_CHOICE`.
pub const SEARCH_AMAZON_CHOICE_PHRASES: [&'static str; 2] = [
    "Choice",
    "",
];

/// The brand line of a listing.
pub const SEARCH_BRAND: [&'static str; 3] = [
    ".a-size-base-plus.a-color-base",
    ".a-row.a-size-base.a-color-secondary span",
    "h5.s-line-clamp-1 span",
];

/// The line that tells how many results a search has.
pub const SEARCH_TOTAL_RESULTS: [&'static str; 2] = [
    ".a-section.a-spacing-small span:first-child",
    ".sg-col-inner .a-section span",
];

/// The link to the next page of results.
pub const SEARCH_NEXT_PAGE: [&'static str; 2] = [
    "a.s-pagination-next",
    ".s-pagination-item.s-pagination-next",
];

/// The title on a detail page.
pub const PRODUCT_TITLE: [&'static str; 3] = [
    "#productTitle",
    "#title span",
    ".product-title-word-break",
];

/// The current price on a detail page.
pub const PRODUCT_PRICE: [&'static str; 4] = [
    "#corePrice_feature_div .a-price .a-offscreen",
    "#priceblock_ourprice",
    "#priceblock_dealprice",
    ".a-price .a-offscreen",
];

/// The price before a discount on a detail page.
pub const PRODUCT_PRICE_ORIGINAL: [&'static str; 3] = [
    "#corePrice_feature_div .a-text-price .a-offscreen",
    "#priceblock_saleprice",
    ".a-text-price .a-offscreen",
];

/// The main picture on a detail page.
pub const PRODUCT_IMAGE: [&'static str; 3] = [
    "#landingImage",
    "#imgTagWrapperId img",
    "#main-image",
];

/// The star value on a detail page.
pub const PRODUCT_RATING: [&'static str; 2] = [
    "#acrPopover span.a-icon-alt",
    ".a-icon-star span.a-icon-alt",
];

/// The review count on a detail page.
pub const PRODUCT_REVIEW_COUNT: [&'static str; 2] = [
    "#acrCustomerReviewText",
    "#acrCustomerReviewLink span",
];

/// The brand line on a detail page.
pub const PRODUCT_BRAND: [&'static str; 3] = [
    "#bylineInfo",
    ".po-brand .po-break-word",
    "a#bylineInfo",
];

/// The availability text on a detail page.
pub const PRODUCT_AVAILABILITY: [&'static str; 3] = [
    "#availability span",
    "#outOfStock span",
    ".a-color-success",
];

/// The fast-shipping badge on a detail page.
pub const PRODUCT_PRIME: [&'static str; 3] = [
    "#prime-badge",
    ".a-icon-prime",
    "i.a-icon-prime",
];

/// The editorial badge on a detail page.
pub const PRODUCT_AMAZON_CHOICE: [&'static str; 2] = [
    "#acBadge_feature_div .a-badge-text",
    ".ac-badge-wrapper",
];

/// The marks of an automated-traffic challenge.
pub const ERROR_CAPTCHA: [&'static str; 3] = [
    "form[action*='validateCaptcha']",
    "img[src*='captcha']",
    ".a-box-inner h4",
];

/// The phrases that go with the rules of `ERROR_CAPTCHA`.
pub const ERROR_CAPTCHA_PHRASES: [&'static str; 3] = [
    "",
    "",
    "robot",
];

/// The marks of the page served while the service is degraded.
pub const ERROR_DOG_PAGE: [&'static str; 2] = [
    "img[alt*='dog']",
    ".a-box-inner a[href='/ref=cs_503_link']",
];

/// The compiled rules of every field.
pub struct Catalog {
    pub search_result: RuleList,
    pub search_title: RuleList,
    pub search_title_link: RuleList,
    pub search_image: RuleList,
    pub search_price_current: RuleList,
    pub search_price_original: RuleList,
    pub search_price_range: RuleList,
    pub search_rating_stars: RuleList,
    pub search_rating_count: RuleList,
    pub search_prime_badge: RuleList,
    pub search_sponsored: RuleList,
    pub search_amazon_choice: RuleList,
    pub search_brand: RuleList,
    pub search_total_results: RuleList,
    pub search_next_page: RuleList,
    pub product_title: RuleList,
    pub product_price: RuleList,
    pub product_price_original: RuleList,
    pub product_image: RuleList,
    pub product_rating: RuleList,
    pub product_review_count: RuleList,
    pub product_brand: RuleList,
    pub product_availability: RuleList,
    pub product_prime: RuleList,
    pub product_amazon_choice: RuleList,
    pub error_captcha: RuleList,
    pub error_dog_page: RuleList,
}

impl Catalog {
    /// Every field holds the compiled rules of its table above.
    pub open spec fn wf(self) -> bool {
        &&& self.search_result.follows_plain(SEARCH_RESULT@)
        &&& self.search_title.follows_plain(SEARCH_TITLE@)
        &&& self.search_title_link.follows_plain(SEARCH_TITLE_LINK@)
        &&& self.search_image.follows_plain(SEARCH_IMAGE@)
        &&& self.search_price_current.follows_plain(SEARCH_PRICE_CURRENT@)
        &&& self.search_price_original.follows_plain(SEARCH_PRICE_ORIGINAL@)
        &&& self.search_price_range.follows_plain(SEARCH_PRICE_RANGE@)
        &&& self.search_rating_stars.follows_plain(SEARCH_RATING_STARS@)
        &&& self.search_rating_count.follows_plain(SEARCH_RATING_COUNT@)
        &&& self.search_prime_badge.follows_plain(SEARCH_PRIME_BADGE@)
        &&& self.search_sponsored.follows(SEARCH_SPONSORED@, SEARCH_SPONSORED_PHRASES@)
        &&& self.search_amazon_choice.follows(SEARCH_AMAZON_CHOICE@, SEARCH_AMAZON_CHOICE_PHRASES@)
        &&& self.search_brand.follows_plain(SEARCH_BRAND@)
        &&& self.search_total_results.follows_plain(SEARCH_TOTAL_RESULTS@)
        &&& self.search_next_page.follows_plain(SEARCH_NEXT_PAGE@)
        &&& self.product_title.follows_plain(PRODUCT_TITLE@)
        &&& self.product_price.follows_plain(PRODUCT_PRICE@)
        &&& self.product_price_original.follows_plain(PRODUCT_PRICE_ORIGINAL@)
        &&& self.product_image.follows_plain(PRODUCT_IMAGE@)
        &&& self.product_rating.follows_plain(PRODUCT_RATING@)
        &&& self.product_review_count.follows_plain(PRODUCT_REVIEW_COUNT@)
        &&& self.product_brand.follows_plain(PRODUCT_BRAND@)
        &&& self.product_availability.follows_plain(PRODUCT_AVAILABILITY@)
        &&& self.product_prime.follows_plain(PRODUCT_PRIME@)
        &&& self.product_amazon_choice.follows_plain(PRODUCT_AMAZON_CHOICE@)
        &&& self.error_captcha.follows(ERROR_CAPTCHA@, ERROR_CAPTCHA_PHRASES@)
        &&& self.error_dog_page.follows_plain(ERROR_DOG_PAGE@)
    }

    /// Compiles the tables above.
    pub fn standard() -> (catalog: Catalog)
        ensures
            catalog.wf(),
    {
        Catalog {
            search_result: RuleList::plain(&SEARCH_RESULT),
            search_title: RuleList::plain(&SEARCH_TITLE),
            search_title_link: RuleList::plain(&SEARCH_TITLE_LINK),
            search_image: RuleList::plain(&SEARCH_IMAGE),
            search_price_current: RuleList::plain(&SEARCH_PRICE_CURRENT),
            search_price_original: RuleList::plain(&SEARCH_PRICE_ORIGINAL),
            search_price_range: RuleList::plain(&SEARCH_PRICE_RANGE),
            search_rating_stars: RuleList::plain(&SEARCH_RATING_STARS),
            search_rating_count: RuleList::plain(&SEARCH_RATING_COUNT),
            search_prime_badge: RuleList::plain(&SEARCH_PRIME_BADGE),
            search_sponsored: RuleList::compile(&SEARCH_SPONSORED, &SEARCH_SPONSORED_PHRASES),
            search_amazon_choice: RuleList::compile(&SEARCH_AMAZON_CHOICE, &SEARCH_AMAZON_CHOICE_PHRASES),
            search_brand: RuleList::plain(&SEARCH_BRAND),
            search_total_results: RuleList::plain(&SEARCH_TOTAL_RESULTS),
            search_next_page: RuleList::plain(&SEARCH_NEXT_PAGE),
            product_title: RuleList::plain(&PRODUCT_TITLE),
            product_price: RuleList::plain(&PRODUCT_PRICE),
            product_price_original: RuleList::plain(&PRODUCT_PRICE_ORIGINAL),
            product_image: RuleList::plain(&PRODUCT_IMAGE),
            product_rating: RuleList::plain(&PRODUCT_RATING),
            product_review_count: RuleList::plain(&PRODUCT_REVIEW_COUNT),
            product_brand: RuleList::plain(&PRODUCT_BRAND),
            product_availability: RuleList::plain(&PRODUCT_AVAILABILITY),
            product_prime: RuleList::plain(&PRODUCT_PRIME),
            product_amazon_choice: RuleList::plain(&PRODUCT_AMAZON_CHOICE),
            error_captcha: RuleList::compile(&ERROR_CAPTCHA, &ERROR_CAPTCHA_PHRASES),
            error_dog_page: RuleList::plain(&ERROR_DOG_PAGE),
        }
    }

    /// Every selector text of the tables was valid.
    pub open spec fn compiled(self) -> bool {
        &&& self.search_result.compiled()
        &&& self.search_title.compiled()
        &&& self.search_title_link.compiled()
        &&& self.search_image.compiled()
        &&& self.search_price_current.compiled()
        &&& self.search_price_original.compiled()
        &&& self.search_price_range.compiled()
        &&& self.search_rating_stars.compiled()
        &&& self.search_rating_count.compiled()
        &&& self.search_prime_badge.compiled()
        &&& self.search_sponsored.compiled()
        &&& self.search_amazon_choice.compiled()
        &&& self.search_brand.compiled()
        &&& self.search_total_results.compiled()
        &&& self.search_next_page.compiled()
        &&& self.product_title.compiled()
        &&& self.product_price.compiled()
        &&& self.product_price_original.compiled()
        &&& self.product_image.compiled()
        &&& self.product_rating.compiled()
        &&& self.product_review_count.compiled()
        &&& self.product_brand.compiled()
        &&& self.product_availability.compiled()
        &&& self.product_prime.compiled()
        &&& self.product_amazon_choice.compiled()
        &&& self.error_captcha.compiled()
        &&& self.error_dog_page.compiled()
    }

    /// Whether every selector text of the tables was valid.
    pub fn all_compiled(&self) -> (r: bool)
        ensures
            r == self.compiled(),
    {
        self.search_result.all_compiled()
            && self.search_title.all_compiled()
            && self.search_title_link.all_compiled()
            && self.search_image.all_compiled()
            && self.search_price_current.all_compiled()
            && self.search_price_original.all_compiled()
            && self.search_price_range.all_compiled()
            && self.search_rating_stars.all_compiled()
            && self.search_rating_count.all_compiled()
            && self.search_prime_badge.all_compiled()
            && self.search_sponsored.all_compiled()
            && self.search_amazon_choice.all_compiled()
            && self.search_brand.all_compiled()
            && self.search_total_results.all_compiled()
            && self.search_next_page.all_compiled()
            && self.product_title.all_compiled()
            && self.product_price.all_compiled()
            && self.product_price_original.all_compiled()
            && self.product_image.all_compiled()
            && self.product_rating.all_compiled()
            && self.product_review_count.all_compiled()
            && self.product_brand.all_compiled()
            && self.product_availability.all_compiled()
            && self.product_prime.all_compiled()
            && self.product_amazon_choice.all_compiled()
            && self.error_captcha.all_compiled()
            && self.error_dog_page.all_compiled()
    }
}

} // verus!
