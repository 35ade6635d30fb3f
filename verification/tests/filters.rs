use amz_crawler::amazon::models::{Price, Product, Rating};
use amz_crawler::decimal::Decimal;
use amz_crawler::filters::{
    AnyFilter, Filter, FilterChain, FilterChainBuilder, KeywordFilter, PriceFilter, PrimeFilter,
    RatingFilter, SponsoredFilter,
};

fn d(text: &str) -> Decimal {
    let chars: Vec<char> = text.chars().collect();
    Decimal::parse_signed(&chars).unwrap()
}

fn make_product(price: &str, rating: &str, is_prime: bool, is_sponsored: bool) -> Product {
    Product {
        asin: "TEST".to_string(),
        title: "Test Product".to_string(),
        url: "https://amazon.com/dp/TEST".to_string(),
        image_url: None,
        price: Some(Price::simple(d(price), "USD")),
        rating: Some(Rating::new(d(rating), 100)),
        is_sponsored,
        is_prime,
        is_amazon_choice: false,
        in_stock: true,
        brand: None,
    }
}

fn make_product_with_title(title: &str, is_prime: bool, is_sponsored: bool) -> Product {
    let mut product = make_product("25.0", "4.0", is_prime, is_sponsored);
    product.title = title.to_string();
    product
}

fn titled(title: &str) -> Product {
    let mut product = bare();
    product.title = title.to_string();
    product
}

fn bare() -> Product {
    Product {
        asin: "TEST".to_string(),
        title: "Test".to_string(),
        url: "https://amazon.com/dp/TEST".to_string(),
        image_url: None,
        price: None,
        rating: None,
        is_sponsored: false,
        is_prime: false,
        is_amazon_choice: false,
        in_stock: true,
        brand: None,
    }
}

fn priced(price: Option<&str>) -> Product {
    let mut product = bare();
    product.price = price.map(|p| Price::simple(d(p), "USD"));
    product
}

fn hidden_price_product() -> Product {
    let mut product = bare();
    product.price = Some(Price::hidden("USD"));
    product
}

fn rated(rating: Option<&str>) -> Product {
    let mut product = bare();
    product.rating = rating.map(|r| Rating::new(d(r), 100));
    product
}

fn prime(is_prime: bool) -> Product {
    let mut product = bare();
    product.is_prime = is_prime;
    product
}

fn words(list: &[&str]) -> Vec<String> {
    list.iter().map(|w| w.to_string()).collect()
}

// Keyword filter

#[test]
fn test_required_keywords() {
    let filter = KeywordFilter::required(words(&["wireless", "mouse"]));

    assert!(filter.matches(&titled("Wireless Gaming Mouse")));
    assert!(filter.matches(&titled("WIRELESS MOUSE pad"))); // Case insensitive
    assert!(!filter.matches(&titled("Wireless Keyboard")));
    assert!(!filter.matches(&titled("Gaming Mouse"))); // Missing "wireless"
}

#[test]
fn test_excluded_keywords() {
    let filter = KeywordFilter::excluded(words(&["refurbished", "used"]));

    assert!(filter.matches(&titled("New Wireless Mouse")));
    assert!(!filter.matches(&titled("Refurbished Laptop")));
    assert!(!filter.matches(&titled("Used Gaming Chair")));
}

#[test]
fn test_both_required_and_excluded() {
    let filter = KeywordFilter::new(words(&["laptop"]), words(&["refurbished"]));

    assert!(filter.matches(&titled("Gaming Laptop 15 inch")));
    assert!(!filter.matches(&titled("Desktop Computer")));
    assert!(!filter.matches(&titled("Refurbished Laptop")));
}

#[test]
fn test_empty_keywords() {
    let filter = KeywordFilter::new(Vec::new(), Vec::new());
    assert!(filter.matches(&titled("Anything at all")));
}

#[test]
fn test_case_insensitivity() {
    let filter = KeywordFilter::required(words(&["GAMING"]));

    assert!(filter.matches(&titled("gaming mouse")));
    assert!(filter.matches(&titled("Gaming Mouse")));
    assert!(filter.matches(&titled("GAMING MOUSE")));
}

#[test]
fn test_partial_match() {
    let filter = KeywordFilter::required(words(&["wire"]));

    assert!(filter.matches(&titled("Wireless Mouse"))); // "wire" is in "wireless"
    assert!(filter.matches(&titled("Wired Keyboard")));
}

#[test]
fn test_description_required_only() {
    let filter = KeywordFilter::required(words(&["gaming", "mouse"]));
    let desc = filter.description();
    assert!(desc.contains("Must contain:"));
    assert!(desc.contains("gaming"));
    assert!(desc.contains("mouse"));
}

#[test]
fn test_description_excluded_only() {
    let filter = KeywordFilter::excluded(words(&["refurbished"]));
    let desc = filter.description();
    assert!(desc.contains("Must not contain:"));
    assert!(desc.contains("refurbished"));
}

#[test]
fn test_description_both() {
    let filter = KeywordFilter::new(words(&["laptop"]), words(&["refurbished"]));
    let desc = filter.description();
    assert!(desc.contains("Must contain:"));
    assert!(desc.contains("laptop"));
    assert!(desc.contains("Must not contain:"));
    assert!(desc.contains("refurbished"));
}

#[test]
fn test_description_empty() {
    let filter = KeywordFilter::new(Vec::new(), Vec::new());
    assert_eq!(filter.description(), "Keywords: any");
}

#[test]
fn test_keywords_stored_lowercase() {
    let filter = KeywordFilter::new(words(&["UPPERCASE"]), words(&["EXCLUDED"]));

    // The keywords should match case-insensitively
    assert!(filter.matches(&titled("uppercase product")));
    assert!(!filter.matches(&titled("excluded product")));
}

#[test]
fn keyword_description_exact() {
    let filter = KeywordFilter::new(words(&["Gaming", "RGB"]), words(&["Used"]));
    assert_eq!(filter.description(), "Must contain: gaming, rgb; Must not contain: used");
    assert_eq!(filter.required, words(&["gaming", "rgb"]));
    assert!(filter.matches_title("rgb gaming mouse"));
    assert!(!filter.matches_title("RGB gaming mouse"));
}

// Filter chain

#[test]
fn test_filter_chain_new() {
    let chain = FilterChain::new();
    assert!(chain.is_empty());
    assert_eq!(chain.len(), 0);
}

#[test]
fn test_filter_chain_default() {
    let chain = FilterChain::default();
    assert!(chain.is_empty());
}

#[test]
fn test_filter_chain() {
    let mut chain = FilterChain::new();
    chain.add(AnyFilter::Price(PriceFilter::new(Some(d("10.0")), Some(d("50.0")))));
    chain.add(AnyFilter::Rating(RatingFilter::new(d("4.0"))));

    assert_eq!(chain.len(), 2);
    assert!(!chain.is_empty());

    // Should pass: price 25, rating 4.5
    let product = make_product("25.0", "4.5", true, false);
    assert!(chain.matches(&product));

    // Should fail: price too low
    let product = make_product("5.0", "4.5", true, false);
    assert!(!chain.matches(&product));

    // Should fail: rating too low
    let product = make_product("25.0", "3.5", true, false);
    assert!(!chain.matches(&product));
}

#[test]
fn test_filter_chain_empty_matches_all() {
    let chain = FilterChain::new();
    let product = make_product("25.0", "4.5", true, true);
    assert!(chain.matches(&product));
}

#[test]
fn test_filter_chain_apply() {
    let mut chain = FilterChain::new();
    chain.add(AnyFilter::Price(PriceFilter::new(Some(d("20.0")), None)));

    let products = vec![
        make_product("10.0", "4.0", true, false),
        make_product("30.0", "4.0", true, false),
        make_product("50.0", "4.0", true, false),
    ];

    let filtered = chain.apply(products);
    assert_eq!(filtered.len(), 2);
}

#[test]
fn test_filter_chain_descriptions() {
    let mut chain = FilterChain::new();
    chain.add(AnyFilter::Price(PriceFilter::range(d("10.0"), d("50.0"))));
    chain.add(AnyFilter::Rating(RatingFilter::new(d("4.0"))));
    chain.add(AnyFilter::Prime(PrimeFilter::new()));

    let descriptions = chain.descriptions();
    assert_eq!(descriptions.len(), 3);
    assert!(descriptions[0].contains("Price"));
    assert!(descriptions[1].contains("Rating"));
    assert!(descriptions[2].contains("Prime"));
}

#[test]
fn test_filter_chain_builder() {
    let chain = FilterChainBuilder::new()
        .price_range(Some(d("10.0")), Some(d("100.0")))
        .min_rating(Some(d("4.0")))
        .prime_only(true)
        .no_sponsored(true)
        .build();

    assert_eq!(chain.len(), 4);
}

#[test]
fn test_filter_chain_builder_default() {
    let builder = FilterChainBuilder::default();
    let chain = builder.build();
    assert!(chain.is_empty());
}

#[test]
fn test_filter_chain_builder_no_filters_when_disabled() {
    let chain = FilterChainBuilder::new()
        .price_range(None, None)
        .min_rating(None)
        .prime_only(false)
        .no_sponsored(false)
        .keywords(Vec::new())
        .exclude_keywords(Vec::new())
        .build();

    assert!(chain.is_empty());
}

#[test]
fn test_filter_chain_builder_keywords() {
    let chain = FilterChainBuilder::new()
        .keywords(vec!["gaming".to_string(), "mouse".to_string()])
        .exclude_keywords(vec!["refurbished".to_string()])
        .build();

    assert_eq!(chain.len(), 2);

    let product = make_product_with_title("Gaming Wireless Mouse", true, false);
    assert!(chain.matches(&product));

    let product = make_product_with_title("Refurbished Gaming Mouse", true, false);
    assert!(!chain.matches(&product));

    let product = make_product_with_title("Gaming Keyboard", true, false);
    assert!(!chain.matches(&product)); // Missing "mouse"
}

#[test]
fn test_filter_chain_builder_price_min_only() {
    let chain = FilterChainBuilder::new().price_range(Some(d("20.0")), None).build();

    assert_eq!(chain.len(), 1);

    let product = make_product("25.0", "4.0", true, false);
    assert!(chain.matches(&product));

    let product = make_product("10.0", "4.0", true, false);
    assert!(!chain.matches(&product));
}

#[test]
fn test_filter_chain_builder_price_max_only() {
    let chain = FilterChainBuilder::new().price_range(None, Some(d("50.0"))).build();

    assert_eq!(chain.len(), 1);

    let product = make_product("25.0", "4.0", true, false);
    assert!(chain.matches(&product));

    let product = make_product("100.0", "4.0", true, false);
    assert!(!chain.matches(&product));
}

#[test]
fn test_sponsored_filter() {
    let filter = SponsoredFilter::new();

    let product = make_product("25.0", "4.0", true, false);
    assert!(filter.matches(&product));

    let product = make_product("25.0", "4.0", true, true);
    assert!(!filter.matches(&product));
}

#[test]
fn test_sponsored_filter_default() {
    let filter: SponsoredFilter = Default::default();
    let product = make_product("25.0", "4.0", true, false);
    assert!(filter.matches(&product));
}

#[test]
fn test_sponsored_filter_description() {
    let filter = SponsoredFilter::new();
    assert_eq!(filter.description(), "Exclude sponsored");
}

#[test]
fn test_all_filters_combined() {
    let chain = FilterChainBuilder::new()
        .price_range(Some(d("20.0")), Some(d("100.0")))
        .min_rating(Some(d("4.0")))
        .prime_only(true)
        .no_sponsored(true)
        .keywords(vec!["gaming".to_string()])
        .exclude_keywords(vec!["refurbished".to_string()])
        .build();

    assert_eq!(chain.len(), 6);

    // Product that passes all filters
    let mut product = make_product("50.0", "4.5", true, false);
    product.title = "Gaming Laptop".to_string();
    assert!(chain.matches(&product));

    // Fails price filter
    product = make_product("10.0", "4.5", true, false);
    product.title = "Gaming Laptop".to_string();
    assert!(!chain.matches(&product));

    // Fails rating filter
    product = make_product("50.0", "3.5", true, false);
    product.title = "Gaming Laptop".to_string();
    assert!(!chain.matches(&product));

    // Fails prime filter
    product = make_product("50.0", "4.5", false, false);
    product.title = "Gaming Laptop".to_string();
    assert!(!chain.matches(&product));

    // Fails sponsored filter
    product = make_product("50.0", "4.5", true, true);
    product.title = "Gaming Laptop".to_string();
    assert!(!chain.matches(&product));

    // Fails keyword filter
    product = make_product("50.0", "4.5", true, false);
    product.title = "Business Laptop".to_string();
    assert!(!chain.matches(&product));

    // Fails exclude filter
    product = make_product("50.0", "4.5", true, false);
    product.title = "Refurbished Gaming Laptop".to_string();
    assert!(!chain.matches(&product));
}

#[test]
fn apply_keeps_the_order_of_the_input() {
    let mut chain = FilterChain::new();
    chain.add(AnyFilter::Prime(PrimeFilter::new()));
    let mut products = Vec::new();
    for (i, is_prime) in [true, false, true, true, false].iter().enumerate() {
        let mut product = prime(*is_prime);
        product.asin = format!("ITEM{}", i);
        products.push(product);
    }
    let kept: Vec<String> = chain.apply(products).into_iter().map(|p| p.asin).collect();
    assert_eq!(kept, vec!["ITEM0", "ITEM2", "ITEM3"]);
}

// Price filter

#[test]
fn test_price_range() {
    let filter = PriceFilter::range(d("10.0"), d("50.0"));

    assert!(!filter.matches(&priced(Some("5.0"))));
    assert!(filter.matches(&priced(Some("10.0"))));
    assert!(filter.matches(&priced(Some("30.0"))));
    assert!(filter.matches(&priced(Some("50.0"))));
    assert!(!filter.matches(&priced(Some("55.0"))));
}

#[test]
fn test_no_price_passes() {
    let filter = PriceFilter::range(d("10.0"), d("50.0"));
    assert!(filter.matches(&priced(None)));
}

#[test]
fn test_hidden_price_passes() {
    let filter = PriceFilter::range(d("10.0"), d("50.0"));
    assert!(filter.matches(&hidden_price_product()));
}

#[test]
fn test_min_only() {
    let filter = PriceFilter::min(d("20.0"));

    assert!(!filter.matches(&priced(Some("10.0"))));
    assert!(filter.matches(&priced(Some("20.0"))));
    assert!(filter.matches(&priced(Some("100.0"))));
}

#[test]
fn test_max_only() {
    let filter = PriceFilter::max(d("50.0"));

    assert!(filter.matches(&priced(Some("10.0"))));
    assert!(filter.matches(&priced(Some("50.0"))));
    assert!(!filter.matches(&priced(Some("100.0"))));
}

#[test]
fn test_new_with_options() {
    let filter = PriceFilter::new(Some(d("10.0")), Some(d("50.0")));
    assert!(filter.matches(&priced(Some("30.0"))));
    assert!(!filter.matches(&priced(Some("5.0"))));
    assert!(!filter.matches(&priced(Some("55.0"))));
}

#[test]
fn test_new_no_bounds() {
    let filter = PriceFilter::new(None, None);
    assert!(filter.matches(&priced(Some("0.01"))));
    assert!(filter.matches(&priced(Some("1000000.0"))));
    assert!(filter.matches(&priced(None)));
}

#[test]
fn test_description_range() {
    let filter = PriceFilter::range(d("10.0"), d("50.0"));
    assert_eq!(filter.description(), "Price: $10.00 - $50.00");
}

#[test]
fn test_description_min_only() {
    let filter = PriceFilter::min(d("20.0"));
    assert_eq!(filter.description(), "Price: >= $20.00");
}

#[test]
fn test_description_max_only() {
    let filter = PriceFilter::max(d("50.0"));
    assert_eq!(filter.description(), "Price: <= $50.00");
}

#[test]
fn test_description_any() {
    let filter = PriceFilter::new(None, None);
    assert_eq!(filter.description(), "Price: any");
}

#[test]
fn test_boundary_values() {
    let filter = PriceFilter::range(d("10.0"), d("50.0"));

    // Exactly at boundaries
    assert!(filter.matches(&priced(Some("10.0"))));
    assert!(filter.matches(&priced(Some("50.0"))));

    // Just outside boundaries
    assert!(!filter.matches(&priced(Some("9.99"))));
    assert!(!filter.matches(&priced(Some("50.01"))));
}

// Prime filter

#[test]
fn test_prime_filter() {
    let filter = PrimeFilter::new();

    assert!(filter.matches(&prime(true)));
    assert!(!filter.matches(&prime(false)));
}

#[test]
fn test_prime_filter_default() {
    let filter: PrimeFilter = Default::default();
    assert!(filter.matches(&prime(true)));
    assert!(!filter.matches(&prime(false)));
}

#[test]
fn test_prime_filter_description() {
    let filter = PrimeFilter::new();
    assert_eq!(filter.description(), "Prime only");
}

// Rating filter

#[test]
fn test_rating_filter() {
    let filter = RatingFilter::new(d("4.0"));

    assert!(!filter.matches(&rated(Some("3.5"))));
    assert!(filter.matches(&rated(Some("4.0"))));
    assert!(filter.matches(&rated(Some("4.5"))));
    assert!(filter.matches(&rated(Some("5.0"))));
}

#[test]
fn test_no_rating_passes() {
    let filter = RatingFilter::new(d("4.0"));
    assert!(filter.matches(&rated(None)));
}

#[test]
fn test_clamping() {
    let filter = RatingFilter::new(d("6.0"));
    assert!(filter.min_stars().is_same_value(&d("5.0")));

    let filter = RatingFilter::new(d("-1.0"));
    assert!(filter.min_stars().is_same_value(&d("0.0")));
}

#[test]
fn test_description() {
    let filter = RatingFilter::new(d("4.0"));
    assert_eq!(filter.description(), "Rating: >= 4.0 stars");

    let filter = RatingFilter::new(d("3.5"));
    assert_eq!(filter.description(), "Rating: >= 3.5 stars");
}

#[test]
fn test_exact_boundary() {
    let filter = RatingFilter::new(d("4.0"));
    assert!(filter.matches(&rated(Some("4.0"))));
    assert!(!filter.matches(&rated(Some("3.9"))));
}

#[test]
fn test_zero_rating() {
    let filter = RatingFilter::new(d("0.0"));
    assert!(filter.matches(&rated(Some("0.0"))));
    assert!(filter.matches(&rated(Some("1.0"))));
    assert!(filter.matches(&rated(Some("5.0"))));
}

#[test]
fn test_max_rating() {
    let filter = RatingFilter::new(d("5.0"));
    assert!(filter.matches(&rated(Some("5.0"))));
    assert!(!filter.matches(&rated(Some("4.9"))));
}
