use scraper::Html;
use amz_crawler::amazon::parser::{BlockKind, BlockStatus, ParseError, Parser};
use amz_crawler::amazon::regions::Region;
use amz_crawler::decimal::Decimal;
use amz_crawler::filters::FilterChainBuilder;

fn price(parser: &Parser, text: &str) -> Option<f64> {
    parser.parse_price_value(text).map(value)
}

fn value(d: Decimal) -> f64 {
    d.unit_count() as f64 / 10f64.powi(d.fraction_digits() as i32)
}

#[test]
fn test_parse_price_us() {
    let parser = Parser::new(Region::Us);
    assert_eq!(price(&parser, "$29.99"), Some(29.99));
    assert_eq!(price(&parser, "$1,234.56"), Some(1234.56));
    assert_eq!(price(&parser, "29.99"), Some(29.99));
    assert_eq!(price(&parser, "$0.99"), Some(0.99));
    assert_eq!(price(&parser, "$10"), Some(10.0));
}

#[test]
fn test_parse_price_eu() {
    let parser = Parser::new(Region::De);
    assert_eq!(price(&parser, "29,99 €"), Some(29.99));
    assert_eq!(price(&parser, "1.234,56 €"), Some(1234.56));
    assert_eq!(price(&parser, "€29,99"), Some(29.99));
    assert_eq!(price(&parser, "0,99€"), Some(0.99));
}

#[test]
fn test_parse_price_other_regions() {
    // UK uses period decimal
    let parser = Parser::new(Region::Uk);
    assert_eq!(price(&parser, "£29.99"), Some(29.99));

    // France uses comma decimal
    let parser = Parser::new(Region::Fr);
    assert_eq!(price(&parser, "29,99 €"), Some(29.99));

    // Japan uses period decimal (no decimals typically)
    let parser = Parser::new(Region::Jp);
    assert_eq!(price(&parser, "¥2,999"), Some(2999.0));
}

#[test]
fn test_parse_price_with_range() {
    let parser = Parser::new(Region::Us);
    // Price ranges like "$10 - $20" should return the first price
    assert_eq!(price(&parser, "$10 - $20"), Some(10.0));
    assert_eq!(price(&parser, "10-20"), Some(10.0));
}

#[test]
fn test_parse_price_empty() {
    let parser = Parser::new(Region::Us);
    assert_eq!(price(&parser, ""), None);
    assert_eq!(price(&parser, "   "), None);
    assert_eq!(price(&parser, "N/A"), None);
}

#[test]
fn test_parse_single_price_empty() {
    let parser = Parser::new(Region::Us);
    assert_eq!(parser.parse_single_price(""), None);
    assert_eq!(parser.parse_single_price("   "), None);
}

#[test]
fn test_parse_stars() {
    let parser = Parser::new(Region::Us);
    assert_eq!(parser.parse_stars("4.5 out of 5 stars").map(value), Some(4.5));
    assert_eq!(parser.parse_stars("4,5 von 5 Sternen").map(value), Some(4.5));
    assert_eq!(parser.parse_stars("5.0 out of 5 stars").map(value), Some(5.0));
    assert_eq!(parser.parse_stars("1 out of 5 stars").map(value), Some(1.0));
}

#[test]
fn test_parse_stars_edge_cases() {
    let parser = Parser::new(Region::Us);
    assert_eq!(parser.parse_stars(""), None);
}

#[test]
fn test_parse_review_count() {
    let parser = Parser::new(Region::Us);
    assert_eq!(parser.parse_review_count("1,234 ratings"), 1234);
    assert_eq!(parser.parse_review_count("1.234 Bewertungen"), 1234);
    assert_eq!(parser.parse_review_count("50 reviews"), 50);
    assert_eq!(parser.parse_review_count("1"), 1);
}

#[test]
fn test_parse_review_count_edge_cases() {
    let parser = Parser::new(Region::Us);
    assert_eq!(parser.parse_review_count(""), 0);
    assert_eq!(parser.parse_review_count("no reviews"), 0);
}

#[test]
fn test_check_for_errors_clean_page() {
    let parser = Parser::new(Region::Us);
    let html = "<html><body><h1>Normal page</h1></body></html>";
    let document = Html::parse_document(html);
    assert!(parser.check_for_errors(&document).is_ok());
}

#[test]
fn test_check_for_errors_captcha() {
    let parser = Parser::new(Region::Us);
    let html = r#"<html><body><form action="/errors/validateCaptcha">CAPTCHA</form></body></html>"#;
    let document = Html::parse_document(html);
    let result = parser.check_for_errors(&document);
    assert!(result.is_err());
    assert!(result.unwrap_err().to_string().contains("CAPTCHA"));
}

#[test]
fn test_check_for_errors_dog_page() {
    let parser = Parser::new(Region::Us);
    // The selector uses [alt*='dog'] which is case-sensitive
    let html = r#"<html><body><img alt="Sorry, the dog ate this page"></body></html>"#;
    let document = Html::parse_document(html);
    let result = parser.check_for_errors(&document);
    assert!(result.is_err());
    assert!(result.unwrap_err().to_string().contains("503"));
}

#[test]
fn test_parse_search_empty_results() {
    let parser = Parser::new(Region::Us);
    let html = r#"<html><body><div id="search"></div></body></html>"#;
    let results = parser.parse_search(html, "test query", 1).unwrap();
    assert_eq!(results.query, "test query");
    assert_eq!(results.region, "us");
    assert_eq!(results.page, 1);
    assert!(results.products.is_empty());
    assert!(!results.has_more);
}

#[test]
fn test_parse_search_with_captcha() {
    let parser = Parser::new(Region::Us);
    let html = r#"<html><body><form action="/errors/validateCaptcha"></form></body></html>"#;
    let result = parser.parse_search(html, "test", 1);
    assert!(result.is_err());
}

#[test]
fn test_parse_product_page_missing_title() {
    let parser = Parser::new(Region::Us);
    let html = r#"<html><body><div id="dp"></div></body></html>"#;
    let result = parser.parse_product_page(html, "B08N5WRWNW");
    assert!(result.is_err());
    assert!(result.unwrap_err().to_string().contains("title"));
}

#[test]
fn test_parse_product_page_minimal() {
    let parser = Parser::new(Region::Us);
    let html = r#"
        <html><body>
            <span id="productTitle">Test Product</span>
        </body></html>
    "#;
    let product = parser.parse_product_page(html, "B08N5WRWNW").unwrap();
    assert_eq!(product.asin, "B08N5WRWNW");
    assert_eq!(product.title, "Test Product");
    assert!(product.price.is_none());
    assert!(product.rating.is_none());
    assert!(!product.in_stock);
}

#[test]
fn test_parser_new() {
    let parser = Parser::new(Region::Uk);
    assert_eq!(parser.region, Region::Uk);
}

#[test]
fn test_parse_price_all_eu_regions() {
    // These regions use comma as decimal separator
    for region in [Region::De, Region::Fr, Region::Es, Region::It, Region::Nl, Region::Pl] {
        let parser = Parser::new(region);
        assert_eq!(price(&parser, "29,99"), Some(29.99), "Failed for region {:?}", region);
        assert_eq!(price(&parser, "1.234,56"), Some(1234.56), "Failed for region {:?}", region);
    }
}

#[test]
fn test_parse_price_all_period_regions() {
    // Regions that use period as decimal separator
    for region in [Region::Us, Region::Uk, Region::Ca, Region::Au, Region::Jp, Region::In] {
        let parser = Parser::new(region);
        assert_eq!(price(&parser, "29.99"), Some(29.99), "Failed for region {:?}", region);
        assert_eq!(price(&parser, "1,234.56"), Some(1234.56), "Failed for region {:?}", region);
    }
}

#[test]
fn test_parse_empty_results() {
    let parser = Parser::new(Region::Us);
    let html = r#"
        <html>
        <body>
            <div class="s-no-search-results">No results found</div>
        </body>
        </html>
    "#;

    let results = parser.parse_search(html, "nonexistent", 1).unwrap();
    assert!(results.is_empty());
}

#[test]
fn block_detector_tells_the_two_pages_apart() {
    let parser = Parser::new(Region::Us);
    let clean = Html::parse_document("<html><body><p>fine</p></body></html>");
    assert_eq!(parser.detect_block(&clean), BlockStatus::Clean);
    let captcha = Html::parse_document(r#"<html><body><img src="/captcha/x.png"></body></html>"#);
    assert_eq!(parser.detect_block(&captcha), BlockStatus::Blocked(BlockKind::Captcha));
    let robot = Html::parse_document(
        r#"<html><body><div class="a-box-inner"><h4>Are you a robot?</h4></div></body></html>"#,
    );
    assert_eq!(parser.detect_block(&robot), BlockStatus::Blocked(BlockKind::Captcha));
    let human = Html::parse_document(
        r#"<html><body><div class="a-box-inner"><h4>Welcome</h4></div></body></html>"#,
    );
    assert_eq!(parser.detect_block(&human), BlockStatus::Clean);
    let dog = Html::parse_document(
        r#"<html><body><div class="a-box-inner"><a href="/ref=cs_503_link">home</a></div></body></html>"#,
    );
    assert_eq!(parser.detect_block(&dog), BlockStatus::Blocked(BlockKind::ServicePage));
    // The challenge is looked for first.
    let both = Html::parse_document(
        r#"<html><body><form action="/errors/validateCaptcha"></form><img alt="a dog"></body></html>"#,
    );
    assert_eq!(parser.detect_block(&both), BlockStatus::Blocked(BlockKind::Captcha));
}

#[test]
fn blocked_pages_fail_both_extractions() {
    let parser = Parser::new(Region::Us);
    let html = r#"<html><body>
        <form action="/errors/validateCaptcha"></form>
        <span id="productTitle">Looks fine</span>
        <div data-component-type="s-search-result" data-asin="B000000001">
            <h2><a class="a-link-normal" href="/dp/B000000001"><span>Listing</span></a></h2>
        </div>
    </body></html>"#;
    assert_eq!(
        parser.parse_search(html, "q", 1).unwrap_err(),
        ParseError::ContentBlocked(BlockKind::Captcha)
    );
    assert_eq!(
        parser.parse_product_page(html, "B000000001").unwrap_err(),
        ParseError::ContentBlocked(BlockKind::Captcha)
    );
    let dog = r#"<html><body><img alt="the dog"><span id="productTitle">T</span></body></html>"#;
    assert_eq!(
        parser.parse_product_page(dog, "B000000001").unwrap_err(),
        ParseError::ContentBlocked(BlockKind::ServicePage)
    );
}

#[test]
fn detail_page_without_title_is_missing_required_field() {
    let parser = Parser::new(Region::Us);
    let with_price = r#"<html><body>
        <span class="a-price"><span class="a-offscreen">$5.00</span></span>
    </body></html>"#;
    assert_eq!(
        parser.parse_product_page(with_price, "B000000001").unwrap_err(),
        ParseError::MissingRequiredField
    );
    let bare = "<html><body></body></html>";
    assert_eq!(
        parser.parse_product_page(bare, "B000000001").unwrap_err(),
        ParseError::MissingRequiredField
    );
}

#[test]
fn search_page_cards_in_order_without_unidentified() {
    let parser = Parser::new(Region::Us);
    let html = r#"<html><body>
      <div data-component-type="s-search-result" data-asin="B08N5WRWNW">
        <h2><a class="a-link-normal" href="/dp/B08N5WRWNW"><span> Logitech Mouse </span></a></h2>
        <img class="s-image" src="https://img.example/1.jpg">
        <span class="a-price"><span class="a-offscreen">$99.99</span></span>
        <span class="a-price" data-a-strike="true"><span class="a-offscreen">$129.99</span></span>
        <i class="a-icon-star-small"><span class="a-icon-alt">4.7 out of 5 stars</span></i>
        <span class="a-size-base s-underline-text">12,345</span>
        <i class="a-icon-prime"></i>
      </div>
      <div data-component-type="s-search-result" data-asin="">
        <h2><a class="a-link-normal" href="/dp/none"><span>Placeholder</span></a></h2>
      </div>
      <div data-component-type="s-search-result">
        <h2><a class="a-link-normal" href="/dp/none"><span>No code</span></a></h2>
      </div>
      <div data-component-type="s-search-result" data-asin="B09HMZ6S1Y">
        <h2><a class="a-link-normal" href="https://www.amazon.com/dp/B09HMZ6S1Y"><span>Razer Mouse</span></a></h2>
        <span class="puis-label-popover-default">Sponsored</span>
        <span class="a-price"><span class="a-offscreen">See price in cart</span></span>
      </div>
      <div data-component-type="s-search-result" data-asin="B000000003">
        <span>Plain</span>
      </div>
      <a class="s-pagination-next" href="/s?page=2">Next</a>
    </body></html>"#;
    let results = parser.parse_search(html, "wireless mouse", 3).unwrap();
    assert_eq!(results.count(), 3);
    assert_eq!(results.page, 3);
    assert_eq!(results.query, "wireless mouse");
    assert_eq!(results.region, "us");
    assert!(results.has_more);

    let first = &results.products[0];
    assert_eq!(first.asin, "B08N5WRWNW");
    assert_eq!(first.title, "Logitech Mouse");
    assert_eq!(first.url, "https://www.amazon.com/dp/B08N5WRWNW");
    assert_eq!(first.image_url.as_deref(), Some("https://img.example/1.jpg"));
    let found = first.price.as_ref().unwrap();
    assert_eq!(value(found.current), 99.99);
    assert_eq!(found.original.map(value), Some(129.99));
    assert_eq!(found.currency, "USD");
    assert!(!found.is_hidden);
    assert!(found.range.is_none());
    let rating = first.rating.unwrap();
    assert_eq!(value(rating.stars), 4.7);
    assert_eq!(rating.review_count, 12345);
    assert!(first.is_prime);
    assert!(!first.is_sponsored);
    assert!(first.in_stock);
    assert_eq!(first.discount_percent(), Some(23));

    let second = &results.products[1];
    assert_eq!(second.asin, "B09HMZ6S1Y");
    assert_eq!(second.url, "https://www.amazon.com/dp/B09HMZ6S1Y");
    assert!(second.is_sponsored);
    assert!(!second.is_prime);
    assert!(second.price.as_ref().unwrap().is_hidden);
    assert_eq!(second.price.as_ref().unwrap().currency, "USD");
    assert!(second.current_price().is_none());
    assert!(second.in_stock);

    let third = &results.products[2];
    assert_eq!(third.asin, "B000000003");
    assert_eq!(third.title, "Unknown");
    assert_eq!(third.url, "https://www.amazon.com/dp/B000000003");
    assert!(third.price.is_none());
    assert!(!third.in_stock);
    assert!(third.rating.is_none());
    assert!(third.brand.is_none());
    assert!(!third.is_sponsored);
}

#[test]
fn sponsored_word_in_card_text_counts() {
    let parser = Parser::new(Region::Us);
    let html = r#"<html><body>
      <div data-component-type="s-search-result" data-asin="B000000001"><p>A Sponsored result</p></div>
      <div data-component-type="s-search-result" data-asin="B000000002"><p>organic</p></div>
      <div data-component-type="s-search-result" data-asin="B000000003"><p>SPONSORED result</p></div>
      <div data-component-type="s-search-result" data-asin="B000000004"><p>sponsored result</p></div>
    </body></html>"#;
    let results = parser.parse_search(html, "q", 1).unwrap();
    assert_eq!(results.products.len(), 4);
    assert!(results.products[0].is_sponsored);
    assert!(!results.products[1].is_sponsored);
    // Only the word as it is written on the page counts.
    assert!(!results.products[2].is_sponsored);
    assert!(!results.products[3].is_sponsored);
}

#[test]
fn first_rule_in_the_list_wins_over_document_order() {
    let parser = Parser::new(Region::Us);
    // The struck price stands first in the document; the rule for prices
    // that are not struck stands first in the catalog.
    let html = r#"<html><body>
      <div data-component-type="s-search-result" data-asin="B000000001">
        <span class="a-price" data-a-strike="true"><span class="a-offscreen">$50.00</span></span>
        <span class="a-price"><span class="a-offscreen">$40.00</span></span>
      </div>
    </body></html>"#;
    let results = parser.parse_search(html, "q", 1).unwrap();
    let found = results.products[0].price.as_ref().unwrap();
    assert_eq!(value(found.current), 40.0);
    assert_eq!(found.original.map(value), Some(50.0));
}

#[test]
fn price_range_needs_container_and_greater_second_price() {
    let parser = Parser::new(Region::Us);
    let card = |inner: &str| {
        format!(
            r#"<html><body><div data-component-type="s-search-result" data-asin="B000000001">{}</div></body></html>"#,
            inner
        )
    };
    let ranged = card(
        r#"<span class="a-price"><span class="a-offscreen">$10.00</span></span><span class="a-price"><span class="a-offscreen">$20.00</span></span>"#,
    );
    let results = parser.parse_search(&ranged, "q", 1).unwrap();
    let found = results.products[0].price.as_ref().unwrap();
    assert_eq!(value(found.current), 10.0);
    let range = found.range.unwrap();
    assert_eq!(value(range.min), 10.0);
    assert_eq!(range.max.map(value), Some(20.0));

    let smaller = card(
        r#"<span class="a-price"><span class="a-offscreen">$10.00</span></span><span class="a-price"><span class="a-offscreen">$5.00</span></span>"#,
    );
    let results = parser.parse_search(&smaller, "q", 1).unwrap();
    assert!(results.products[0].price.as_ref().unwrap().range.is_none());

    let apart = card(
        r#"<span class="a-price"><span class="a-offscreen">$10.00</span></span><p>x</p><div><span class="a-price"><span class="a-offscreen">$20.00</span></span></div>"#,
    );
    let results = parser.parse_search(&apart, "q", 1).unwrap();
    assert!(results.products[0].price.as_ref().unwrap().range.is_none());
}

#[test]
fn detail_page_full() {
    let parser = Parser::new(Region::De);
    let html = r#"<html><body>
      <span id="productTitle">  Kaffeemaschine  </span>
      <div id="corePrice_feature_div">
        <span class="a-price"><span class="a-offscreen">1.234,56 €</span></span>
        <span class="a-text-price"><span class="a-offscreen">1.500,00 €</span></span>
      </div>
      <img id="landingImage" data-old-hires="https://img.example/big.jpg">
      <span id="acrPopover"><span class="a-icon-alt">4,5 von 5 Sternen</span></span>
      <span id="acrCustomerReviewText">1.234 Bewertungen</span>
      <a id="bylineInfo">Visit the Melitta Store</a>
      <div id="availability"><span>In Stock.</span></div>
      <i class="a-icon-prime"></i>
      <span class="ac-badge-wrapper">badge</span>
    </body></html>"#;
    let product = parser.parse_product_page(html, "B08N5WRWNW").unwrap();
    assert_eq!(product.asin, "B08N5WRWNW");
    assert_eq!(product.title, "Kaffeemaschine");
    assert_eq!(product.url, "https://www.amazon.de/dp/B08N5WRWNW");
    assert_eq!(product.image_url.as_deref(), Some("https://img.example/big.jpg"));
    let found = product.price.as_ref().unwrap();
    assert_eq!(value(found.current), 1234.56);
    assert_eq!(found.original.map(value), Some(1500.0));
    assert_eq!(found.currency, "EUR");
    let rating = product.rating.unwrap();
    assert_eq!(value(rating.stars), 4.5);
    assert_eq!(rating.review_count, 1234);
    assert_eq!(product.brand.as_deref(), Some("Melitta"));
    assert!(product.in_stock);
    assert!(product.is_prime);
    assert!(product.is_amazon_choice);
    assert!(!product.is_sponsored);
}

#[test]
fn rating_without_count_has_zero_reviews() {
    let parser = Parser::new(Region::Us);
    let html = r#"<html><body>
      <span id="productTitle">T</span>
      <i class="a-icon-star"><span class="a-icon-alt">9.5 out of 5 stars</span></i>
    </body></html>"#;
    let product = parser.parse_product_page(html, "B08N5WRWNW").unwrap();
    let rating = product.rating.unwrap();
    assert_eq!(rating.stars, Decimal::whole(5));
    assert_eq!(rating.review_count, 0);
}

#[test]
fn unparsable_price_leaves_the_field_absent() {
    let parser = Parser::new(Region::Us);
    let html = r#"<html><body>
      <span id="productTitle">T</span>
      <span class="a-price"><span class="a-offscreen">Currently unavailable</span></span>
      <div id="availability"><span>Temporarily out of stock.</span></div>
    </body></html>"#;
    let product = parser.parse_product_page(html, "B08N5WRWNW").unwrap();
    assert!(product.price.is_none());
    assert!(!product.in_stock);
}

fn results_page() -> &'static str {
    r#"<html><body>
      <div class="s-main-slot">
        <div data-component-type="s-search-result" data-asin="B08N5WRWNW">
          <h2><a class="a-link-normal" href="/dp/B08N5WRWNW"><span>Logitech MX Master 3 Wireless Mouse</span></a></h2>
          <img class="s-image" src="https://m.media-amazon.com/images/I/logitech.jpg">
          <span class="a-price"><span class="a-offscreen">$99.99</span></span>
          <span class="a-price a-text-price" data-a-strike="true"><span class="a-offscreen">$129.99</span></span>
          <i class="a-icon a-icon-star-small"><span class="a-icon-alt">4.7 out of 5 stars</span></i>
          <span class="a-size-base s-underline-text">12,345</span>
          <i class="a-icon a-icon-prime"></i>
        </div>
        <div data-component-type="s-search-result" data-asin="B09HMZ6S1Y">
          <span class="puis-label-popover-default"><span>Sponsored</span></span>
          <h2><a class="a-link-normal" href="/dp/B09HMZ6S1Y"><span>Razer Basilisk Gaming Mouse</span></a></h2>
          <span class="a-price"><span class="a-offscreen">$39.99</span></span>
          <i class="a-icon a-icon-star-small"><span class="a-icon-alt">4.4 out of 5 stars</span></i>
          <span class="a-size-base s-underline-text">2,310</span>
        </div>
        <div data-component-type="s-search-result" data-asin="">
          <h2><span>Advertisement</span></h2>
        </div>
      </div>
      <a class="s-pagination-item s-pagination-next" href="/s?k=wireless+mouse&page=2">Next</a>
    </body></html>"#
}

#[test]
fn test_parse_search_results() {
    let parser = Parser::new(Region::Us);
    let results = parser.parse_search(results_page(), "wireless mouse", 1).unwrap();

    // Should have parsed 2 products (third one has empty ASIN)
    assert_eq!(results.count(), 2);
    assert!(results.has_more);

    // Check first product
    let product = &results.products[0];
    assert_eq!(product.asin, "B08N5WRWNW");
    assert!(product.title.contains("Logitech"));
    assert!(product.is_prime);
    assert!(!product.is_sponsored);

    // Check price
    let price = product.price.as_ref().unwrap();
    assert_eq!(value(price.current), 99.99);
    assert_eq!(price.original.map(value), Some(129.99));
    assert_eq!(price.currency, "USD");

    // Check rating
    let rating = product.rating.as_ref().unwrap();
    assert_eq!(value(rating.stars) as f32, 4.7);
    assert_eq!(rating.review_count, 12345);

    // Check second product (sponsored)
    let product = &results.products[1];
    assert_eq!(product.asin, "B09HMZ6S1Y");
    assert!(product.is_sponsored);
    assert!(!product.is_prime);
}

#[test]
fn test_filter_integration() {
    let parser = Parser::new(Region::Us);
    let results = parser.parse_search(results_page(), "wireless mouse", 1).unwrap();

    // Build filter chain
    let at = |text: &str| {
        let chars: Vec<char> = text.chars().collect();
        Decimal::parse_signed(&chars)
    };
    let filters = FilterChainBuilder::new()
        .price_range(at("50.0"), at("150.0"))
        .min_rating(at("4.5"))
        .no_sponsored(true)
        .build();

    let filtered = filters.apply(results.products);

    // Only the Logitech should pass (Razer is sponsored and under $50)
    assert_eq!(filtered.len(), 1);
    assert_eq!(filtered[0].asin, "B08N5WRWNW");
}
