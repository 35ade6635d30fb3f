use amz_crawler::amazon::models::{Price, Product, Rating};
use amz_crawler::config::OutputFormat;
use amz_crawler::decimal::Decimal;
use amz_crawler::format::{align_left, align_right, repeat, shorten, Formatter};

fn n(text: &str) -> Decimal {
    let chars: Vec<char> = text.chars().collect();
    Decimal::parse_signed(&chars).unwrap()
}

fn make_product() -> Product {
    Product {
        asin: "B08N5WRWNW".to_string(),
        title: "Test Product Title".to_string(),
        url: "https://amazon.com/dp/B08N5WRWNW".to_string(),
        image_url: Some("https://images.amazon.com/test.jpg".to_string()),
        price: Some(Price::with_discount(n("29.99"), n("39.99"), "USD")),
        rating: Some(Rating::new(n("4.5"), 1234)),
        is_sponsored: false,
        is_prime: true,
        is_amazon_choice: true,
        in_stock: true,
        brand: Some("TestBrand".to_string()),
    }
}

fn make_minimal_product() -> Product {
    Product {
        asin: "MINIMAL123".to_string(),
        title: "Minimal Product".to_string(),
        url: "https://amazon.com/dp/MINIMAL123".to_string(),
        image_url: None,
        price: None,
        rating: None,
        is_sponsored: false,
        is_prime: false,
        is_amazon_choice: false,
        in_stock: false,
        brand: None,
    }
}

fn make_sponsored_product() -> Product {
    Product {
        asin: "SPONSORED1".to_string(),
        title: "Sponsored Product".to_string(),
        url: "https://amazon.com/dp/SPONSORED1".to_string(),
        image_url: None,
        price: Some(Price::simple(n("19.99"), "USD")),
        rating: Some(Rating::new(n("3.5"), 50)),
        is_sponsored: true,
        is_prime: false,
        is_amazon_choice: false,
        in_stock: true,
        brand: None,
    }
}

fn make_hidden_price_product() -> Product {
    Product {
        asin: "HIDDEN1234".to_string(),
        title: "Hidden Price Product".to_string(),
        url: "https://amazon.com/dp/HIDDEN1234".to_string(),
        image_url: None,
        price: Some(Price::hidden("USD")),
        rating: None,
        is_sponsored: false,
        is_prime: true,
        is_amazon_choice: false,
        in_stock: true,
        brand: None,
    }
}

fn make_long_title_product() -> Product {
    Product {
        asin: "LONGTITLE1".to_string(),
        title: "This is a very long product title that exceeds fifty characters and should be truncated in table output".to_string(),
        url: "https://amazon.com/dp/LONGTITLE1".to_string(),
        image_url: None,
        price: Some(Price::simple(n("49.99"), "USD")),
        rating: Some(Rating::new(n("4.0"), 500)),
        is_sponsored: false,
        is_prime: true,
        is_amazon_choice: false,
        in_stock: true,
        brand: Some("LongBrand".to_string()),
    }
}

#[test]
fn test_json_empty() {
    let formatter = Formatter::new(OutputFormat::Json);
    let output = formatter.format_products(&[]).unwrap();
    assert_eq!(output, "[]");
}

#[test]
fn json_with_products_is_left_to_the_serializer() {
    let formatter = Formatter::new(OutputFormat::Json);
    assert_eq!(formatter.format_product(&make_product()), None);
    assert_eq!(formatter.format_products(&[make_product()]), None);
}

// Table format tests

#[test]
fn test_table_single_product() {
    let formatter = Formatter::new(OutputFormat::Table);
    let product = make_product();
    let output = formatter.format_product(&product).unwrap();

    assert!(output.contains("ASIN:    B08N5WRWNW"));
    assert!(output.contains("Title:   Test Product Title"));
    assert!(output.contains("URL:     https://amazon.com/dp/B08N5WRWNW"));
    assert!(output.contains("Price:   USD 29.99 (was 39.99)"));
    assert!(output.contains("Rating:  4.5/5 (1234 reviews)"));
    assert!(output.contains("Badges:  Prime, Amazon's Choice"));
    assert!(output.contains("Brand:   TestBrand"));
    assert!(output.contains("Stock:   In Stock"));
}

#[test]
fn test_table_single_minimal_product() {
    let formatter = Formatter::new(OutputFormat::Table);
    let product = make_minimal_product();
    let output = formatter.format_product(&product).unwrap();

    assert!(output.contains("ASIN:    MINIMAL123"));
    assert!(output.contains("Price:   N/A"));
    assert!(output.contains("Rating:  N/A"));
    assert!(!output.contains("Badges:"));
    assert!(!output.contains("Brand:"));
    assert!(output.contains("Stock:   Out of Stock"));
}

#[test]
fn test_table_single_hidden_price() {
    let formatter = Formatter::new(OutputFormat::Table);
    let product = make_hidden_price_product();
    let output = formatter.format_product(&product).unwrap();

    assert!(output.contains("Price:   See price in cart"));
    assert!(output.contains("Badges:  Prime"));
}

#[test]
fn test_table_single_sponsored() {
    let formatter = Formatter::new(OutputFormat::Table);
    let product = make_sponsored_product();
    let output = formatter.format_product(&product).unwrap();

    assert!(output.contains("Badges:  Sponsored"));
}

#[test]
fn test_table_multiple_products() {
    let formatter = Formatter::new(OutputFormat::Table);
    let products = vec![make_product(), make_minimal_product(), make_sponsored_product()];
    let output = formatter.format_products(&products).unwrap();

    // Header
    assert!(output.contains("ASIN"));
    assert!(output.contains("Price"));
    assert!(output.contains("Rating"));
    assert!(output.contains("Prime"));
    assert!(output.contains("Title"));

    // Separator line
    assert!(output.contains("----------"));

    // Products
    assert!(output.contains("B08N5WRWNW"));
    assert!(output.contains("MINIMAL123"));
    assert!(output.contains("SPONSORED1"));
    assert!(output.contains("29.99"));
    assert!(output.contains("N/A"));
    assert!(output.contains("Yes"));
    assert!(output.contains("No"));
    assert!(output.contains("Total: 3 products"));
}

#[test]
fn test_table_long_title_truncation() {
    let formatter = Formatter::new(OutputFormat::Table);
    let products = vec![make_long_title_product()];
    let output = formatter.format_products(&products).unwrap();

    assert!(output.contains("This is a very long product title that exceeds"));
    assert!(output.contains("..."));
}

#[test]
fn test_table_hidden_price_in_list() {
    let formatter = Formatter::new(OutputFormat::Table);
    let products = vec![make_hidden_price_product()];
    let output = formatter.format_products(&products).unwrap();

    assert!(output.contains("In cart"));
}

#[test]
fn test_table_empty() {
    let formatter = Formatter::new(OutputFormat::Table);
    let output = formatter.format_products(&[]).unwrap();
    assert_eq!(output, "No products found.");
}

// Markdown format tests

#[test]
fn test_markdown_single_product() {
    let formatter = Formatter::new(OutputFormat::Markdown);
    let product = make_product();
    let output = formatter.format_product(&product).unwrap();

    assert!(output.contains("## Test Product Title"));
    assert!(output.contains("- **ASIN:** B08N5WRWNW"));
    assert!(output.contains("- **URL:** [View on Amazon](https://amazon.com/dp/B08N5WRWNW)"));
    assert!(output.contains("- **Price:** USD 29.99 ~~39.99~~"));
    assert!(output.contains("- **Rating:** 4.5/5 (1234 reviews)"));
    assert!(output.contains("- **Brand:** TestBrand"));
    assert!(output.contains("✓ Prime"));
    assert!(output.contains("⭐ Amazon's Choice"));
}

#[test]
fn test_markdown_single_minimal() {
    let formatter = Formatter::new(OutputFormat::Markdown);
    let product = make_minimal_product();
    let output = formatter.format_product(&product).unwrap();

    assert!(output.contains("## Minimal Product"));
    assert!(output.contains("- **ASIN:** MINIMAL123"));
    assert!(!output.contains("- **Price:**"));
    assert!(!output.contains("- **Rating:**"));
    assert!(!output.contains("- **Brand:**"));
    assert!(!output.contains("- **Badges:**"));
}

#[test]
fn test_markdown_single_hidden_price() {
    let formatter = Formatter::new(OutputFormat::Markdown);
    let product = make_hidden_price_product();
    let output = formatter.format_product(&product).unwrap();

    assert!(output.contains("- **Price:** See price in cart"));
}

#[test]
fn test_markdown_single_simple_price() {
    let formatter = Formatter::new(OutputFormat::Markdown);
    let product = make_sponsored_product();
    let output = formatter.format_product(&product).unwrap();

    assert!(output.contains("- **Price:** USD 19.99"));
    assert!(!output.contains("~~")); // No strikethrough for non-discounted
}

#[test]
fn test_markdown_multiple_products() {
    let formatter = Formatter::new(OutputFormat::Markdown);
    let products = vec![make_product(), make_minimal_product()];
    let output = formatter.format_products(&products).unwrap();

    // Table header
    assert!(output.contains("| ASIN | Price | Rating | Prime | Title |"));
    assert!(output.contains("|------|-------|--------|-------|-------|"));

    // Products
    assert!(output.contains("B08N5WRWNW"));
    assert!(output.contains("29.99"));
    assert!(output.contains("4.5"));
    assert!(output.contains("✓")); // Prime checkmark
    assert!(output.contains("MINIMAL123"));
    assert!(output.contains("N/A"));

    // Footer
    assert!(output.contains("*2 products found*"));
}

#[test]
fn test_markdown_long_title_truncation() {
    let formatter = Formatter::new(OutputFormat::Markdown);
    let products = vec![make_long_title_product()];
    let output = formatter.format_products(&products).unwrap();

    // Markdown truncates to 40 chars
    assert!(output.contains("..."));
}

#[test]
fn test_markdown_empty() {
    let formatter = Formatter::new(OutputFormat::Markdown);
    let output = formatter.format_products(&[]).unwrap();
    assert_eq!(output, "No products found.");
}

#[test]
fn test_markdown_hidden_price_in_table() {
    let formatter = Formatter::new(OutputFormat::Markdown);
    let products = vec![make_hidden_price_product()];
    let output = formatter.format_products(&products).unwrap();

    assert!(output.contains("In cart"));
}

// CSV format tests

#[test]
fn test_csv_header() {
    let formatter = Formatter::new(OutputFormat::Csv);
    let header = formatter.csv_header();
    assert_eq!(
        header,
        "asin,title,price,original_price,currency,rating,reviews,prime,sponsored,amazon_choice,in_stock,brand,url"
    );
}

#[test]
fn test_csv_single_product() {
    let formatter = Formatter::new(OutputFormat::Csv);
    let product = make_product();
    let output = formatter.format_product(&product).unwrap();

    let lines: Vec<&str> = output.lines().collect();
    assert_eq!(lines.len(), 2);
    assert!(lines[0].starts_with("asin,title,price"));
    assert!(lines[1].contains("B08N5WRWNW"));
    assert!(lines[1].contains("Test Product Title"));
    assert!(lines[1].contains("29.99"));
    assert!(lines[1].contains("39.99"));
    assert!(lines[1].contains("USD"));
    assert!(lines[1].contains("4.5"));
    assert!(lines[1].contains("1234"));
    assert!(lines[1].contains("true")); // is_prime
    assert!(lines[1].contains("false")); // is_sponsored
    assert!(lines[1].contains("TestBrand"));
}

#[test]
fn test_csv_multiple_products() {
    let formatter = Formatter::new(OutputFormat::Csv);
    let products = vec![make_product(), make_minimal_product(), make_sponsored_product()];
    let output = formatter.format_products(&products).unwrap();

    let lines: Vec<&str> = output.lines().collect();
    assert_eq!(lines.len(), 4); // Header + 3 products
    assert!(lines[1].contains("B08N5WRWNW"));
    assert!(lines[2].contains("MINIMAL123"));
    assert!(lines[3].contains("SPONSORED1"));
}

#[test]
fn test_csv_hidden_price() {
    let formatter = Formatter::new(OutputFormat::Csv);
    let products = vec![make_hidden_price_product()];
    let output = formatter.format_products(&products).unwrap();

    let lines: Vec<&str> = output.lines().collect();
    // Hidden price should result in empty price field
    assert!(lines[1].contains("HIDDEN1234"));
}

#[test]
fn test_csv_empty() {
    let formatter = Formatter::new(OutputFormat::Csv);
    let output = formatter.format_products(&[]).unwrap();
    assert_eq!(
        output,
        "asin,title,price,original_price,currency,rating,reviews,prime,sponsored,amazon_choice,in_stock,brand,url"
    );
}

#[test]
fn test_csv_escape() {
    assert_eq!(Formatter::csv_escape("simple"), "simple");
    assert_eq!(Formatter::csv_escape("with,comma"), "\"with,comma\"");
    assert_eq!(Formatter::csv_escape("with\"quote"), "\"with\"\"quote\"");
    assert_eq!(Formatter::csv_escape("with\nnewline"), "\"with\nnewline\"");
    assert_eq!(Formatter::csv_escape("combo,\"test\"\n"), "\"combo,\"\"test\"\"\n\"");
}

#[test]
fn test_csv_escape_product_with_special_chars() {
    let formatter = Formatter::new(OutputFormat::Csv);
    let mut product = make_product();
    product.title = "Product, with \"quotes\" and\nnewlines".to_string();
    product.brand = Some("Brand, Inc.".to_string());

    let output = formatter.format_product(&product).unwrap();
    // Should have escaped fields
    assert!(output.contains("\"Product, with \"\"quotes\"\" and\nnewlines\""));
    assert!(output.contains("\"Brand, Inc.\""));
}

#[test]
fn test_format_product_all_formats() {
    let product = make_product();

    let table = Formatter::new(OutputFormat::Table).format_product(&product).unwrap();
    let md = Formatter::new(OutputFormat::Markdown).format_product(&product).unwrap();
    let csv = Formatter::new(OutputFormat::Csv).format_product(&product).unwrap();

    assert!(!table.is_empty());
    assert!(!md.is_empty());
    assert!(!csv.is_empty());
}

#[test]
fn test_format_products_all_formats() {
    let products = vec![make_product(), make_minimal_product()];

    let table = Formatter::new(OutputFormat::Table).format_products(&products).unwrap();
    let md = Formatter::new(OutputFormat::Markdown).format_products(&products).unwrap();
    let csv = Formatter::new(OutputFormat::Csv).format_products(&products).unwrap();

    assert!(!table.is_empty());
    assert!(!md.is_empty());
    assert!(!csv.is_empty());
}

#[test]
fn table_single_exact_text() {
    let output = Formatter::new(OutputFormat::Table).table_single(&make_product());
    assert_eq!(
        output,
        "ASIN:    B08N5WRWNW\nTitle:   Test Product Title\nURL:     https://amazon.com/dp/B08N5WRWNW\nPrice:   USD 29.99 (was 39.99)\nRating:  4.5/5 (1234 reviews)\nBadges:  Prime, Amazon's Choice\nBrand:   TestBrand\nStock:   In Stock"
    );
}

#[test]
fn table_list_exact_text() {
    let long = make_long_title_product();
    let output = Formatter::new(OutputFormat::Table).table_products(&[make_product(), make_long_title_product()]);
    let expected = [
        format!("{:<10}  {:<12}  {:<8}  {:<5}  {}", "ASIN", "Price", "Rating", "Prime", "Title"),
        format!("{}  {}  {}  {}  {}", "-".repeat(10), "-".repeat(12), "-".repeat(8), "-".repeat(5), "-".repeat(50)),
        format!("{:<10}  {:>12}  {:>8}  {:<5}  {}", "B08N5WRWNW", "29.99", "4.5", "Yes", "Test Product Title"),
        format!(
            "{:<10}  {:>12}  {:>8}  {:<5}  {}...",
            "LONGTITLE1",
            "49.99",
            "4.0",
            "Yes",
            &long.title[..47]
        ),
        String::new(),
        "Total: 2 products".to_string(),
    ]
    .join("\n");
    assert_eq!(output, expected);
}

#[test]
fn markdown_exact_text() {
    let single = Formatter::new(OutputFormat::Markdown).markdown_single(&make_sponsored_product());
    assert_eq!(
        single,
        "## Sponsored Product\n\n- **ASIN:** SPONSORED1\n- **URL:** [View on Amazon](https://amazon.com/dp/SPONSORED1)\n- **Price:** USD 19.99\n- **Rating:** 3.5/5 (50 reviews)"
    );
    let list = Formatter::new(OutputFormat::Markdown).markdown_products(&[make_product(), make_minimal_product()]);
    let expected = [
        "| ASIN | Price | Rating | Prime | Title |",
        "|------|-------|--------|-------|-------|",
        "| B08N5WRWNW | 29.99 | 4.5 | ✓ | [Test Product Title](https://amazon.com/dp/B08N5WRWNW) |",
        "| MINIMAL123 | N/A | N/A |  | [Minimal Product](https://amazon.com/dp/MINIMAL123) |",
        "",
        "*2 products found*",
    ]
    .join("\n");
    assert_eq!(list, expected);
}

#[test]
fn csv_exact_rows() {
    let output = Formatter::new(OutputFormat::Csv).csv_products(&[
        make_product(),
        make_minimal_product(),
        make_hidden_price_product(),
    ]);
    let lines: Vec<&str> = output.split('\n').collect();
    assert_eq!(lines.len(), 4);
    assert_eq!(
        lines[1],
        "B08N5WRWNW,Test Product Title,29.99,39.99,USD,4.5,1234,true,false,true,true,TestBrand,https://amazon.com/dp/B08N5WRWNW"
    );
    assert_eq!(
        lines[2],
        "MINIMAL123,Minimal Product,,,,,,false,false,false,false,,https://amazon.com/dp/MINIMAL123"
    );
    assert_eq!(
        lines[3],
        "HIDDEN1234,Hidden Price Product,,,USD,,,true,false,false,true,,https://amazon.com/dp/HIDDEN1234"
    );
}

#[test]
fn padding_and_shortening() {
    assert_eq!(repeat('-', 3), "---");
    assert_eq!(repeat('-', 0), "");
    assert_eq!(align_left("ab", 4, ' '), "ab  ");
    assert_eq!(align_left("abcdef", 4, ' '), "abcdef");
    assert_eq!(align_right("ab", 4, ' '), "  ab");
    assert_eq!(align_right("äb", 4, '.'), "..äb");
    assert_eq!(shorten("abcdefgh", 8), "abcdefgh");
    assert_eq!(shorten("abcdefghi", 8), "abcde...");
    assert_eq!(shorten("äöüäöüäöü", 8), "äöüäö...");
}
