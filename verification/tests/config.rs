use amz_crawler::amazon::regions::Region;
use amz_crawler::config::{
    default_delay_jitter_ms, default_delay_ms, default_max_results, parse_unsigned, Config,
    OutputFormat,
};

#[test]
fn test_default_config() {
    let config = Config::default();
    assert_eq!(config.region, Region::Us);
    assert_eq!(config.delay_ms, 2000);
    assert_eq!(config.delay_jitter_ms, 3000);
    assert_eq!(config.max_results, 20);
    assert_eq!(config.format, OutputFormat::Table);
    assert!(config.proxy.is_none());
    assert!(config.min_price.is_none());
    assert!(config.max_price.is_none());
    assert!(config.min_rating.is_none());
    assert!(!config.prime_only);
    assert!(!config.no_sponsored);
    assert!(config.keywords.is_empty());
    assert!(config.exclude_keywords.is_empty());
}

#[test]
fn test_config_new() {
    let config = Config::new();
    assert_eq!(config.region, Region::Us);
    assert_eq!(config.delay_ms, 2000);
}

#[test]
fn test_output_format_parsing() {
    assert_eq!("table".parse::<OutputFormat>().unwrap(), OutputFormat::Table);
    assert_eq!("TABLE".parse::<OutputFormat>().unwrap(), OutputFormat::Table);
    assert_eq!("json".parse::<OutputFormat>().unwrap(), OutputFormat::Json);
    assert_eq!("JSON".parse::<OutputFormat>().unwrap(), OutputFormat::Json);
    assert_eq!("markdown".parse::<OutputFormat>().unwrap(), OutputFormat::Markdown);
    assert_eq!("md".parse::<OutputFormat>().unwrap(), OutputFormat::Markdown);
    assert_eq!("MD".parse::<OutputFormat>().unwrap(), OutputFormat::Markdown);
    assert_eq!("csv".parse::<OutputFormat>().unwrap(), OutputFormat::Csv);
    assert_eq!("CSV".parse::<OutputFormat>().unwrap(), OutputFormat::Csv);

    let err = "invalid".parse::<OutputFormat>().unwrap_err();
    assert!(err.contains("Unknown format"));
    assert!(err.contains("table, json, markdown, csv"));
}

#[test]
fn test_output_format_display() {
    assert_eq!(OutputFormat::Table.to_string(), "table");
    assert_eq!(OutputFormat::Json.to_string(), "json");
    assert_eq!(OutputFormat::Markdown.to_string(), "markdown");
    assert_eq!(OutputFormat::Csv.to_string(), "csv");
}

#[test]
fn test_output_format_default() {
    assert_eq!(OutputFormat::default(), OutputFormat::Table);
}

#[test]
fn test_config_with_env() {
    let config = Config::new().with_env_values(
        Some("au".to_string()),
        Some("http://proxy:8080".to_string()),
        Some("5000".to_string()),
    );
    assert_eq!(config.region, Region::Au);
    assert_eq!(config.proxy, Some("http://proxy:8080".to_string()));
    assert_eq!(config.delay_ms, 5000);
}

#[test]
fn test_config_with_env_invalid_values() {
    let config = Config::new().with_env_values(
        Some("invalid_region".to_string()),
        None,
        Some("not_a_number".to_string()),
    );
    // Invalid values should be ignored, keeping defaults
    assert_eq!(config.region, Region::Us);
    assert_eq!(config.delay_ms, 2000);
    assert!(config.proxy.is_none());
}

#[test]
fn defaults_have_their_values() {
    assert_eq!(default_delay_ms(), 2000);
    assert_eq!(default_delay_jitter_ms(), 3000);
    assert_eq!(default_max_results(), 20);
}

#[test]
fn unsigned_numbers_are_read_strictly() {
    assert_eq!(parse_unsigned("0"), Some(0));
    assert_eq!(parse_unsigned("007"), Some(7));
    assert_eq!(parse_unsigned("+15"), Some(15));
    assert_eq!(parse_unsigned("18446744073709551615"), Some(u64::MAX));
    assert_eq!(parse_unsigned("18446744073709551616"), None);
    assert_eq!(parse_unsigned("99999999999999999999999"), None);
    assert_eq!(parse_unsigned(""), None);
    assert_eq!(parse_unsigned("+"), None);
    assert_eq!(parse_unsigned("-1"), None);
    assert_eq!(parse_unsigned(" 1"), None);
    assert_eq!(parse_unsigned("1 "), None);
    assert_eq!(parse_unsigned("1_000"), None);
    assert_eq!(parse_unsigned("12a"), None);
}

#[test]
fn format_names_are_exact_on_lower_case() {
    assert_eq!(OutputFormat::from_name("md"), Some(OutputFormat::Markdown));
    assert_eq!(OutputFormat::from_name("Md"), None);
    assert_eq!(
        OutputFormat::parse("yaml").unwrap_err(),
        "Unknown format: yaml. Use: table, json, markdown, csv"
    );
}
