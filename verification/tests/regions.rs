use amz_crawler::amazon::regions::Region;
use std::str::FromStr;

#[test]
fn test_region_parsing_all() {
    assert_eq!(Region::from_str("us").unwrap(), Region::Us);
    assert_eq!(Region::from_str("usa").unwrap(), Region::Us);
    assert_eq!(Region::from_str("united states").unwrap(), Region::Us);
    assert_eq!(Region::from_str("uk").unwrap(), Region::Uk);
    assert_eq!(Region::from_str("gb").unwrap(), Region::Uk);
    assert_eq!(Region::from_str("united kingdom").unwrap(), Region::Uk);
    assert_eq!(Region::from_str("de").unwrap(), Region::De);
    assert_eq!(Region::from_str("germany").unwrap(), Region::De);
    assert_eq!(Region::from_str("fr").unwrap(), Region::Fr);
    assert_eq!(Region::from_str("france").unwrap(), Region::Fr);
    assert_eq!(Region::from_str("es").unwrap(), Region::Es);
    assert_eq!(Region::from_str("spain").unwrap(), Region::Es);
    assert_eq!(Region::from_str("it").unwrap(), Region::It);
    assert_eq!(Region::from_str("italy").unwrap(), Region::It);
    assert_eq!(Region::from_str("ca").unwrap(), Region::Ca);
    assert_eq!(Region::from_str("canada").unwrap(), Region::Ca);
    assert_eq!(Region::from_str("au").unwrap(), Region::Au);
    assert_eq!(Region::from_str("australia").unwrap(), Region::Au);
    assert_eq!(Region::from_str("jp").unwrap(), Region::Jp);
    assert_eq!(Region::from_str("japan").unwrap(), Region::Jp);
    assert_eq!(Region::from_str("in").unwrap(), Region::In);
    assert_eq!(Region::from_str("india").unwrap(), Region::In);
    assert_eq!(Region::from_str("br").unwrap(), Region::Br);
    assert_eq!(Region::from_str("brazil").unwrap(), Region::Br);
    assert_eq!(Region::from_str("mx").unwrap(), Region::Mx);
    assert_eq!(Region::from_str("mexico").unwrap(), Region::Mx);
    assert_eq!(Region::from_str("nl").unwrap(), Region::Nl);
    assert_eq!(Region::from_str("netherlands").unwrap(), Region::Nl);
    assert_eq!(Region::from_str("se").unwrap(), Region::Se);
    assert_eq!(Region::from_str("sweden").unwrap(), Region::Se);
    assert_eq!(Region::from_str("pl").unwrap(), Region::Pl);
    assert_eq!(Region::from_str("poland").unwrap(), Region::Pl);

    // Case insensitive
    assert_eq!(Region::from_str("US").unwrap(), Region::Us);
    assert_eq!(Region::from_str("GERMANY").unwrap(), Region::De);

    // Invalid
    assert!(Region::from_str("invalid").is_err());
    assert!(Region::from_str("").is_err());
}

#[test]
fn test_region_domains_all() {
    assert_eq!(Region::Us.domain(), "amazon.com");
    assert_eq!(Region::Uk.domain(), "amazon.co.uk");
    assert_eq!(Region::De.domain(), "amazon.de");
    assert_eq!(Region::Fr.domain(), "amazon.fr");
    assert_eq!(Region::Es.domain(), "amazon.es");
    assert_eq!(Region::It.domain(), "amazon.it");
    assert_eq!(Region::Ca.domain(), "amazon.ca");
    assert_eq!(Region::Au.domain(), "amazon.com.au");
    assert_eq!(Region::Jp.domain(), "amazon.co.jp");
    assert_eq!(Region::In.domain(), "amazon.in");
    assert_eq!(Region::Br.domain(), "amazon.com.br");
    assert_eq!(Region::Mx.domain(), "amazon.com.mx");
    assert_eq!(Region::Nl.domain(), "amazon.nl");
    assert_eq!(Region::Se.domain(), "amazon.se");
    assert_eq!(Region::Pl.domain(), "amazon.pl");
}

#[test]
fn test_region_base_url() {
    assert_eq!(Region::Us.base_url(), "https://www.amazon.com");
    assert_eq!(Region::Uk.base_url(), "https://www.amazon.co.uk");
    assert_eq!(Region::De.base_url(), "https://www.amazon.de");
}

#[test]
fn test_region_currencies_all() {
    assert_eq!(Region::Us.currency(), "USD");
    assert_eq!(Region::Uk.currency(), "GBP");
    assert_eq!(Region::De.currency(), "EUR");
    assert_eq!(Region::Fr.currency(), "EUR");
    assert_eq!(Region::Es.currency(), "EUR");
    assert_eq!(Region::It.currency(), "EUR");
    assert_eq!(Region::Nl.currency(), "EUR");
    assert_eq!(Region::Ca.currency(), "CAD");
    assert_eq!(Region::Au.currency(), "AUD");
    assert_eq!(Region::Jp.currency(), "JPY");
    assert_eq!(Region::In.currency(), "INR");
    assert_eq!(Region::Br.currency(), "BRL");
    assert_eq!(Region::Mx.currency(), "MXN");
    assert_eq!(Region::Se.currency(), "SEK");
    assert_eq!(Region::Pl.currency(), "PLN");
}

#[test]
fn test_accept_language_all() {
    assert!(Region::Us.accept_language().contains("en-US"));
    assert!(Region::Uk.accept_language().contains("en-GB"));
    assert!(Region::De.accept_language().contains("de-DE"));
    assert!(Region::Fr.accept_language().contains("fr-FR"));
    assert!(Region::Es.accept_language().contains("es-ES"));
    assert!(Region::It.accept_language().contains("it-IT"));
    assert!(Region::Ca.accept_language().contains("en-US"));
    assert!(Region::Au.accept_language().contains("en-US"));
    assert!(Region::Jp.accept_language().contains("ja-JP"));
    assert!(Region::In.accept_language().contains("en-IN"));
    assert!(Region::Br.accept_language().contains("pt-BR"));
    assert!(Region::Mx.accept_language().contains("es-ES"));
    assert!(Region::Nl.accept_language().contains("nl-NL"));
    assert!(Region::Se.accept_language().contains("sv-SE"));
    assert!(Region::Pl.accept_language().contains("pl-PL"));
}

#[test]
fn test_comma_decimal_all() {
    // Period decimal
    assert!(!Region::Us.uses_comma_decimal());
    assert!(!Region::Uk.uses_comma_decimal());
    assert!(!Region::Ca.uses_comma_decimal());
    assert!(!Region::Au.uses_comma_decimal());
    assert!(!Region::Jp.uses_comma_decimal());
    assert!(!Region::In.uses_comma_decimal());
    assert!(!Region::Mx.uses_comma_decimal());

    // Comma decimal
    assert!(Region::De.uses_comma_decimal());
    assert!(Region::Fr.uses_comma_decimal());
    assert!(Region::Es.uses_comma_decimal());
    assert!(Region::It.uses_comma_decimal());
    assert!(Region::Nl.uses_comma_decimal());
    assert!(Region::Se.uses_comma_decimal());
    assert!(Region::Pl.uses_comma_decimal());
    assert!(Region::Br.uses_comma_decimal());
}

#[test]
fn test_region_all() {
    let all = Region::all();
    assert_eq!(all.len(), 15);
    assert!(all.contains(&Region::Us));
    assert!(all.contains(&Region::Pl));
}

#[test]
fn test_region_display() {
    assert_eq!(Region::Us.to_string(), "us");
    assert_eq!(Region::Uk.to_string(), "uk");
    assert_eq!(Region::De.to_string(), "de");
    assert_eq!(Region::Fr.to_string(), "fr");
    assert_eq!(Region::Es.to_string(), "es");
    assert_eq!(Region::It.to_string(), "it");
    assert_eq!(Region::Ca.to_string(), "ca");
    assert_eq!(Region::Au.to_string(), "au");
    assert_eq!(Region::Jp.to_string(), "jp");
    assert_eq!(Region::In.to_string(), "in");
    assert_eq!(Region::Br.to_string(), "br");
    assert_eq!(Region::Mx.to_string(), "mx");
    assert_eq!(Region::Nl.to_string(), "nl");
    assert_eq!(Region::Se.to_string(), "se");
    assert_eq!(Region::Pl.to_string(), "pl");
}

#[test]
fn test_region_default() {
    assert_eq!(Region::default(), Region::Us);
}

#[test]
fn test_region_parse_error_display() {
    let err = Region::from_str("xyz").unwrap_err();
    let msg = err.to_string();
    assert!(msg.contains("xyz"));
    assert!(msg.contains("Valid regions"));
}

#[test]
fn region_from_name_is_exact_on_lower_case() {
    assert_eq!(Region::from_name("se"), Some(Region::Se));
    assert_eq!(Region::from_name("SE"), None);
    assert_eq!(Region::from_name(" se"), None);
    assert_eq!(Region::parse(" se").unwrap_err().0, " se");
}

#[test]
fn region_table_is_consistent() {
    for region in Region::all() {
        assert_eq!(Region::from_name(region.code()), Some(*region));
        assert_eq!(region.base_url(), format!("https://www.{}", region.domain()));
        assert_eq!(region.to_string(), region.code());
    }
}
