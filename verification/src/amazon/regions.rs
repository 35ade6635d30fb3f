//! The storefronts: one region per marketplace domain, each with its currency,
//! its language preference and its way of writing decimal numbers.

use crate::text::{lowercased, same_text};
use std::str::FromStr;
use vstd::prelude::*;
use vstd::string::StringExecFns;

verus! {

/// A marketplace storefront.
#[derive(Debug, Clone, Copy, PartialEq, Eq, Hash, Structural)]
pub enum Region {
    Us,
    Uk,
    De,
    Fr,
    Es,
    It,
    Ca,
    Au,
    Jp,
    In,
    Br,
    Mx,
    Nl,
    Se,
    Pl,
}

/// The text that could not be read as a region.
#[derive(Debug, Clone)]
pub struct RegionParseError(pub String);

/// The region that a lower-case name or code stands for.
pub open spec fn region_named(name: Seq<char>) -> Option<Region> {
    if name == "us"@ || name == "usa"@ || name == "united states"@ {
        Some(Region::Us)
    } else if name == "uk"@ || name == "gb"@ || name == "united kingdom"@ {
        Some(Region::Uk)
    } else if name == "de"@ || name == "germany"@ {
        Some(Region::De)
    } else if name == "fr"@ || name == "france"@ {
        Some(Region::Fr)
    } else if name == "es"@ || name == "spain"@ {
        Some(Region::Es)
    } else if name == "it"@ || name == "italy"@ {
        Some(Region::It)
    } else if name == "ca"@ || name == "canada"@ {
        Some(Region::Ca)
    } else if name == "au"@ || name == "australia"@ {
        Some(Region::Au)
    } else if name == "jp"@ || name == "japan"@ {
        Some(Region::Jp)
    } else if name == "in"@ || name == "india"@ {
        Some(Region::In)
    } else if name == "br"@ || name == "brazil"@ {
        Some(Region::Br)
    } else if name == "mx"@ || name == "mexico"@ {
        Some(Region::Mx)
    } else if name == "nl"@ || name == "netherlands"@ {
        Some(Region::Nl)
    } else if name == "se"@ || name == "sweden"@ {
        Some(Region::Se)
    } else if name == "pl"@ || name == "poland"@ {
        Some(Region::Pl)
    } else {
        None
    }
}

/// Every region, in the order of the table.
pub open spec fn all_regions() -> Seq<Region> {
    seq![
        Region::Us,
        Region::Uk,
        Region::De,
        Region::Fr,
        Region::Es,
        Region::It,
        Region::Ca,
        Region::Au,
        Region::Jp,
        Region::In,
        Region::Br,
        Region::Mx,
        Region::Nl,
        Region::Se,
        Region::Pl,
    ]
}

impl Region {
    /// The marketplace domain of the region.
    pub open spec fn domain_text(self) -> Seq<char> {
        match self {
            Region::Us => "amazon.com"@,
            Region::Uk => "amazon.co.uk"@,
            Region::De => "amazon.de"@,
            Region::Fr => "amazon.fr"@,
            Region::Es => "amazon.es"@,
            Region::It => "amazon.it"@,
            Region::Ca => "amazon.ca"@,
            Region::Au => "amazon.com.au"@,
            Region::Jp => "amazon.co.jp"@,
            Region::In => "amazon.in"@,
            Region::Br => "amazon.com.br"@,
            Region::Mx => "amazon.com.mx"@,
            Region::Nl => "amazon.nl"@,
            Region::Se => "amazon.se"@,
            Region::Pl => "amazon.pl"@,
        }
    }

    /// The address that every page of the region's storefront starts with.
    pub open spec fn base_url_text(self) -> Seq<char> {
        "https://www."@ + self.domain_text()
    }

    /// The ISO code of the currency that the region's prices are in.
    pub open spec fn currency_text(self) -> Seq<char> {
        match self {
            Region::Us => "USD"@,
            Region::Uk => "GBP"@,
            Region::De | Region::Fr | Region::Es | Region::It | Region::Nl => "EUR"@,
            Region::Ca => "CAD"@,
            Region::Au => "AUD"@,
            Region::Jp => "JPY"@,
            Region::In => "INR"@,
            Region::Br => "BRL"@,
            Region::Mx => "MXN"@,
            Region::Se => "SEK"@,
            Region::Pl => "PLN"@,
        }
    }

    /// The language preference sent with requests to the region.
    pub open spec fn accept_language_text(self) -> Seq<char> {
        match self {
            Region::Us | Region::Ca | Region::Au => "en-US,en;q=0.9"@,
            Region::Uk => "en-GB,en;q=0.9"@,
            Region::De => "de-DE,de;q=0.9,en;q=0.8"@,
            Region::Fr => "fr-FR,fr;q=0.9,en;q=0.8"@,
            Region::Es | Region::Mx => "es-ES,es;q=0.9,en;q=0.8"@,
            Region::It => "it-IT,it;q=0.9,en;q=0.8"@,
            Region::Jp => "ja-JP,ja;q=0.9,en;q=0.8"@,
            Region::In => "en-IN,en;q=0.9,hi;q=0.8"@,
            Region::Br => "pt-BR,pt;q=0.9,en;q=0.8"@,
            Region::Nl => "nl-NL,nl;q=0.9,en;q=0.8"@,
            Region::Se => "sv-SE,sv;q=0.9,en;q=0.8"@,
            Region::Pl => "pl-PL,pl;q=0.9,en;q=0.8"@,
        }
    }

    /// Whether the region writes the fractional part of a number after a comma.
    pub open spec fn comma_decimal(self) -> bool {
        self is De || self is Fr || self is Es || self is It || self is Nl || self is Se
            || self is Pl || self is Br
    }

    /// The two-letter code of the region.
    pub open spec fn code_text(self) -> Seq<char> {
        match self {
            Region::Us => "us"@,
            Region::Uk => "uk"@,
            Region::De => "de"@,
            Region::Fr => "fr"@,
            Region::Es => "es"@,
            Region::It => "it"@,
            Region::Ca => "ca"@,
            Region::Au => "au"@,
            Region::Jp => "jp"@,
            Region::In => "in"@,
            Region::Br => "br"@,
            Region::Mx => "mx"@,
            Region::Nl => "nl"@,
            Region::Se => "se"@,
            Region::Pl => "pl"@,
        }
    }

    /// The marketplace domain of the region.
    pub fn domain(&self) -> (r: &'static str)
        ensures
            r@ == self.domain_text(),
    {
        match self {
            Region::Us => "amazon.com",
            Region::Uk => "amazon.co.uk",
            Region::De => "amazon.de",
            Region::Fr => "amazon.fr",
            Region::Es => "amazon.es",
            Region::It => "amazon.it",
            Region::Ca => "amazon.ca",
            Region::Au => "amazon.com.au",
            Region::Jp => "amazon.co.jp",
            Region::In => "amazon.in",
            Region::Br => "amazon.com.br",
            Region::Mx => "amazon.com.mx",
            Region::Nl => "amazon.nl",
            Region::Se => "amazon.se",
            Region::Pl => "amazon.pl",
        }
    }

    /// The address that every page of the region's storefront starts with.
    pub fn base_url(&self) -> (r: String)
        ensures
            r@ == self.base_url_text(),
    {
        let mut url = "https://www.".to_owned();
        url.append(self.domain());
        url
    }

    /// The ISO code of the currency that the region's prices are in.
    pub fn currency(&self) -> (r: &'static str)
        ensures
            r@ == self.currency_text(),
    {
        match self {
            Region::Us => "USD",
            Region::Uk => "GBP",
            Region::De | Region::Fr | Region::Es | Region::It | Region::Nl => "EUR",
            Region::Ca => "CAD",
            Region::Au => "AUD",
            Region::Jp => "JPY",
            Region::In => "INR",
            Region::Br => "BRL",
            Region::Mx => "MXN",
            Region::Se => "SEK",
            Region::Pl => "PLN",
        }
    }

    /// The language preference sent with requests to the region.
    pub fn accept_language(&self) -> (r: &'static str)
        ensures
            r@ == self.accept_language_text(),
    {
        match self {
            Region::Us | Region::Ca | Region::Au => "en-US,en;q=0.9",
            Region::Uk => "en-GB,en;q=0.9",
            Region::De => "de-DE,de;q=0.9,en;q=0.8",
            Region::Fr => "fr-FR,fr;q=0.9,en;q=0.8",
            Region::Es | Region::Mx => "es-ES,es;q=0.9,en;q=0.8",
            Region::It => "it-IT,it;q=0.9,en;q=0.8",
            Region::Jp => "ja-JP,ja;q=0.9,en;q=0.8",
            Region::In => "en-IN,en;q=0.9,hi;q=0.8",
            Region::Br => "pt-BR,pt;q=0.9,en;q=0.8",
            Region::Nl => "nl-NL,nl;q=0.9,en;q=0.8",
            Region::Se => "sv-SE,sv;q=0.9,en;q=0.8",
            Region::Pl => "pl-PL,pl;q=0.9,en;q=0.8",
        }
    }

    /// Whether the region writes the fractional part of a number after a comma.
    pub fn uses_comma_decimal(&self) -> (r: bool)
        ensures
            r == self.comma_decimal(),
    {
        match self {
            Region::De
            | Region::Fr
            | Region::Es
            | Region::It
            | Region::Nl
            | Region::Se
            | Region::Pl
            | Region::Br => true,
            _ => false,
        }
    }

    /// Every region, in the order of the table.
    pub fn all() -> (r: &'static [Region])
        ensures
            r@ == all_regions(),
    {
        let r: &'static [Region] = &[
            Region::Us,
            Region::Uk,
            Region::De,
            Region::Fr,
            Region::Es,
            Region::It,
            Region::Ca,
            Region::Au,
            Region::Jp,
            Region::In,
            Region::Br,
            Region::Mx,
            Region::Nl,
            Region::Se,
            Region::Pl,
        ];
        r
    }

    /// The two-letter code of the region.
    pub fn code(&self) -> (r: &'static str)
        ensures
            r@ == self.code_text(),
    {
        match self {
            Region::Us => "us",
            Region::Uk => "uk",
            Region::De => "de",
            Region::Fr => "fr",
            Region::Es => "es",
            Region::It => "it",
            Region::Ca => "ca",
            Region::Au => "au",
            Region::Jp => "jp",
            Region::In => "in",
            Region::Br => "br",
            Region::Mx => "mx",
            Region::Nl => "nl",
            Region::Se => "se",
            Region::Pl => "pl",
        }
    }

    /// The two-letter code of the region, as an owned string.
    pub fn to_string(&self) -> (r: String)
        ensures
            r@ == self.code_text(),
    {
        self.code().to_owned()
    }

    /// The region that a lower-case name or code stands for.
    pub fn from_name(name: &str) -> (r: Option<Region>)
        ensures
            r == region_named(name@),
    {
        if same_text(name, "us") || same_text(name, "usa") || same_text(name, "united states") {
            Some(Region::Us)
        } else if same_text(name, "uk") || same_text(name, "gb") || same_text(
            name,
            "united kingdom",
        ) {
            Some(Region::Uk)
        } else if same_text(name, "de") || same_text(name, "germany") {
            Some(Region::De)
        } else if same_text(name, "fr") || same_text(name, "france") {
            Some(Region::Fr)
        } else if same_text(name, "es") || same_text(name, "spain") {
            Some(Region::Es)
        } else if same_text(name, "it") || same_text(name, "italy") {
            Some(Region::It)
        } else if same_text(name, "ca") || same_text(name, "canada") {
            Some(Region::Ca)
        } else if same_text(name, "au") || same_text(name, "australia") {
            Some(Region::Au)
        } else if same_text(name, "jp") || same_text(name, "japan") {
            Some(Region::Jp)
        } else if same_text(name, "in") || same_text(name, "india") {
            Some(Region::In)
        } else if same_text(name, "br") || same_text(name, "brazil") {
            Some(Region::Br)
        } else if same_text(name, "mx") || same_text(name, "mexico") {
            Some(Region::Mx)
        } else if same_text(name, "nl") || same_text(name, "netherlands") {
            Some(Region::Nl)
        } else if same_text(name, "se") || same_text(name, "sweden") {
            Some(Region::Se)
        } else if same_text(name, "pl") || same_text(name, "poland") {
            Some(Region::Pl)
        } else {
            None
        }
    }

    /// Reads a region from its code or English name, in any letter case. A
    /// text that names no region comes back in the error.
    pub fn parse(s: &str) -> (r: Result<Region, RegionParseError>)
        ensures
            match r {
                Ok(region) => region_named(lowercased(s@)) == Some(region),
                Err(e) => region_named(lowercased(s@)) is None && e.0@ == s@,
            },
    {
        let lower = s.to_lowercase();
        match Region::from_name(lower.as_str()) {
            Some(region) => Ok(region),
            None => Err(RegionParseError(s.to_owned())),
        }
    }
}

impl Default for Region {
    fn default() -> (r: Region)
        ensures
            r == Region::Us,
    {
        Region::Us
    }
}

impl FromStr for Region {
    type Err = RegionParseError;

    fn from_str(s: &str) -> (r: Result<Region, RegionParseError>)
        ensures
            match r {
                Ok(region) => region_named(lowercased(s@)) == Some(region),
                Err(e) => region_named(lowercased(s@)) is None && e.0@ == s@,
            },
    {
        Region::parse(s)
    }
}

impl RegionParseError {
    /// The message shown for the error: the rejected text and the valid codes.
    pub open spec fn message_text(self) -> Seq<char> {
        "Unknown region '"@ + self.0@
            + "'. Valid regions: us, uk, de, fr, es, it, ca, au, jp, in, br, mx, nl, se, pl"@
    }

    /// The message shown for the error.
    pub fn to_string(&self) -> (r: String)
        ensures
            r@ == self.message_text(),
    {
        let mut message = "Unknown region '".to_owned();
        message.append(self.0.as_str());
        message.append(
            "'. Valid regions: us, uk, de, fr, es, it, ca, au, jp, in, br, mx, nl, se, pl",
        );
        message
    }
}

} // verus!
