//! Settings: the region, the pacing of requests, the output format and the
//! filters, with their defaults and the overrides taken from the environment.

use crate::amazon::regions::{Region, region_named};
use crate::decimal::{Decimal, digit_value};
use crate::text::{char_is_digit, chars_of, is_digit, lowercased, same_text};
use std::str::FromStr;
use vstd::prelude::*;
use vstd::string::StringExecFns;

verus! {

/// How results are rendered.
#[derive(Debug, Clone, Copy, PartialEq, Eq, Structural)]
pub enum OutputFormat {
    Table,
    Json,
    Markdown,
    Csv,
}

/// The settings of a run.
#[derive(Debug, Clone)]
pub struct Config {
    pub region: Region,
    /// The address of a proxy, such as `socks5://host:port`.
    pub proxy: Option<String>,
    /// The pause before each request, in milliseconds.
    pub delay_ms: u64,
    /// The most that is added to the pause at random, in milliseconds.
    pub delay_jitter_ms: u64,
    /// The number of results after which a search stops.
    pub max_results: usize,
    pub format: OutputFormat,
    pub min_price: Option<Decimal>,
    pub max_price: Option<Decimal>,
    pub min_rating: Option<Decimal>,
    pub prime_only: bool,
    pub no_sponsored: bool,
    /// Keywords that a title must hold.
    pub keywords: Vec<String>,
    /// Keywords that a title must not hold.
    pub exclude_keywords: Vec<String>,
}

/// The format that a lower-case name stands for.
pub open spec fn format_named(name: Seq<char>) -> Option<OutputFormat> {
    if name == "table"@ {
        Some(OutputFormat::Table)
    } else if name == "json"@ {
        Some(OutputFormat::Json)
    } else if name == "markdown"@ || name == "md"@ {
        Some(OutputFormat::Markdown)
    } else if name == "csv"@ {
        Some(OutputFormat::Csv)
    } else {
        None
    }
}

/// The number that a text of digits spells, read left to right.
pub open spec fn numeral_value(s: Seq<char>) -> int
    decreases s.len(),
{
    if s.len() == 0 {
        0
    } else {
        10 * numeral_value(s.drop_last()) + digit_value(s.last())
    }
}

/// Every character of a text is a digit.
pub open spec fn all_digits(s: Seq<char>) -> bool {
    forall|i: int| 0 <= i < s.len() ==> is_digit(#[trigger] s[i])
}

/// A text without its leading plus sign, where it has one.
pub open spec fn unsigned_digits(s: Seq<char>) -> Seq<char> {
    if s.len() > 0 && s[0] == '+' {
        s.drop_first()
    } else {
        s
    }
}

/// The number that a text denotes: digits after an optional plus sign.
/// `None` where the text has another form or the number does not fit 64 bits.
pub open spec fn unsigned_value(s: Seq<char>) -> Option<u64> {
    if unsigned_digits(s).len() > 0 && all_digits(unsigned_digits(s)) && numeral_value(
        unsigned_digits(s),
    ) <= u64::MAX {
        Some(numeral_value(unsigned_digits(s)) as u64)
    } else {
        None
    }
}

/// The pause before each request where none is set, in milliseconds.
pub fn default_delay_ms() -> (r: u64)
    ensures
        r == 2000,
{
    2000
}

/// The random addition to the pause where none is set, in milliseconds.
pub fn default_delay_jitter_ms() -> (r: u64)
    ensures
        r == 3000,
{
    3000
}

/// The number of results where none is set.
pub fn default_max_results() -> (r: usize)
    ensures
        r == 20,
{
    20
}

proof fn lemma_numeral_value_grows(s: Seq<char>, n: int)
    requires
        0 <= n <= s.len(),
        forall|i: int| 0 <= i < s.len() ==> is_digit(#[trigger] s[i]),
    ensures
        0 <= numeral_value(s.take(n)) <= numeral_value(s),
    decreases s.len() - n,
{
    if n < s.len() {
        let rest = s.drop_last();
        assert(rest.take(n) == s.take(n));
        assert forall|i: int| 0 <= i < rest.len() implies is_digit(#[trigger] rest[i]) by {
            assert(rest[i] == s[i]);
        }
        lemma_numeral_value_grows(rest, n);
        assert(is_digit(s[s.len() - 1]));
    } else {
        assert(s.take(n) == s);
        lemma_numeral_value_nonnegative(s);
    }
}

proof fn lemma_numeral_value_nonnegative(s: Seq<char>)
    requires
        forall|i: int| 0 <= i < s.len() ==> is_digit(#[trigger] s[i]),
    ensures
        numeral_value(s) >= 0,
    decreases s.len(),
{
    if s.len() > 0 {
        let rest = s.drop_last();
        assert forall|i: int| 0 <= i < rest.len() implies is_digit(#[trigger] rest[i]) by {
            assert(rest[i] == s[i]);
        }
        lemma_numeral_value_nonnegative(rest);
        assert(is_digit(s[s.len() - 1]));
    }
}

/// Reads a number: digits after an optional plus sign.
pub fn parse_unsigned(text: &str) -> (r: Option<u64>)
    ensures
        r == unsigned_value(text@),
{
    let chars = chars_of(text);
    let start: usize = if chars.len() > 0 && chars[0] == '+' {
        1
    } else {
        0
    };
    let ghost digits = chars@.skip(start as int);
    assert(digits == unsigned_digits(text@));
    if start == chars.len() {
        return None;
    }
    let mut value: u64 = 0;
    let mut i: usize = start;
    assert(digits.take(0) == Seq::<char>::empty());
    while i < chars.len()
        invariant
            start <= i <= chars.len(),
            start < chars.len(),
            digits == chars@.skip(start as int),
            digits.len() == chars.len() - start,
            digits == unsigned_digits(text@),
            forall|k: int| 0 <= k < i - start ==> is_digit(#[trigger] digits[k]),
            value == numeral_value(digits.take(i - start)),
        decreases chars.len() - i,
    {
        let c = chars[i];
        assert(digits[i - start] == c);
        if !char_is_digit(c) {
            assert(!is_digit(digits[i - start]));
            return None;
        }
        proof {
            assert(digits.take(i - start + 1).drop_last() == digits.take(i - start));
            assert(digits.take(i - start + 1).last() == c);
        }
        let digit: u64 = (c as u32 - 48) as u64;
        if value > (u64::MAX - digit) / 10 {
            proof {
                assert(numeral_value(digits.take(i - start + 1)) > u64::MAX);
                if all_digits(digits) {
                    lemma_numeral_value_grows(digits, i - start + 1);
                }
            }
            return None;
        }
        value = value * 10 + digit;
        i = i + 1;
    }
    assert(digits.take(digits.len() as int) == digits);
    Some(value)
}

impl OutputFormat {
    /// The name of the format.
    pub open spec fn name_text(self) -> Seq<char> {
        match self {
            OutputFormat::Table => "table"@,
            OutputFormat::Json => "json"@,
            OutputFormat::Markdown => "markdown"@,
            OutputFormat::Csv => "csv"@,
        }
    }

    /// The message for a text that names no format.
    pub open spec fn unknown_text(s: Seq<char>) -> Seq<char> {
        "Unknown format: "@ + s + ". Use: table, json, markdown, csv"@
    }

    /// The format that a lower-case name stands for.
    pub fn from_name(name: &str) -> (r: Option<OutputFormat>)
        ensures
            r == format_named(name@),
    {
        if same_text(name, "table") {
            Some(OutputFormat::Table)
        } else if same_text(name, "json") {
            Some(OutputFormat::Json)
        } else if same_text(name, "markdown") || same_text(name, "md") {
            Some(OutputFormat::Markdown)
        } else if same_text(name, "csv") {
            Some(OutputFormat::Csv)
        } else {
            None
        }
    }

    /// Reads a format from its name, in any letter case.
    pub fn parse(s: &str) -> (r: Result<OutputFormat, String>)
        ensures
            match r {
                Ok(format) => format_named(lowercased(s@)) == Some(format),
                Err(message) => format_named(lowercased(s@)) is None && message@
                    == OutputFormat::unknown_text(s@),
            },
    {
        let lower = s.to_lowercase();
        match OutputFormat::from_name(lower.as_str()) {
            Some(format) => Ok(format),
            None => {
                let mut message = "Unknown format: ".to_owned();
                message.append(s);
                message.append(". Use: table, json, markdown, csv");
                Err(message)
            },
        }
    }

    /// The name of the format.
    pub fn to_string(&self) -> (r: String)
        ensures
            r@ == self.name_text(),
    {
        match self {
            OutputFormat::Table => "table".to_owned(),
            OutputFormat::Json => "json".to_owned(),
            OutputFormat::Markdown => "markdown".to_owned(),
            OutputFormat::Csv => "csv".to_owned(),
        }
    }
}

impl Default for OutputFormat {
    fn default() -> (r: OutputFormat)
        ensures
            r == OutputFormat::Table,
    {
        OutputFormat::Table
    }
}

impl FromStr for OutputFormat {
    type Err = String;

    fn from_str(s: &str) -> (r: Result<OutputFormat, String>)
        ensures
            match r {
                Ok(format) => format_named(lowercased(s@)) == Some(format),
                Err(message) => format_named(lowercased(s@)) is None && message@
                    == OutputFormat::unknown_text(s@),
            },
    {
        OutputFormat::parse(s)
    }
}

impl Config {
    /// The settings are the defaults.
    pub open spec fn is_default(self) -> bool {
        &&& self.region == Region::Us
        &&& self.proxy is None
        &&& self.delay_ms == 2000
        &&& self.delay_jitter_ms == 3000
        &&& self.max_results == 20
        &&& self.format == OutputFormat::Table
        &&& self.min_price is None
        &&& self.max_price is None
        &&& self.min_rating is None
        &&& !self.prime_only
        &&& !self.no_sponsored
        &&& self.keywords@.len() == 0
        &&& self.exclude_keywords@.len() == 0
    }

    /// The region after an override: that of a text which names a region,
    /// else the region as it was.
    pub open spec fn region_after(self, region: Option<Seq<char>>) -> Region {
        match region {
            Some(text) => match region_named(lowercased(text)) {
                Some(r) => r,
                None => self.region,
            },
            None => self.region,
        }
    }

    /// The pause after an override: that of a text which is a number, else
    /// the pause as it was.
    pub open spec fn delay_after(self, delay: Option<Seq<char>>) -> u64 {
        match delay {
            Some(text) => match unsigned_value(text) {
                Some(d) => d,
                None => self.delay_ms,
            },
            None => self.delay_ms,
        }
    }

    /// The default settings.
    pub fn new() -> (r: Config)
        ensures
            r.is_default(),
    {
        Config {
            region: Region::Us,
            proxy: None,
            delay_ms: default_delay_ms(),
            delay_jitter_ms: default_delay_jitter_ms(),
            max_results: default_max_results(),
            format: OutputFormat::Table,
            min_price: None,
            max_price: None,
            min_rating: None,
            prime_only: false,
            no_sponsored: false,
            keywords: Vec::new(),
            exclude_keywords: Vec::new(),
        }
    }

    /// The settings with the overrides that the environment holds: a region
    /// name, a proxy address and a pause. A region or a pause that cannot be
    /// read changes nothing; a proxy is taken as it stands.
    pub fn with_env_values(
        self,
        region: Option<String>,
        proxy: Option<String>,
        delay: Option<String>,
    ) -> (r: Config)
        ensures
            r == (Config {
                region: self.region_after(crate::amazon::models::text_view(region)),
                proxy: if proxy is Some {
                    proxy
                } else {
                    self.proxy
                },
                delay_ms: self.delay_after(crate::amazon::models::text_view(delay)),
                ..self
            }),
    {
        let mut config = self;
        if let Some(text) = region {
            if let Ok(r) = Region::parse(text.as_str()) {
                config.region = r;
            }
        }
        if proxy.is_some() {
            config.proxy = proxy;
        }
        if let Some(text) = delay {
            if let Some(d) = parse_unsigned(text.as_str()) {
                config.delay_ms = d;
            }
        }
        config
    }
}

impl Default for Config {
    fn default() -> (r: Config)
        ensures
            r.is_default(),
    {
        Config::new()
    }
}

} // verus!
