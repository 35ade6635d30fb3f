//! Planning of requests to the marketplace: which address to ask, how long
//! to pause before asking, and what a response status means. Sending the
//! request is left to the caller.

use crate::amazon::regions::Region;
use crate::config::Config;
use crate::decimal::{nat_text, number_text};
use vstd::prelude::*;
use vstd::string::StringExecFns;
use vstd::utf8::encode_utf8;

verus! {

/// The bytes that stand for themselves in an address: letters, digits,
/// and `-`, `.`, `_`, `~`.
pub open spec fn is_unreserved(b: u8) -> bool {
    ||| (0x30 <= b && b <= 0x39)
    ||| (0x41 <= b && b <= 0x5A)
    ||| (0x61 <= b && b <= 0x7A)
    ||| b == 0x2D
    ||| b == 0x2E
    ||| b == 0x5F
    ||| b == 0x7E
}

/// The upper-case hexadecimal digit of a number below 16.
pub open spec fn hex_digit(d: int) -> char {
    if d < 10 {
        ((0x30 + d) as u8) as char
    } else {
        ((0x41 + d - 10) as u8) as char
    }
}

/// Bytes in percent encoding: unreserved bytes as they are, every other
/// byte as `%` and its two hexadecimal digits.
pub open spec fn percent_encoded(bytes: Seq<u8>) -> Seq<char>
    decreases bytes.len(),
{
    if bytes.len() == 0 {
        Seq::empty()
    } else if is_unreserved(bytes.last()) {
        percent_encoded(bytes.drop_last()).push(bytes.last() as char)
    } else {
        percent_encoded(bytes.drop_last()) + seq![
            '%',
            hex_digit(bytes.last() as int / 16),
            hex_digit(bytes.last() as int % 16),
        ]
    }
}

/// A text in percent encoding, by its UTF-8 bytes.
pub open spec fn url_encoded(text: Seq<char>) -> Seq<char> {
    percent_encoded(encode_utf8(text))
}

/// `urlencoding::encode`: percent-encodes every byte of the text's UTF-8
/// form except letters, digits and `-`, `_`, `.`, `~`, with upper-case
/// hexadecimal digits.
#[verifier::external_body]
fn url_encode(text: &str) -> (r: String)
    ensures
        r@ == url_encoded(text@),
{
    urlencoding::encode(text).into_owned()
}

/// `Rng::random_range` on the thread's generator: a number drawn from
/// `0..=max`. Nothing is claimed of the number but its range.
#[verifier::external_body]
fn random_up_to(max: u64) -> (r: u64)
    ensures
        r <= max,
{
    rand::Rng::random_range(&mut rand::rng(), 0..=max)
}

/// Why a response cannot be used.
#[derive(Debug, Clone, Copy, PartialEq, Eq, Structural)]
pub enum FetchError {
    /// The marketplace answered 503: it limits the rate of requests.
    RateLimited,
    /// The marketplace answered with another status outside 200 to 299.
    Status(u16),
}

/// The plan of the requests to one region's storefront.
#[derive(Debug, Clone)]
pub struct AmazonClient {
    pub region: Region,
    /// The pause before each request, in milliseconds.
    pub delay_ms: u64,
    /// The most that is added to the pause at random, in milliseconds.
    pub delay_jitter_ms: u64,
    /// An address that replaces the region's own, for trials.
    pub base_url: Option<String>,
}

/// What a response status means: usable, rate limited or failed.
pub open spec fn status_outcome(status: u16) -> Result<(), FetchError> {
    if status == 503 {
        Err(FetchError::RateLimited)
    } else if 200 <= status <= 299 {
        Ok(())
    } else {
        Err(FetchError::Status(status))
    }
}

/// The pause before a request: none where no pause is set, else the set
/// pause and the random addition.
pub open spec fn pause_of(delay_ms: u64, jitter: u64) -> int {
    if delay_ms == 0 {
        0
    } else {
        delay_ms + jitter
    }
}

/// What a response status means.
pub fn check_status(status: u16) -> (r: Result<(), FetchError>)
    ensures
        r == status_outcome(status),
{
    if status == 503 {
        Err(FetchError::RateLimited)
    } else if 200 <= status && status <= 299 {
        Ok(())
    } else {
        Err(FetchError::Status(status))
    }
}

/// The pause before a request, for a random addition already drawn.
pub fn total_pause(delay_ms: u64, jitter: u64) -> (r: u64)
    requires
        delay_ms + jitter <= u64::MAX,
    ensures
        r == pause_of(delay_ms, jitter),
{
    if delay_ms == 0 {
        0
    } else {
        delay_ms + jitter
    }
}

impl FetchError {
    /// The message shown for the error.
    pub open spec fn message_text(self) -> Seq<char> {
        match self {
            FetchError::RateLimited =>
                "Rate limited by Amazon. Try increasing --delay or using a proxy."@,
            FetchError::Status(status) => "Request failed with status: "@ + nat_text(status as nat),
        }
    }

    /// The message shown for the error.
    pub fn to_string(&self) -> (r: String)
        ensures
            r@ == self.message_text(),
    {
        match self {
            FetchError::RateLimited =>
                "Rate limited by Amazon. Try increasing --delay or using a proxy.".to_owned(),
            FetchError::Status(status) => {
                let mut message = "Request failed with status: ".to_owned();
                message.append(number_text(*status as u64).as_str());
                message
            },
        }
    }
}

impl AmazonClient {
    /// The address that requests start with: the replacement where one is
    /// set, else the region's own.
    pub open spec fn base_url_text(self) -> Seq<char> {
        match self.base_url {
            Some(url) => url@,
            None => self.region.base_url_text(),
        }
    }

    /// The address of a page of search results.
    pub open spec fn search_url_text(self, query: Seq<char>, page: u32) -> Seq<char> {
        self.base_url_text() + "/s?k="@ + url_encoded(query) + "&page="@ + nat_text(page as nat)
    }

    /// The address of a detail page.
    pub open spec fn product_url_text(self, asin: Seq<char>) -> Seq<char> {
        self.base_url_text() + "/dp/"@ + asin
    }

    /// The plan for the region and pacing of the settings.
    pub fn new(config: &Config) -> (r: AmazonClient)
        ensures
            r.region == config.region,
            r.delay_ms == config.delay_ms,
            r.delay_jitter_ms == config.delay_jitter_ms,
            r.base_url is None,
    {
        AmazonClient::with_base_url(config, None)
    }

    /// The plan for the settings, with an address that replaces the
    /// region's own.
    pub fn with_base_url(config: &Config, base_url: Option<String>) -> (r: AmazonClient)
        ensures
            r.region == config.region,
            r.delay_ms == config.delay_ms,
            r.delay_jitter_ms == config.delay_jitter_ms,
            r.base_url == base_url,
    {
        AmazonClient {
            region: config.region,
            delay_ms: config.delay_ms,
            delay_jitter_ms: config.delay_jitter_ms,
            base_url,
        }
    }

    /// The region that is asked.
    pub fn region(&self) -> (r: Region)
        ensures
            r == self.region,
    {
        self.region
    }

    /// The address that requests start with.
    pub fn base_url(&self) -> (r: String)
        ensures
            r@ == self.base_url_text(),
    {
        match &self.base_url {
            Some(url) => url.clone(),
            None => self.region.base_url(),
        }
    }

    /// Sets the pause and its random addition.
    pub fn set_delay(&mut self, delay_ms: u64, jitter_ms: u64)
        ensures
            final(self).delay_ms == delay_ms,
            final(self).delay_jitter_ms == jitter_ms,
            final(self).region == old(self).region,
            final(self).base_url == old(self).base_url,
    {
        self.delay_ms = delay_ms;
        self.delay_jitter_ms = jitter_ms;
    }

    /// The address of a page of search results.
    pub fn search_url(&self, query: &str, page: u32) -> (r: String)
        ensures
            r@ == self.search_url_text(query@, page),
    {
        let mut url = self.base_url();
        url.append("/s?k=");
        url.append(url_encode(query).as_str());
        url.append("&page=");
        url.append(number_text(page as u64).as_str());
        url
    }

    /// The address of a detail page.
    pub fn product_url(&self, asin: &str) -> (r: String)
        ensures
            r@ == self.product_url_text(asin@),
    {
        let mut url = self.base_url();
        url.append("/dp/");
        url.append(asin);
        url
    }

    /// The pause before the next request, in milliseconds: none where no
    /// pause is set, else the set pause and a random addition of at most
    /// the set jitter. `None` where the sum does not fit 64 bits.
    pub fn next_pause(&self) -> (r: Option<u64>)
        ensures
            self.delay_ms == 0 ==> r == Some(0u64),
            r matches Some(pause) ==> exists|jitter: u64|
                jitter <= self.delay_jitter_ms && pause == #[trigger] pause_of(
                    self.delay_ms,
                    jitter,
                ),
            self.delay_ms + self.delay_jitter_ms <= u64::MAX ==> r is Some,
    {
        if self.delay_ms == 0 {
            assert(pause_of(0, 0) == 0);
            return Some(0);
        }
        let jitter = if self.delay_jitter_ms > 0 {
            random_up_to(self.delay_jitter_ms)
        } else {
            0
        };
        if jitter <= u64::MAX - self.delay_ms {
            Some(total_pause(self.delay_ms, jitter))
        } else {
            None
        }
    }
}

} // verus!
