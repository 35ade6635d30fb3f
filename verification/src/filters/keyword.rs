//! The keyword filter.

use crate::amazon::models::{Product, ProductView};
use crate::filters::Filter;
use crate::text::{chars_of, contains_chars, contains_text, join, joined, lowercased, views};
use vstd::prelude::*;
use vstd::string::StringExecFns;

verus! {

/// Accepts the products whose title holds every required keyword and none
/// of the excluded ones, whatever the letter case.
#[derive(Debug, Clone)]
pub struct KeywordFilter {
    /// The required keywords, in lower case.
    pub required: Vec<String>,
    /// The excluded keywords, in lower case.
    pub excluded: Vec<String>,
}

/// The lower-case forms of a list of texts.
pub open spec fn lowercased_all(words: Seq<Seq<char>>) -> Seq<Seq<char>> {
    words.map_values(|w: Seq<char>| lowercased(w))
}

/// A text holds every word of a list.
pub open spec fn holds_all(text: Seq<char>, words: Seq<Seq<char>>) -> bool {
    forall|i: int| 0 <= i < words.len() ==> contains_text(text, #[trigger] words[i])
}

/// A text holds no word of a list.
pub open spec fn holds_none(text: Seq<char>, words: Seq<Seq<char>>) -> bool {
    forall|i: int| 0 <= i < words.len() ==> !contains_text(text, #[trigger] words[i])
}

/// The lower-case forms of the keywords.
fn lowercase_all(words: Vec<String>) -> (r: Vec<String>)
    ensures
        views(r@) == lowercased_all(views(words@)),
{
    let mut r: Vec<String> = Vec::new();
    let mut i: usize = 0;
    while i < words.len()
        invariant
            i <= words.len(),
            r@.len() == i,
            forall|k: int| 0 <= k < i ==> (#[trigger] r@[k])@ == lowercased(words@[k]@),
        decreases words.len() - i,
    {
        r.push(words[i].as_str().to_lowercase());
        i = i + 1;
    }
    assert(views(r@) =~= lowercased_all(views(words@)));
    r
}

/// Whether a text holds every word of a list.
fn text_holds_all(text: &[char], words: &Vec<String>) -> (r: bool)
    ensures
        r == holds_all(text@, views(words@)),
{
    let mut i: usize = 0;
    while i < words.len()
        invariant
            i <= words.len(),
            forall|k: int| 0 <= k < i ==> contains_text(text@, #[trigger] views(words@)[k]),
        decreases words.len() - i,
    {
        let word = chars_of(words[i].as_str());
        assert(views(words@)[i as int] == word@);
        if !contains_chars(text, word.as_slice()) {
            return false;
        }
        i = i + 1;
    }
    true
}

/// Whether a text holds no word of a list.
fn text_holds_none(text: &[char], words: &Vec<String>) -> (r: bool)
    ensures
        r == holds_none(text@, views(words@)),
{
    let mut i: usize = 0;
    while i < words.len()
        invariant
            i <= words.len(),
            forall|k: int| 0 <= k < i ==> !contains_text(text@, #[trigger] views(words@)[k]),
        decreases words.len() - i,
    {
        let word = chars_of(words[i].as_str());
        assert(views(words@)[i as int] == word@);
        if contains_chars(text, word.as_slice()) {
            return false;
        }
        i = i + 1;
    }
    true
}

impl KeywordFilter {
    /// A filter with required and excluded keywords, both kept in lower
    /// case.
    pub fn new(required: Vec<String>, excluded: Vec<String>) -> (r: KeywordFilter)
        ensures
            views(r.required@) == lowercased_all(views(required@)),
            views(r.excluded@) == lowercased_all(views(excluded@)),
    {
        KeywordFilter { required: lowercase_all(required), excluded: lowercase_all(excluded) }
    }

    /// A filter with required keywords only.
    pub fn required(keywords: Vec<String>) -> (r: KeywordFilter)
        ensures
            views(r.required@) == lowercased_all(views(keywords@)),
            r.excluded@.len() == 0,
    {
        KeywordFilter { required: lowercase_all(keywords), excluded: Vec::new() }
    }

    /// A filter with excluded keywords only.
    pub fn excluded(keywords: Vec<String>) -> (r: KeywordFilter)
        ensures
            r.required@.len() == 0,
            views(r.excluded@) == lowercased_all(views(keywords@)),
    {
        KeywordFilter { required: Vec::new(), excluded: lowercase_all(keywords) }
    }

    /// Whether a title in lower case passes the filter.
    pub open spec fn accepts_title(self, lower_title: Seq<char>) -> bool {
        holds_all(lower_title, views(self.required@)) && holds_none(
            lower_title,
            views(self.excluded@),
        )
    }

    /// Whether a title in lower case passes the filter.
    pub fn matches_title(&self, lower_title: &str) -> (r: bool)
        ensures
            r == self.accepts_title(lower_title@),
    {
        let title = chars_of(lower_title);
        text_holds_all(title.as_slice(), &self.required) && text_holds_none(
            title.as_slice(),
            &self.excluded,
        )
    }
}

impl Filter for KeywordFilter {
    open spec fn accepts(&self, product: ProductView) -> bool {
        self.accepts_title(lowercased(product.title))
    }

    open spec fn description_text(&self) -> Seq<char> {
        let must = "Must contain: "@ + joined(views(self.required@), ", "@);
        let must_not = "Must not contain: "@ + joined(views(self.excluded@), ", "@);
        if self.required@.len() > 0 && self.excluded@.len() > 0 {
            must + "; "@ + must_not
        } else if self.required@.len() > 0 {
            must
        } else if self.excluded@.len() > 0 {
            must_not
        } else {
            "Keywords: any"@
        }
    }

    fn matches(&self, product: &Product) -> (r: bool) {
        let title = product.title.as_str().to_lowercase();
        self.matches_title(title.as_str())
    }

    fn description(&self) -> (r: String) {
        if self.required.len() == 0 && self.excluded.len() == 0 {
            return "Keywords: any".to_owned();
        }
        let mut text = String::new();
        if self.required.len() > 0 {
            text.append("Must contain: ");
            text.append(join(&self.required, ", ").as_str());
        }
        if self.excluded.len() > 0 {
            if self.required.len() > 0 {
                text.append("; ");
            }
            text.append("Must not contain: ");
            text.append(join(&self.excluded, ", ").as_str());
        }
        assert(text@ == self.description_text());
        text
    }
}

} // verus!
