//! The quote records fetched from the static quote collection, the
//! shape they are published in, and the deterministic parts of picking
//! one: which index to draw and which URLs to read.

use vstd::prelude::*;

use crate::text::decimal_of;
use crate::text::u32_to_string;

verus! {

/// The collection's statistics record: how many quotes exist and where
/// they live.
pub struct Stats {
    pub total: u32,
    pub all: String,
    pub first: String,
    pub last: String,
    pub url_prefix: String,
}

/// An author as the collection stores it.
pub struct Author {
    pub id: String,
    pub name: String,
    pub description: String,
    pub wiki: Option<String>,
    pub url: String,
}

/// A quote as the collection stores it.
pub struct InputQuote {
    pub id: u32,
    pub text: String,
    pub author: Author,
    pub url: String,
}

/// A quote as this system publishes it: the author flattened to name,
/// description and an optional wiki link.
pub struct Quote {
    pub id: u32,
    pub text: String,
    pub author: String,
    pub author_description: String,
    pub author_url: Option<String>,
}

impl From<InputQuote> for Quote {
    /// Flattens a stored quote: the author's name, description and wiki
    /// link are lifted into the published record.
    fn from(input: InputQuote) -> (r: Quote) {
        Quote {
            id: input.id,
            text: input.text,
            author: input.author.name,
            author_description: input.author.description,
            author_url: input.author.wiki,
        }
    }
}

impl vstd::std_specs::convert::FromSpecImpl<InputQuote> for Quote {
    open spec fn obeys_from_spec() -> bool {
        true
    }

    open spec fn from_spec(input: InputQuote) -> Quote {
        Quote {
            id: input.id,
            text: input.text,
            author: input.author.name,
            author_description: input.author.description,
            author_url: input.author.wiki,
        }
    }
}

/// Relies on rand's `random_range`: the drawn value lies in the given
/// half-open range; the range must be non-empty or the call panics.
#[verifier::external_body]
fn random_below(n: u32) -> (r: u32)
    requires
        n > 0,
    ensures
        r < n,
{
    rand::random_range(0..n)
}

/// Picks the index of the quote to fetch: a uniformly drawn index below
/// the collection's total, or nothing when the collection is empty.
pub fn pick_quote_index(stats: &Stats) -> (r: Option<u32>)
    ensures
        stats.total > 0 <==> r is Some,
        r matches Some(i) ==> i < stats.total,
{
    if stats.total > 0 {
        Some(random_below(stats.total))
    } else {
        None
    }
}

/// The URL of the collection's statistics record.
pub open spec fn stats_url_of(base: Seq<char>) -> Seq<char> {
    base + "/quotes/stats.json"@
}

/// Builds the statistics URL; see [`stats_url_of`].
pub fn stats_url(base_url: &str) -> (r: String)
    ensures
        r@ == stats_url_of(base_url@),
{
    let mut s = String::from_str(base_url);
    s.append("/quotes/stats.json");
    s
}

/// The URL of the quote with the given index.
pub open spec fn quote_url_of(base: Seq<char>, index: u32) -> Seq<char> {
    base + "/quotes/"@ + decimal_of(index as nat) + ".json"@
}

/// Builds a quote URL; see [`quote_url_of`].
pub fn quote_url(base_url: &str, index: u32) -> (r: String)
    ensures
        r@ == quote_url_of(base_url@, index),
{
    let mut s = String::from_str(base_url);
    s.append("/quotes/");
    let digits = u32_to_string(index);
    s.append(digits.as_str());
    s.append(".json");
    s
}

} // verus!
