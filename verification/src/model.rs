//! The data carried by one invocation: the incoming event with its
//! configuration, and the content records (quote, book, sponsor, links)
//! that the issue is assembled from.
//!
//! `Clone` is written by hand throughout so that verified code knows a
//! clone equals its original.

use vstd::prelude::*;

verus! {

/// A quotation shown at the top of an issue.
pub struct Quote {
    pub id: u32,
    pub text: String,
    pub author: String,
    pub author_description: String,
    pub author_url: String,
}

impl Clone for Quote {
    fn clone(&self) -> (r: Self)
        ensures
            r == *self,
    {
        Quote {
            id: self.id,
            text: self.text.clone(),
            author: self.author.clone(),
            author_description: self.author_description.clone(),
            author_url: self.author_url.clone(),
        }
    }
}

/// Purchase links of the recommended book.
pub struct BookLinks {
    pub us: String,
    pub uk: String,
}

impl Clone for BookLinks {
    fn clone(&self) -> (r: Self)
        ensures
            r == *self,
    {
        BookLinks { us: self.us.clone(), uk: self.uk.clone() }
    }
}

/// The book recommendation of an issue.
pub struct Book {
    pub id: String,
    pub title: String,
    pub author: String,
    pub links: BookLinks,
    pub cover_picture: String,
    pub description: String,
}

impl Clone for Book {
    fn clone(&self) -> (r: Self)
        ensures
            r == *self,
    {
        Book {
            id: self.id.clone(),
            title: self.title.clone(),
            author: self.author.clone(),
            links: self.links.clone(),
            cover_picture: self.cover_picture.clone(),
            description: self.description.clone(),
        }
    }
}

/// The sponsor block of an issue.
pub struct Sponsor {
    pub banner_html: String,
    pub sponsored_article_html: String,
    pub customer: String,
}

impl Clone for Sponsor {
    fn clone(&self) -> (r: Self)
        ensures
            r == *self,
    {
        Sponsor {
            banner_html: self.banner_html.clone(),
            sponsored_article_html: self.sponsored_article_html.clone(),
            customer: self.customer.clone(),
        }
    }
}

/// Per-placement campaign-tracking variants of a link's URL.
pub struct CampaignUrls {
    pub title: String,
    pub image: String,
    pub description: String,
}

impl Clone for CampaignUrls {
    fn clone(&self) -> (r: Self)
        ensures
            r == *self,
    {
        CampaignUrls {
            title: self.title.clone(),
            image: self.image.clone(),
            description: self.description.clone(),
        }
    }
}

/// One ranked content link. Links arrive already ordered by relevance;
/// nothing here re-sorts them.
pub struct Link {
    pub title: String,
    pub url: String,
    pub description: String,
    pub image: Option<String>,
    pub score: u32,
    pub original_image: String,
    pub campaign_urls: CampaignUrls,
}

impl Clone for Link {
    fn clone(&self) -> (r: Self)
        ensures
            r == *self,
    {
        Link {
            title: self.title.clone(),
            url: self.url.clone(),
            description: self.description.clone(),
            image: clone_opt_string(&self.image),
            score: self.score,
            original_image: self.original_image.clone(),
            campaign_urls: self.campaign_urls.clone(),
        }
    }
}

/// Clones an optional string; the result equals the original.
pub fn clone_opt_string(s: &Option<String>) -> (r: Option<String>)
    ensures
        r == *s,
{
    match s {
        Some(v) => Some(v.clone()),
        None => None,
    }
}

/// Clones a vector of strings; the result equals the original.
pub fn clone_string_vec(v: &Vec<String>) -> (r: Vec<String>)
    ensures
        r@ == v@,
{
    let mut r: Vec<String> = Vec::new();
    let mut i: usize = 0;
    while i < v.len()
        invariant
            i <= v.len(),
            r@ =~= v@.subrange(0, i as int),
        decreases v.len() - i,
    {
        r.push(v[i].clone());
        i += 1;
    }
    proof {
        assert(v@.subrange(0, v@.len() as int) =~= v@);
    }
    r
}

/// Clones a vector of links; the result equals the original.
pub fn clone_link_vec(v: &Vec<Link>) -> (r: Vec<Link>)
    ensures
        r@ == v@,
{
    let mut r: Vec<Link> = Vec::new();
    let mut i: usize = 0;
    while i < v.len()
        invariant
            i <= v.len(),
            r@ =~= v@.subrange(0, i as int),
        decreases v.len() - i,
    {
        r.push(v[i].clone());
        i += 1;
    }
    proof {
        assert(v@.subrange(0, v@.len() as int) =~= v@);
    }
    r
}

/// An issue, named by its number alone: the shape in which other parts
/// of the pipeline hand an issue number around.
pub struct Issue {
    pub number: u32,
}

impl Clone for Issue {
    fn clone(&self) -> (r: Self)
        ensures
            r == *self,
    {
        Issue { number: self.number }
    }
}

/// The number of the issue being assembled.
pub struct NextIssue {
    pub number: u32,
}

impl Clone for NextIssue {
    fn clone(&self) -> (r: Self)
        ensures
            r == *self,
    {
        NextIssue { number: self.number }
    }
}

/// The upstream content an issue is assembled from.
pub struct Data {
    pub quote: Quote,
    pub book: Book,
    pub sponsor: Sponsor,
    pub links: Vec<Link>,
}

/// Invocation configuration taken from the triggering event. On the wire
/// the event also carries an opaque pass-through detail object; that part
/// never reaches the assembly logic and stays with the I/O layer.
pub struct Config {
    pub dry_run: bool,
    pub detail_type: String,
    pub resources: Vec<String>,
    pub id: String,
    pub source: String,
    pub time: String,
    pub region: String,
    pub version: String,
    pub account: String,
}

/// One incoming invocation event.
pub struct Event {
    pub config: Config,
    pub next_issue: NextIssue,
    pub data: Data,
}

} // verus!
