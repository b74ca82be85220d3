//! Link triage: the per-link action label and the partition of a ranked
//! link list into primary, secondary and extra tiers.

use vstd::prelude::*;

use crate::model::Link;
use crate::text::{contains_seq, contains_str};

verus! {

/// Action label chosen for a URL: the first matching rule wins, so a URL
/// mentioning both a repository host and a video host is labelled as a
/// repository.
pub open spec fn action_text_of(url: Seq<char>) -> Seq<char> {
    if contains_seq(url, "github.com"@) {
        "Check Repo"@
    } else if contains_seq(url, "youtube.com"@) || contains_seq(url, "youtu.be"@) {
        "Watch Video"@
    } else {
        "Read Article"@
    }
}

/// A URL that mentions the repository host is always labelled as a
/// repository, whatever else it mentions: the rules are ordered.
pub proof fn lemma_first_rule_wins(url: Seq<char>)
    requires
        contains_seq(url, "github.com"@),
    ensures
        action_text_of(url) == "Check Repo"@,
{
}

/// Generate appropriate action text based on the URL.
pub fn get_link_action_text(url: &str) -> (r: &'static str)
    ensures
        r@ == action_text_of(url@),
{
    if contains_str(url, "github.com") {
        "Check Repo"
    } else if contains_str(url, "youtube.com") || contains_str(url, "youtu.be") {
        "Watch Video"
    } else {
        "Read Article"
    }
}

/// A link paired with the action label derived from its URL.
pub struct EnhancedLink {
    pub link: Link,
    pub action_text: &'static str,
}

impl Clone for EnhancedLink {
    fn clone(&self) -> (r: Self)
        ensures
            r == *self,
    {
        EnhancedLink { link: self.link.clone(), action_text: self.action_text }
    }
}

impl EnhancedLink {
    /// The label matches the link's URL.
    pub open spec fn wf(&self) -> bool {
        self.action_text@ == action_text_of(self.link.url@)
    }

    /// Pairs a link with its action label.
    pub fn new(link: Link) -> (r: EnhancedLink)
        ensures
            r.link == link,
            r.wf(),
    {
        let action_text = get_link_action_text(link.url.as_str());
        EnhancedLink { link, action_text }
    }
}

/// The three tiers of a ranked link list.
pub struct ClassifiedLinks {
    pub primary: Link,
    pub secondary: Vec<Link>,
    pub extra: Vec<Link>,
}

/// How a ranked list of length `len` is cut: the secondary tier ends
/// before position 7, and the extra tier starts exactly at position 7.
pub open spec fn secondary_end(len: nat) -> int {
    if len < 7 {
        len as int
    } else {
        7
    }
}

/// Partitions a ranked link list: the first element is the primary link,
/// the next six at most are the secondary tier, and everything from
/// position 7 onward is the extra tier. An empty list is a hard error,
/// not a degraded-content case.
pub fn classify_links(links: &Vec<Link>) -> (r: Result<ClassifiedLinks, crate::errors::IssueError>)
    ensures
        links@.len() == 0 <==> r is Err,
        r is Err ==> r->Err_0 is EmptyLinkList,
        r is Ok ==> {
            let c = r->Ok_0;
            &&& c.primary == links@[0]
            &&& c.secondary@ == links@.subrange(1, secondary_end(links@.len()))
            &&& c.extra@ == if links@.len() > 7 {
                links@.subrange(7, links@.len() as int)
            } else {
                Seq::<Link>::empty()
            }
        },
{
    if links.len() == 0 {
        return Err(crate::errors::IssueError::EmptyLinkList);
    }
    let primary = links[0].clone();
    let sec_end: usize = if links.len() < 7 {
        links.len()
    } else {
        7
    };
    let mut secondary: Vec<Link> = Vec::new();
    let mut i: usize = 1;
    while i < sec_end
        invariant
            1 <= i <= sec_end,
            sec_end == secondary_end(links@.len()),
            sec_end <= links@.len(),
            secondary@ =~= links@.subrange(1, i as int),
        decreases sec_end - i,
    {
        secondary.push(links[i].clone());
        i += 1;
    }
    let mut extra: Vec<Link> = Vec::new();
    let mut j: usize = 7;
    while j < links.len()
        invariant
            7 <= j,
            j <= links@.len() || j == 7,
            extra@ =~= if j > 7 {
                links@.subrange(7, j as int)
            } else {
                Seq::<Link>::empty()
            },
        decreases links@.len() - j,
    {
        extra.push(links[j].clone());
        j += 1;
    }
    Ok(ClassifiedLinks { primary, secondary, extra })
}

} // verus!
