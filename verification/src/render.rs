//! Assembly of the render context handed to the template collaborator.
//!
//! The context is the one structured value the newsletter template is
//! filled from: issue number, all rotated strings, quote, book, the
//! classified links each paired with its action label, an optional
//! sponsor block, and an extra-links section present exactly when links
//! overflow the secondary tier. The text substitution itself is the
//! collaborator's job and happens outside this crate; everything decided
//! here — which fields exist and what they hold — is verified.

use vstd::prelude::*;

use crate::links::{action_text_of, EnhancedLink};
use crate::model::{clone_link_vec, Book, Link, Quote, Sponsor};
use crate::rotation::{
    closing_message_table, closing_title_table, generate_closing_message, generate_closing_title,
    generate_greeting, generate_intro_closing, greeting_table, intro_closing_table, pick,
};

verus! {

/// The overflow-links section, present only when links exist beyond the
/// secondary tier.
pub struct ExtraSection {
    pub links: Vec<Link>,
    pub title: String,
}

/// The complete render context of one issue.
pub struct RenderContext {
    pub issue_number: u32,
    pub quote: Quote,
    pub book: Book,
    pub primary_link: EnhancedLink,
    pub secondary_links: Vec<EnhancedLink>,
    pub extra: Option<ExtraSection>,
    pub sponsor: Option<Sponsor>,
    pub greeting: String,
    pub intro_closing: String,
    pub closing_title: String,
    pub closing_message: String,
}

/// What a correctly assembled context holds, given the issue number, the
/// content records and the already-classified links.
pub open spec fn is_newsletter_context(
    ctx: RenderContext,
    issue_number: u32,
    quote: Quote,
    book: Book,
    primary_link: Link,
    secondary_links: Seq<Link>,
    extra_links: Seq<Link>,
    extra_content_title: Seq<char>,
    sponsor: Option<Sponsor>,
) -> bool {
    &&& ctx.issue_number == issue_number
    &&& ctx.quote == quote
    &&& ctx.book == book
    &&& ctx.primary_link.link == primary_link
    &&& ctx.primary_link.wf()
    &&& ctx.secondary_links@.len() == secondary_links.len()
    &&& forall|i: int|
        0 <= i < secondary_links.len() ==> (#[trigger] ctx.secondary_links@[i]).link
            == secondary_links[i] && ctx.secondary_links@[i].wf()
    &&& if extra_links.len() == 0 {
        ctx.extra is None
    } else {
        ctx.extra matches Some(e) && e.links@ == extra_links && e.title@ == extra_content_title
    }
    &&& ctx.sponsor == sponsor
    &&& ctx.greeting@ == pick(greeting_table(), issue_number as nat)
    &&& ctx.intro_closing@ == pick(intro_closing_table(), issue_number as nat)
    &&& ctx.closing_title@ == pick(closing_title_table(), issue_number as nat)
    &&& ctx.closing_message@ == pick(closing_message_table(), issue_number as nat)
}

/// Builds the render context of an issue from its parts: every link is
/// paired with its action label, the extra section appears exactly when
/// overflow links exist, the sponsor block exactly when a sponsor was
/// given, and all rotated strings are selected by the issue number.
pub fn build_render_context(
    issue_number: u32,
    quote: &Quote,
    book: &Book,
    primary_link: &Link,
    secondary_links: &Vec<Link>,
    extra_links: &Vec<Link>,
    extra_content_title: &str,
    sponsor: Option<&Sponsor>,
) -> (r: RenderContext)
    ensures
        is_newsletter_context(
            r,
            issue_number,
            *quote,
            *book,
            *primary_link,
            secondary_links@,
            extra_links@,
            extra_content_title@,
            match sponsor {
                Some(s) => Some(*s),
                None => None,
            },
        ),
{
    let enhanced_primary = EnhancedLink::new(primary_link.clone());
    let mut enhanced_secondary: Vec<EnhancedLink> = Vec::new();
    let mut i: usize = 0;
    while i < secondary_links.len()
        invariant
            i <= secondary_links@.len(),
            enhanced_secondary@.len() == i,
            forall|k: int|
                0 <= k < i ==> (#[trigger] enhanced_secondary@[k]).link == secondary_links@[k]
                    && enhanced_secondary@[k].wf(),
        decreases secondary_links@.len() - i,
    {
        enhanced_secondary.push(EnhancedLink::new(secondary_links[i].clone()));
        i += 1;
    }
    let extra = if extra_links.len() > 0 {
        Some(
            ExtraSection {
                links: clone_link_vec(extra_links),
                title: String::from_str(extra_content_title),
            },
        )
    } else {
        None
    };
    RenderContext {
        issue_number,
        quote: quote.clone(),
        book: book.clone(),
        primary_link: enhanced_primary,
        secondary_links: enhanced_secondary,
        extra,
        sponsor: match sponsor {
            Some(s) => Some(s.clone()),
            None => None,
        },
        greeting: generate_greeting(issue_number),
        intro_closing: generate_intro_closing(issue_number),
        closing_title: generate_closing_title(issue_number),
        closing_message: generate_closing_message(issue_number),
    }
}

/// Handle of the template collaborator. The substitution engine itself
/// is outside this crate; this type owns the verified context assembly.
pub struct TemplateRenderer;

impl TemplateRenderer {
    /// Creating the renderer never fails.
    pub fn new() -> (r: Result<TemplateRenderer, crate::errors::IssueError>)
        ensures
            r is Ok,
    {
        Ok(TemplateRenderer)
    }

    /// Assembles the render context an issue is rendered from; see
    /// [`build_render_context`].
    pub fn newsletter_context(
        &self,
        issue_number: u32,
        quote: &Quote,
        book: &Book,
        primary_link: &Link,
        secondary_links: &Vec<Link>,
        extra_links: &Vec<Link>,
        extra_content_title: &str,
        sponsor: Option<&Sponsor>,
    ) -> (r: RenderContext)
        ensures
            is_newsletter_context(
                r,
                issue_number,
                *quote,
                *book,
                *primary_link,
                secondary_links@,
                extra_links@,
                extra_content_title@,
                match sponsor {
                    Some(s) => Some(*s),
                    None => None,
                },
            ),
    {
        build_render_context(
            issue_number,
            quote,
            book,
            primary_link,
            secondary_links,
            extra_links,
            extra_content_title,
            sponsor,
        )
    }
}

} // verus!
