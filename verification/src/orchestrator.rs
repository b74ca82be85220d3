//! The campaign orchestrator: plans one issue from the incoming event,
//! then drives the strictly-forward campaign-creation sequence as a state
//! machine. Every decision — slot computation, content rotation, link
//! triage, subject line, slug, dry-run short-circuit, draft-vs-scheduled
//! branching, status-dependent test delivery — is made here and verified;
//! the I/O layer only performs the action each step asks for and hands
//! back what the collaborator returned.

use vstd::prelude::*;

use crate::email::{CampaignRecord, CreateEmailRequest, SendDraftRequest};
use crate::errors::IssueError;
use crate::links::classify_links;
use crate::links::secondary_end;
use crate::model::{clone_link_vec, clone_string_vec, Event, Link};
use crate::model::{Book, Quote, Sponsor};
use crate::render::{build_render_context, is_newsletter_context, RenderContext};
use crate::rotation::{extra_content_title_table, generate_extra_content_title, pick,
    subject_emoji_table};
use crate::schedule::{
    format_rfc3339_utc, next_slot_after, next_weekday_slot, parse_timestamp, parse_utc_timestamp,
    rfc3339_utc, FORMAT_RANGE, MONDAY, SEND_HOUR,
};
use crate::text::{comma_joined, decimal_of, slug_of, slugify, u32_to_string};

verus! {

/// The subject line of an issue: rotated emoji, the primary link's
/// title, and the series name with the issue number.
pub open spec fn subject_line_of(n: u32, primary_title: Seq<char>) -> Seq<char> {
    pick(subject_emoji_table(), n as nat) + " "@ + primary_title + " — FullStack Bulletin #"@
        + decimal_of(n as nat)
}

/// Builds the subject line; see [`subject_line_of`].
pub fn build_subject_line(n: u32, primary_title: &str) -> (r: String)
    ensures
        r@ == subject_line_of(n, primary_title@),
{
    let mut s = crate::rotation::pick_subject_emoji(n);
    s.append(" ");
    s.append(primary_title);
    s.append(" — FullStack Bulletin #");
    let digits = u32_to_string(n);
    s.append(digits.as_str());
    s
}

/// The slug of an issue: the issue number, a hyphen, and the slug body
/// derived from the primary link's title.
pub open spec fn issue_slug_of(n: u32, primary_title: Seq<char>) -> Seq<char> {
    decimal_of(n as nat) + "-"@ + slug_of(primary_title)
}

/// Builds the slug; see [`issue_slug_of`].
pub fn build_issue_slug(n: u32, primary_title: &str) -> (r: String)
    ensures
        r@ == issue_slug_of(n, primary_title@),
{
    let mut s = u32_to_string(n);
    s.append("-");
    let body = slugify(primary_title);
    s.append(body.as_str());
    s
}

/// The internal campaign name of an issue.
pub open spec fn campaign_name_of(n: u32) -> Seq<char> {
    "fullstackBulletin-"@ + decimal_of(n as nat)
}

/// Builds the campaign name; see [`campaign_name_of`].
pub fn build_campaign_name(n: u32) -> (r: String)
    ensures
        r@ == campaign_name_of(n),
{
    let mut s = String::from_str("fullstackBulletin-");
    let digits = u32_to_string(n);
    s.append(digits.as_str());
    s
}

/// The preview text of an issue: the titles of every link after the
/// primary one, comma-separated.
pub open spec fn preview_text_of(links: Seq<Link>) -> Seq<char> {
    if links.len() == 0 {
        Seq::empty()
    } else {
        comma_joined(links.skip(1).map_values(|l: Link| l.title@))
    }
}

/// Builds the preview text; see [`preview_text_of`].
pub fn build_preview_text(links: &Vec<Link>) -> (r: String)
    ensures
        r@ == preview_text_of(links@),
{
    let mut out = String::new();
    if links.len() <= 1 {
        return out;
    }
    let ghost titles = links@.skip(1).map_values(|l: Link| l.title@);
    let len = links.len();
    let mut i: usize = 1;
    while i < len
        invariant
            1 <= i <= len,
            2 <= len == links@.len(),
            titles == links@.skip(1).map_values(|l: Link| l.title@),
            titles.len() == len - 1,
            i == 1 ==> out@.len() == 0,
            1 < i < len ==> comma_joined(titles) == out@ + ", "@ + comma_joined(
                titles.skip(i - 1),
            ),
            i == len ==> out@ == comma_joined(titles),
        decreases len - i,
    {
        let ghost k = (i - 1) as int;
        let ghost before = out@;
        proof {
            assert(titles[k] == links@.skip(1)[k].title@);
            assert(links@.skip(1)[k] == links@[k + 1]);
            assert(titles.skip(k)[0] == titles[k]);
            assert(titles.skip(k).skip(1) =~= titles.skip(k + 1));
        }
        if i > 1 {
            out.append(", ");
            proof {
                reveal_strlit(", ");
            }
        }
        out.append(links[i].title.as_str());
        proof {
            if i == 1 {
                assert(out@ =~= titles[0]);
                assert(titles.skip(0) =~= titles);
                if i + 1 < len {
                    assert(comma_joined(titles) == titles[0] + ", "@ + comma_joined(
                        titles.skip(1),
                    ));
                    assert(comma_joined(titles) =~= out@ + ", "@ + comma_joined(titles.skip(1)));
                } else {
                    assert(titles.len() == 1);
                    assert(comma_joined(titles) == titles[0]);
                }
            } else {
                assert(out@ =~= before + ", "@ + titles[k]);
                if i + 1 < len {
                    assert(titles.skip(k).len() > 1);
                    assert(comma_joined(titles.skip(k)) == titles[k] + ", "@ + comma_joined(
                        titles.skip(k + 1),
                    ));
                    assert(before + ", "@ + (titles[k] + ", "@ + comma_joined(titles.skip(k + 1)))
                        =~= out@ + ", "@ + comma_joined(titles.skip(k + 1)));
                } else {
                    assert(titles.skip(k).len() == 1);
                    assert(comma_joined(titles.skip(k)) == titles.skip(k)[0]);
                    assert(before + ", "@ + titles[k] =~= out@);
                }
            }
        }
        i += 1;
    }
    out
}

/// Deployment settings the I/O layer reads from its environment and
/// hands in unchanged: list identity, sender identity, and the fixed
/// test-recipient set.
pub struct EnvSettings {
    pub list_id: String,
    pub from_email: String,
    pub from_name: String,
    pub reply_to: String,
    pub test_emails: Vec<String>,
}

/// The settings block of one campaign, echoed in the invocation output.
pub struct CampaignSettings {
    pub list_id: String,
    pub from_email: String,
    pub from_name: String,
    pub reply_to: String,
    pub campaign_name: String,
    pub subject_line: String,
    pub preview_text: String,
    pub schedule_time: String,
    pub test_emails: Vec<String>,
}

/// Everything decided about one issue before any collaborator is
/// contacted: the schedule, the render context, the subject line, the
/// slug, and the settings block.
pub struct CampaignPlan {
    pub issue_number: u32,
    pub dry_run: bool,
    pub quote: Quote,
    pub book: Book,
    pub links: Vec<Link>,
    pub sponsor: Sponsor,
    pub context: RenderContext,
    pub settings: CampaignSettings,
    pub slug: String,
    pub schedule_seconds: i64,
}

/// What a correctly computed plan holds, given the event, the settings
/// and the parsed reference timestamp.
pub open spec fn plan_matches(plan: CampaignPlan, event: Event, env: EnvSettings, ts: int) -> bool {
    let n = event.next_issue.number;
    let links = event.data.links@;
    let slot = next_slot_after(ts, MONDAY as int, SEND_HOUR as int);
    &&& plan.issue_number == n
    &&& plan.dry_run == event.config.dry_run
    &&& plan.quote == event.data.quote
    &&& plan.book == event.data.book
    &&& plan.links@ == links
    &&& plan.sponsor == event.data.sponsor
    &&& plan.schedule_seconds == slot
    &&& plan.slug@ == issue_slug_of(n, links[0].title@)
    &&& plan.settings.list_id == env.list_id
    &&& plan.settings.from_email == env.from_email
    &&& plan.settings.from_name == env.from_name
    &&& plan.settings.reply_to == env.reply_to
    &&& plan.settings.test_emails@ == env.test_emails@
    &&& plan.settings.campaign_name@ == campaign_name_of(n)
    &&& plan.settings.subject_line@ == subject_line_of(n, links[0].title@)
    &&& plan.settings.preview_text@ == preview_text_of(links)
    &&& plan.settings.schedule_time@ == rfc3339_utc(slot)
    &&& is_newsletter_context(
        plan.context,
        n,
        event.data.quote,
        event.data.book,
        links[0],
        links.subrange(1, secondary_end(links.len())),
        if links.len() > 7 {
            links.subrange(7, links.len() as int)
        } else {
            Seq::<Link>::empty()
        },
        pick(extra_content_title_table(), n as nat),
        Some(event.data.sponsor),
    )
}

/// Plans one issue: parses the event's declared reference time, computes
/// the send slot by the next-occurrence rule, classifies the links,
/// assembles the render context and derives subject line, slug, preview
/// text and campaign name. Fails with `ParseError` when the reference
/// time does not parse (or lands outside the formatter's calendar
/// window), and with `EmptyLinkList` when no primary link exists.
pub fn plan_campaign(event: &Event, env: &EnvSettings) -> (r: Result<CampaignPlan, IssueError>)
    ensures
        match parse_utc_timestamp(event.config.time@) {
            None => r matches Err(e) && e is ParseError,
            Some(ts) => {
                let slot = next_slot_after(ts, MONDAY as int, SEND_HOUR as int);
                if !(-FORMAT_RANGE <= slot <= FORMAT_RANGE) {
                    r matches Err(e) && e is ParseError
                } else if event.data.links@.len() == 0 {
                    r matches Err(e) && e is EmptyLinkList
                } else {
                    r matches Ok(plan) && plan_matches(plan, *event, *env, ts)
                }
            },
        },
{
    let ts = match parse_timestamp(event.config.time.as_str()) {
        Some(t) => t,
        None => {
            return Err(IssueError::ParseError);
        },
    };
    let slot = next_weekday_slot(ts, MONDAY, SEND_HOUR);
    if slot < -FORMAT_RANGE || slot > FORMAT_RANGE {
        return Err(IssueError::ParseError);
    }
    let schedule_time = format_rfc3339_utc(slot).unwrap();
    let classified = match classify_links(&event.data.links) {
        Ok(c) => c,
        Err(e) => {
            return Err(e);
        },
    };
    let n = event.next_issue.number;
    let extra_title = generate_extra_content_title(n);
    let context = build_render_context(
        n,
        &event.data.quote,
        &event.data.book,
        &classified.primary,
        &classified.secondary,
        &classified.extra,
        extra_title.as_str(),
        Some(&event.data.sponsor),
    );
    let subject_line = build_subject_line(n, classified.primary.title.as_str());
    let slug = build_issue_slug(n, classified.primary.title.as_str());
    let preview_text = build_preview_text(&event.data.links);
    let campaign_name = build_campaign_name(n);
    let settings = CampaignSettings {
        list_id: env.list_id.clone(),
        from_email: env.from_email.clone(),
        from_name: env.from_name.clone(),
        reply_to: env.reply_to.clone(),
        campaign_name,
        subject_line,
        preview_text,
        schedule_time,
        test_emails: clone_string_vec(&env.test_emails),
    };
    Ok(
        CampaignPlan {
            issue_number: n,
            dry_run: event.config.dry_run,
            quote: event.data.quote.clone(),
            book: event.data.book.clone(),
            links: clone_link_vec(&event.data.links),
            sponsor: event.data.sponsor.clone(),
            context,
            settings,
            slug,
            schedule_seconds: slot,
        },
    )
}

/// How the test delivery of one invocation ended.
pub enum TestSendOutcome {
    /// No test delivery was attempted (dry run).
    NotAttempted,
    /// The created message was a draft and was sent to the test recipients.
    Sent,
    /// The created message was already scheduled; the service cannot
    /// test-send a scheduled message, so the step was skipped.
    UnsupportedForScheduled,
    /// The created record carried a status this core does not know; the
    /// test delivery was skipped with a warning, without failing.
    UnknownStatus(String),
}

/// The result of one invocation: the content it was assembled from, the
/// subject line, the rendered document, and — outside a dry run — the
/// identity of the created message and how the test delivery ended.
pub struct IssueOutput {
    pub quote: Quote,
    pub book: Book,
    pub links: Vec<Link>,
    pub sponsor: Sponsor,
    pub settings: CampaignSettings,
    pub subject_line: String,
    pub rendered_content: String,
    pub campaign_id: Option<String>,
    pub email_id: Option<String>,
    pub dry_run: bool,
    pub test_send: TestSendOutcome,
}

/// What the output of a dry run holds: all assembled content, no message
/// identity, no test delivery.
pub open spec fn dry_output_matches(output: IssueOutput, plan: CampaignPlan, body: Seq<char>) -> bool {
    &&& output.quote == plan.quote
    &&& output.book == plan.book
    &&& output.links@ == plan.links@
    &&& output.sponsor == plan.sponsor
    &&& output.settings == plan.settings
    &&& output.subject_line == plan.settings.subject_line
    &&& output.rendered_content@ == body
    &&& output.campaign_id is None
    &&& output.email_id is None
    &&& output.dry_run
    &&& output.test_send is NotAttempted
}

/// What the output of a completed non-dry run holds: all assembled
/// content, the created record's id as both campaign and email identity,
/// and the given test-delivery outcome.
pub open spec fn full_output_matches(
    output: IssueOutput,
    plan: CampaignPlan,
    body: Seq<char>,
    record: CampaignRecord,
    outcome: TestSendOutcome,
) -> bool {
    &&& output.quote == plan.quote
    &&& output.book == plan.book
    &&& output.links@ == plan.links@
    &&& output.sponsor == plan.sponsor
    &&& output.settings == plan.settings
    &&& output.subject_line == plan.settings.subject_line
    &&& output.rendered_content@ == body
    &&& output.campaign_id matches Some(id) && id == record.id
    &&& output.email_id matches Some(id) && id == record.id
    &&& !output.dry_run
    &&& output.test_send == outcome
}

/// The states of the campaign-creation sequence, strictly forward.
pub enum OrchestratorState {
    /// The plan is computed; the document must be rendered next.
    AwaitingRender { plan: CampaignPlan },
    /// The document is rendered; the email must be created next.
    AwaitingEmail { plan: CampaignPlan, body: String },
    /// The email was created as a draft; a test delivery is under way.
    AwaitingTestSend { output: IssueOutput },
    /// The invocation is finished; the output is ready.
    Complete { output: IssueOutput },
}

/// What a collaborator handed back, driving the next step.
pub enum StepEvent {
    /// The template collaborator rendered the document.
    Rendered(String),
    /// The email service created a message and returned its record.
    EmailCreated(CampaignRecord),
    /// The email service delivered the test copy of the draft.
    DraftSent,
}

/// What the I/O layer must do next.
pub enum OrchestratorAction {
    /// Render the newsletter template over the plan's context.
    RenderDocument,
    /// Create the outbound email described by the request.
    CreateEmail(CreateEmailRequest),
    /// Deliver a test copy of the created draft.
    SendTestEmail { email_id: String, request: SendDraftRequest },
    /// Nothing remains; read the output from the `Complete` state.
    Finish,
}

/// Actions that contact the email-service collaborator.
pub open spec fn is_email_action(a: OrchestratorAction) -> bool {
    a is CreateEmail || a is SendTestEmail
}

/// Which event each state is waiting for; the machine never moves
/// backwards and a completed invocation accepts nothing further.
pub open spec fn accepts(state: OrchestratorState, event: StepEvent) -> bool {
    match state {
        OrchestratorState::AwaitingRender { .. } => event is Rendered,
        OrchestratorState::AwaitingEmail { .. } => event is EmailCreated,
        OrchestratorState::AwaitingTestSend { .. } => event is DraftSent,
        OrchestratorState::Complete { .. } => false,
    }
}

/// States of a dry-run invocation: once a state is dry, every later
/// state is dry too, and no step out of it contacts the email service.
pub open spec fn is_dry_state(state: OrchestratorState) -> bool {
    match state {
        OrchestratorState::AwaitingRender { plan } => plan.dry_run,
        OrchestratorState::AwaitingEmail { .. } => false,
        OrchestratorState::AwaitingTestSend { output } => output.dry_run,
        OrchestratorState::Complete { output } => output.dry_run,
    }
}

/// Starts one invocation: plans the campaign and asks for the document
/// to be rendered. Fails exactly as [`plan_campaign`] does; the first
/// action is never an email-service call, dry run or not.
pub fn start_campaign(event: &Event, env: &EnvSettings) -> (r: Result<
    (OrchestratorState, OrchestratorAction),
    IssueError,
>)
    ensures
        r matches Ok(p) && p.1 is RenderDocument || r is Err,
        r matches Ok(p) ==> !is_email_action(p.1),
        match parse_utc_timestamp(event.config.time@) {
            None => r matches Err(e) && e is ParseError,
            Some(ts) => {
                let slot = next_slot_after(ts, MONDAY as int, SEND_HOUR as int);
                if !(-FORMAT_RANGE <= slot <= FORMAT_RANGE) {
                    r matches Err(e) && e is ParseError
                } else if event.data.links@.len() == 0 {
                    r matches Err(e) && e is EmptyLinkList
                } else {
                    r matches Ok(p) && p.0 matches OrchestratorState::AwaitingRender { plan }
                        && plan_matches(plan, *event, *env, ts) && (is_dry_state(p.0)
                        <==> event.config.dry_run)
                }
            },
        },
{
    let plan = plan_campaign(event, env)?;
    Ok((OrchestratorState::AwaitingRender { plan }, OrchestratorAction::RenderDocument))
}

/// Advances the campaign sequence by one step.
///
/// From `AwaitingRender`, a dry run completes at once with the dry-run
/// output — the email service is never contacted — while a live run asks
/// for a scheduled email carrying the subject line, the rendered body,
/// the slot and the slug. From `AwaitingEmail`, the created record's
/// status decides the test delivery: `draft` asks for exactly one test
/// delivery to the configured recipients, `scheduled` skips it (the
/// service cannot test-send a scheduled message), and any other status
/// skips it with a warning, without failing. From `AwaitingTestSend`,
/// the confirmed delivery completes the invocation. A dry state only
/// ever steps to a dry state, and never through an email action.
pub fn step_campaign(state: OrchestratorState, event: StepEvent) -> (r: (
    OrchestratorState,
    OrchestratorAction,
))
    requires
        accepts(state, event),
    ensures
        state matches OrchestratorState::AwaitingRender { plan } ==> (event
            matches StepEvent::Rendered(body) ==> if plan.dry_run {
            &&& r.1 is Finish
            &&& r.0 matches OrchestratorState::Complete { output } && dry_output_matches(
                output,
                plan,
                body@,
            )
        } else {
            &&& r.0 matches OrchestratorState::AwaitingEmail { plan: p, body: b } && p == plan && b
                == body
            &&& r.1 matches OrchestratorAction::CreateEmail(req) && req.subject
                == plan.settings.subject_line && req.body == Some(body) && (req.status
                matches Some(s) && s@ == "scheduled"@) && req.publish_date == Some(
                plan.settings.schedule_time,
            ) && req.slug == Some(plan.slug)
        }),
        state matches OrchestratorState::AwaitingEmail { plan, body } ==> (event
            matches StepEvent::EmailCreated(record) ==> if record.status@ == "draft"@ {
            &&& r.0 matches OrchestratorState::AwaitingTestSend { output } && full_output_matches(
                output,
                plan,
                body@,
                record,
                TestSendOutcome::Sent,
            )
            &&& r.1 matches OrchestratorAction::SendTestEmail { email_id, request } && email_id
                == record.id && request.subscribers is None && (request.recipients matches Some(rec)
                && rec@ == plan.settings.test_emails@)
        } else if record.status@ == "scheduled"@ {
            &&& r.1 is Finish
            &&& r.0 matches OrchestratorState::Complete { output } && full_output_matches(
                output,
                plan,
                body@,
                record,
                TestSendOutcome::UnsupportedForScheduled,
            )
        } else {
            &&& r.1 is Finish
            &&& r.0 matches OrchestratorState::Complete { output } && full_output_matches(
                output,
                plan,
                body@,
                record,
                TestSendOutcome::UnknownStatus(record.status),
            )
        }),
        state matches OrchestratorState::AwaitingTestSend { output: ready } ==> (event
            matches StepEvent::DraftSent ==> {
            &&& r.1 is Finish
            &&& r.0 matches OrchestratorState::Complete { output: o } && o == ready
        }),
        is_dry_state(state) ==> is_dry_state(r.0) && !is_email_action(r.1),
{
    match (state, event) {
        (OrchestratorState::AwaitingRender { plan }, StepEvent::Rendered(body)) => {
            if plan.dry_run {
                let output = IssueOutput {
                    quote: plan.quote,
                    book: plan.book,
                    links: plan.links,
                    sponsor: plan.sponsor,
                    subject_line: plan.settings.subject_line.clone(),
                    settings: plan.settings,
                    rendered_content: body,
                    campaign_id: None,
                    email_id: None,
                    dry_run: true,
                    test_send: TestSendOutcome::NotAttempted,
                };
                (OrchestratorState::Complete { output }, OrchestratorAction::Finish)
            } else {
                let req = CreateEmailRequest::scheduled_request(
                    plan.settings.subject_line.clone(),
                    body.clone(),
                    plan.settings.schedule_time.clone(),
                    plan.slug.clone(),
                );
                (
                    OrchestratorState::AwaitingEmail { plan, body },
                    OrchestratorAction::CreateEmail(req),
                )
            }
        },
        (OrchestratorState::AwaitingEmail { plan, body }, StepEvent::EmailCreated(record)) => {
            let is_draft = record.status == String::from_str("draft");
            let is_scheduled = record.status == String::from_str("scheduled");
            let recipients = clone_string_vec(&plan.settings.test_emails);
            let record_id = record.id.clone();
            let outcome = if is_draft {
                TestSendOutcome::Sent
            } else if is_scheduled {
                TestSendOutcome::UnsupportedForScheduled
            } else {
                TestSendOutcome::UnknownStatus(record.status.clone())
            };
            let output = IssueOutput {
                quote: plan.quote,
                book: plan.book,
                links: plan.links,
                sponsor: plan.sponsor,
                subject_line: plan.settings.subject_line.clone(),
                settings: plan.settings,
                rendered_content: body,
                campaign_id: Some(record.id.clone()),
                email_id: Some(record.id),
                dry_run: false,
                test_send: outcome,
            };
            if is_draft {
                (
                    OrchestratorState::AwaitingTestSend { output },
                    OrchestratorAction::SendTestEmail {
                        email_id: record_id,
                        request: SendDraftRequest::to_recipients(recipients),
                    },
                )
            } else {
                (OrchestratorState::Complete { output }, OrchestratorAction::Finish)
            }
        },
        (OrchestratorState::AwaitingTestSend { output }, StepEvent::DraftSent) => {
            (OrchestratorState::Complete { output }, OrchestratorAction::Finish)
        },
        // unreachable under `accepts`: each state pairs with one event,
        // and a completed machine takes no further events
        (s, _) => (s, OrchestratorAction::Finish),
    }
}

} // verus!
