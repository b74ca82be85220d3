use fullstack_bulletin::email::CampaignRecord;
use fullstack_bulletin::errors::IssueError;
use fullstack_bulletin::model::{
    Book, BookLinks, CampaignUrls, Config, Data, Event, Link, NextIssue, Quote, Sponsor,
};
use fullstack_bulletin::orchestrator::{
    plan_campaign, start_campaign, step_campaign, EnvSettings, OrchestratorAction,
    OrchestratorState, StepEvent, TestSendOutcome,
};

fn mk_link(title: &str, url: &str) -> Link {
    Link {
        title: title.to_string(),
        url: url.to_string(),
        description: "desc".to_string(),
        image: None,
        score: 0,
        original_image: String::new(),
        campaign_urls: CampaignUrls {
            title: String::new(),
            image: String::new(),
            description: String::new(),
        },
    }
}

fn mk_event(dry_run: bool, link_count: usize) -> Event {
    let mut links = Vec::new();
    if link_count > 0 {
        links.push(mk_link("An Interactive Guide to SVG Paths", "https://example.com/svg"));
    }
    for i in 1..link_count {
        links.push(mk_link(&format!("Link {}", i), &format!("https://example.com/{}", i)));
    }
    Event {
        config: Config {
            dry_run,
            detail_type: "Scheduled Event".to_string(),
            resources: Vec::new(),
            id: "evt-1".to_string(),
            source: "scheduler".to_string(),
            time: "2025-01-02T10:30:00Z".to_string(),
            region: "eu-west-1".to_string(),
            version: "0".to_string(),
            account: "123".to_string(),
        },
        next_issue: NextIssue { number: 435 },
        data: Data {
            quote: Quote {
                id: 1,
                text: "Computers are useless. They can only give you answers".to_string(),
                author: "Pablo Picasso".to_string(),
                author_description: "Artist".to_string(),
                author_url: "https://en.wikipedia.org/wiki/Pablo_Picasso".to_string(),
            },
            book: Book {
                id: "building-microservices".to_string(),
                title: "Building Microservices".to_string(),
                author: "Sam Newman".to_string(),
                links: BookLinks { us: "https://us".to_string(), uk: "https://uk".to_string() },
                cover_picture: "https://cover".to_string(),
                description: "desc".to_string(),
            },
            sponsor: Sponsor {
                banner_html: "<!-- banner -->".to_string(),
                sponsored_article_html: "<!-- article -->".to_string(),
                customer: "Example Sponsor".to_string(),
            },
            links,
        },
    }
}

fn mk_env() -> EnvSettings {
    EnvSettings {
        list_id: "list-1".to_string(),
        from_email: "news@example.com".to_string(),
        from_name: "The Bulletin".to_string(),
        reply_to: "reply@example.com".to_string(),
        test_emails: vec!["test1@example.com".to_string(), "test2@example.com".to_string()],
    }
}

#[test]
fn test_plan_campaign_fields() {
    let event = mk_event(false, 9);
    let plan = plan_campaign(&event, &mk_env()).unwrap();
    assert_eq!(plan.issue_number, 435);
    assert!(!plan.dry_run);
    assert_eq!(plan.slug, "435-an-interactive-guide-to-svg-paths");
    assert_eq!(plan.settings.campaign_name, "fullstackBulletin-435");
    assert_eq!(
        plan.settings.subject_line,
        "📨 An Interactive Guide to SVG Paths — FullStack Bulletin #435"
    );
    // Thursday reference rolls to the upcoming Monday at 17:00 UTC
    assert_eq!(plan.settings.schedule_time, "2025-01-06T17:00:00+00:00");
    assert_eq!(
        plan.settings.preview_text,
        "Link 1, Link 2, Link 3, Link 4, Link 5, Link 6, Link 7, Link 8"
    );
    assert_eq!(plan.settings.test_emails, mk_env().test_emails);
    // extra section present: nine links overflow the secondary tier
    assert!(plan.context.extra.is_some());
    assert_eq!(plan.context.secondary_links.len(), 6);
}

#[test]
fn test_plan_campaign_empty_links() {
    let event = mk_event(false, 0);
    let r = plan_campaign(&event, &mk_env());
    assert!(matches!(r, Err(IssueError::EmptyLinkList)));
}

#[test]
fn test_plan_campaign_bad_time() {
    let mut event = mk_event(false, 3);
    event.config.time = "not-a-valid-time".to_string();
    let r = plan_campaign(&event, &mk_env());
    assert!(matches!(r, Err(IssueError::ParseError)));
}

#[test]
fn test_dry_run_never_contacts_email_service() {
    let event = mk_event(true, 9);
    let (state, action) = start_campaign(&event, &mk_env()).unwrap();
    assert!(matches!(action, OrchestratorAction::RenderDocument));

    let (state, action) = step_campaign(state, StepEvent::Rendered("RENDERED".to_string()));
    // the dry run finishes at once: zero email-service invocations
    assert!(matches!(action, OrchestratorAction::Finish));
    match state {
        OrchestratorState::Complete { output } => {
            assert!(output.dry_run);
            assert!(output.campaign_id.is_none());
            assert!(output.email_id.is_none());
            assert_eq!(output.rendered_content, "RENDERED");
            assert!(matches!(output.test_send, TestSendOutcome::NotAttempted));
        }
        _ => panic!("dry run did not complete after rendering"),
    }
}

#[test]
fn test_live_run_draft_sends_one_test_email() {
    let event = mk_event(false, 9);
    let (state, action) = start_campaign(&event, &mk_env()).unwrap();
    assert!(matches!(action, OrchestratorAction::RenderDocument));

    let (state, action) = step_campaign(state, StepEvent::Rendered("BODY".to_string()));
    let req = match action {
        OrchestratorAction::CreateEmail(req) => req,
        _ => panic!("live run did not ask for an email"),
    };
    assert_eq!(req.subject, "📨 An Interactive Guide to SVG Paths — FullStack Bulletin #435");
    assert_eq!(req.body.as_deref(), Some("BODY"));
    assert_eq!(req.status.as_deref(), Some("scheduled"));
    assert_eq!(req.email_type.as_deref(), Some("regular"));
    assert_eq!(req.publish_date.as_deref(), Some("2025-01-06T17:00:00+00:00"));
    assert_eq!(req.slug.as_deref(), Some("435-an-interactive-guide-to-svg-paths"));

    let record = CampaignRecord { id: "email-9".to_string(), status: "draft".to_string() };
    let (state, action) = step_campaign(state, StepEvent::EmailCreated(record));
    // a draft triggers exactly one test delivery, to the configured recipients
    match action {
        OrchestratorAction::SendTestEmail { email_id, request } => {
            assert_eq!(email_id, "email-9");
            assert!(request.subscribers.is_none());
            assert_eq!(
                request.recipients,
                Some(vec!["test1@example.com".to_string(), "test2@example.com".to_string()])
            );
        }
        _ => panic!("draft status did not trigger a test delivery"),
    }

    let (state, action) = step_campaign(state, StepEvent::DraftSent);
    assert!(matches!(action, OrchestratorAction::Finish));
    match state {
        OrchestratorState::Complete { output } => {
            assert!(!output.dry_run);
            assert_eq!(output.campaign_id.as_deref(), Some("email-9"));
            assert_eq!(output.email_id.as_deref(), Some("email-9"));
            assert_eq!(output.rendered_content, "BODY");
            assert!(matches!(output.test_send, TestSendOutcome::Sent));
        }
        _ => panic!("confirmed delivery did not complete the run"),
    }
}

#[test]
fn test_live_run_scheduled_skips_test_email() {
    let event = mk_event(false, 3);
    let (state, _) = start_campaign(&event, &mk_env()).unwrap();
    let (state, _) = step_campaign(state, StepEvent::Rendered("BODY".to_string()));
    let record = CampaignRecord { id: "email-3".to_string(), status: "scheduled".to_string() };
    let (state, action) = step_campaign(state, StepEvent::EmailCreated(record));
    // a scheduled message cannot be test-sent: zero send-draft calls
    assert!(matches!(action, OrchestratorAction::Finish));
    match state {
        OrchestratorState::Complete { output } => {
            assert_eq!(output.campaign_id.as_deref(), Some("email-3"));
            assert!(matches!(output.test_send, TestSendOutcome::UnsupportedForScheduled));
        }
        _ => panic!("scheduled status did not complete the run"),
    }
}

#[test]
fn test_live_run_unknown_status_warns_and_completes() {
    let event = mk_event(false, 3);
    let (state, _) = start_campaign(&event, &mk_env()).unwrap();
    let (state, _) = step_campaign(state, StepEvent::Rendered("BODY".to_string()));
    let record = CampaignRecord { id: "email-5".to_string(), status: "archived".to_string() };
    let (state, action) = step_campaign(state, StepEvent::EmailCreated(record));
    assert!(matches!(action, OrchestratorAction::Finish));
    match state {
        OrchestratorState::Complete { output } => match output.test_send {
            TestSendOutcome::UnknownStatus(s) => assert_eq!(s, "archived"),
            _ => panic!("unknown status was not reported"),
        },
        _ => panic!("unknown status did not complete the run"),
    }
}

#[test]
fn test_error_messages() {
    assert_eq!(IssueError::ParseError.message(), "failed to parse the reference time");
    assert_eq!(IssueError::EmptyLinkList.message(), "no primary link available");
    assert_eq!(
        IssueError::RenderError("missing key".to_string()).message(),
        "failed to render the newsletter template: missing key"
    );
    assert_eq!(
        IssueError::EmailServiceError("401".to_string()).message(),
        "email service call failed: 401"
    );
}
