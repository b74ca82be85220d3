//! Requests sent to, and the record returned by, the email-service
//! collaborator. Building a request — which fields are set, which
//! lifecycle status is asked for — is decision logic and is verified
//! here; serialising and transporting it is the I/O layer's job.

use vstd::prelude::*;

verus! {

/// A request to create an outbound email. Fields left `None` are omitted
/// from the request entirely.
pub struct CreateEmailRequest {
    pub subject: String,
    pub body: Option<String>,
    pub publish_date: Option<String>,
    pub slug: Option<String>,
    pub email_type: Option<String>,
    pub status: Option<String>,
    pub metadata: Option<Vec<(String, String)>>,
    pub commenting_mode: Option<String>,
}

impl CreateEmailRequest {
    /// The request that creates a draft email: lifecycle status `draft`,
    /// regular type, no publish date and no slug.
    pub fn draft_request(subject: String, body: String) -> (r: CreateEmailRequest)
        ensures
            r.subject == subject,
            r.body == Some(body),
            r.status matches Some(s) && s@ == "draft"@,
            r.email_type matches Some(t) && t@ == "regular"@,
            r.publish_date is None,
            r.slug is None,
            r.metadata is None,
            r.commenting_mode is None,
    {
        CreateEmailRequest {
            subject,
            body: Some(body),
            publish_date: None,
            slug: None,
            email_type: Some(String::from_str("regular")),
            status: Some(String::from_str("draft")),
            metadata: None,
            commenting_mode: None,
        }
    }

    /// The request that creates a scheduled email: lifecycle status
    /// `scheduled`, regular type, the given publish date and slug.
    pub fn scheduled_request(subject: String, body: String, publish_date: String, slug: String) -> (r:
        CreateEmailRequest)
        ensures
            r.subject == subject,
            r.body == Some(body),
            r.status matches Some(s) && s@ == "scheduled"@,
            r.email_type matches Some(t) && t@ == "regular"@,
            r.publish_date == Some(publish_date),
            r.slug == Some(slug),
            r.metadata is None,
            r.commenting_mode is None,
    {
        CreateEmailRequest {
            subject,
            body: Some(body),
            publish_date: Some(publish_date),
            slug: Some(slug),
            email_type: Some(String::from_str("regular")),
            status: Some(String::from_str("scheduled")),
            metadata: None,
            commenting_mode: None,
        }
    }
}

/// A request to deliver an existing draft: to the listed subscriber ids,
/// the listed outside recipients, or — with both absent — to everyone.
pub struct SendDraftRequest {
    pub subscribers: Option<Vec<String>>,
    pub recipients: Option<Vec<String>>,
}

impl SendDraftRequest {
    /// A test delivery to the given outside recipients only.
    pub fn to_recipients(recipients: Vec<String>) -> (r: SendDraftRequest)
        ensures
            r.subscribers is None,
            r.recipients == Some(recipients),
    {
        SendDraftRequest { subscribers: None, recipients: Some(recipients) }
    }
}

/// What the email service reports of a created message: its id and its
/// lifecycle status. Nothing of it outlives the invocation.
pub struct CampaignRecord {
    pub id: String,
    pub status: String,
}

impl Clone for CampaignRecord {
    fn clone(&self) -> (r: Self)
        ensures
            r == *self,
    {
        CampaignRecord { id: self.id.clone(), status: self.status.clone() }
    }
}

} // verus!
