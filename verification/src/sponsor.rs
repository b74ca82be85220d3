//! The sponsor lookup: the record shape the sponsor table returns, the
//! shape this system publishes, and the deterministic parts of the
//! lookup — the filter formula and the first-record-or-default rule.

use vstd::prelude::*;

use crate::text::{decimal_of, u32_to_string};

verus! {

/// A sponsor row as the sponsor table stores it; every field may be
/// absent.
pub struct SponsorFields {
    pub banner_html: Option<String>,
    pub sponsored_article_html: Option<String>,
    pub customer: Option<String>,
}

/// The sponsor block as this system publishes it; absent fields become
/// empty strings.
pub struct SponsorResponse {
    pub banner_html: String,
    pub sponsored_article_html: String,
    pub customer: String,
}

/// The text an optional field is published as: its content, or empty.
pub open spec fn field_or_empty(f: Option<String>) -> Seq<char> {
    match f {
        Some(s) => s@,
        None => Seq::empty(),
    }
}

impl SponsorResponse {
    /// Flattens a sponsor row: every absent field becomes the empty
    /// string.
    pub fn from_fields(fields: SponsorFields) -> (r: SponsorResponse)
        ensures
            r.banner_html@ == field_or_empty(fields.banner_html),
            r.sponsored_article_html@ == field_or_empty(fields.sponsored_article_html),
            r.customer@ == field_or_empty(fields.customer),
    {
        SponsorResponse {
            banner_html: match fields.banner_html {
                Some(s) => s,
                None => String::new(),
            },
            sponsored_article_html: match fields.sponsored_article_html {
                Some(s) => s,
                None => String::new(),
            },
            customer: match fields.customer {
                Some(s) => s,
                None => String::new(),
            },
        }
    }

    /// The block published when no sponsor row matched: all fields empty.
    pub fn empty() -> (r: SponsorResponse)
        ensures
            r.banner_html@.len() == 0,
            r.sponsored_article_html@.len() == 0,
            r.customer@.len() == 0,
    {
        SponsorResponse {
            banner_html: String::new(),
            sponsored_article_html: String::new(),
            customer: String::new(),
        }
    }
}

/// Publishes the first matching sponsor row, or the empty block when no
/// row matched.
pub fn first_sponsor_or_default(records: Vec<SponsorFields>) -> (r: SponsorResponse)
    ensures
        records@.len() == 0 ==> {
            &&& r.banner_html@.len() == 0
            &&& r.sponsored_article_html@.len() == 0
            &&& r.customer@.len() == 0
        },
        records@.len() > 0 ==> {
            &&& r.banner_html@ == field_or_empty(records@[0].banner_html)
            &&& r.sponsored_article_html@ == field_or_empty(records@[0].sponsored_article_html)
            &&& r.customer@ == field_or_empty(records@[0].customer)
        },
{
    let mut records = records;
    if records.len() == 0 {
        SponsorResponse::empty()
    } else {
        let first = records.remove(0);
        SponsorResponse::from_fields(first)
    }
}

/// The filter formula that selects the sponsor row of one issue.
pub open spec fn sponsor_filter_of(n: u32) -> Seq<char> {
    "{Issue}="@ + decimal_of(n as nat)
}

/// Builds the filter formula; see [`sponsor_filter_of`].
pub fn sponsor_filter_formula(issue_number: u32) -> (r: String)
    ensures
        r@ == sponsor_filter_of(issue_number),
{
    let mut s = String::from_str("{Issue}=");
    let digits = u32_to_string(issue_number);
    s.append(digits.as_str());
    s
}

/// The path of the sponsor table's row listing.
pub open spec fn sponsors_path_of(base: Seq<char>, table_id: Seq<char>) -> Seq<char> {
    base + "/"@ + table_id + "/Sponsors"@
}

/// Builds the sponsor-table path; see [`sponsors_path_of`].
pub fn sponsors_path(base_url: &str, table_id: &str) -> (r: String)
    ensures
        r@ == sponsors_path_of(base_url@, table_id@),
{
    let mut s = String::from_str(base_url);
    s.append("/");
    s.append(table_id);
    s.append("/Sponsors");
    s
}

} // verus!
