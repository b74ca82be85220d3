//! Recovery of the last published issue number from the archive page:
//! the first campaign-link title is extracted from the page (by the HTML
//! collaborator), and the number after its `#` mark is parsed here. The
//! grammar — everything up to the first `#`, the mark itself, then at
//! least one decimal digit — is this crate's own logic and is verified.

use vstd::prelude::*;

verus! {

/// Why no issue number could be recovered from the archive page.
#[derive(Debug)]
pub enum ScrapeError {
    /// The page could not be fetched; the transport's message is kept.
    RequestFailed(String),
    /// The page holds no campaign link with a title.
    CannotFindCampaignTitle,
    /// The campaign title holds no parseable issue number; the title is
    /// kept for the report.
    CannotParseIssueNumber(String),
}

/// A decimal digit.
pub open spec fn is_digit(c: char) -> bool {
    '0' <= c && c <= '9'
}

/// The value of a digit sequence read in decimal.
pub open spec fn digits_value(s: Seq<char>) -> nat
    decreases s.len(),
{
    if s.len() == 0 {
        0
    } else {
        digits_value(s.take(s.len() - 1)) * 10 + (s.last() as int - '0' as int) as nat
    }
}

/// Reading more digits never shrinks the value.
proof fn lemma_digits_value_take_le(s: Seq<char>, j: int)
    requires
        0 <= j <= s.len(),
    ensures
        digits_value(s.take(j)) <= digits_value(s),
    decreases s.len() - j,
{
    if j == s.len() {
        assert(s.take(j) =~= s);
    } else {
        assert(s.take(j + 1).take(j) =~= s.take(j));
        assert(digits_value(s.take(j + 1)) == digits_value(s.take(j)) * 10 + (s.take(
            j + 1,
        ).last() as int - '0' as int) as nat);
        lemma_digits_value_take_le(s, j + 1);
    }
}

/// `i` is the position of the first `#` in `s`.
pub open spec fn hash_at(s: Seq<char>, i: int) -> bool {
    &&& 0 <= i < s.len()
    &&& s[i] == '#'
    &&& forall|j: int| 0 <= j < i ==> s[j] != '#'
}

/// The `m` characters from `i` on are digits, and the run ends there:
/// position `i + m` is the end of the text or holds a non-digit.
pub open spec fn digit_run_at(s: Seq<char>, i: int, m: int) -> bool {
    &&& 0 <= i <= s.len()
    &&& 0 <= m
    &&& i + m <= s.len()
    &&& forall|k: int| i <= k < i + m ==> is_digit(s[k])
    &&& (i + m == s.len() || !is_digit(s[i + m]))
}

/// The title parses: after the first `#` stands a non-empty digit run
/// whose decimal value is `n`, and `rest` is everything after the run.
pub open spec fn title_parses_to(s: Seq<char>, rest: Seq<char>, n: u32) -> bool {
    exists|i: int, m: int|
        {
            &&& #[trigger] hash_at(s, i)
            &&& #[trigger] digit_run_at(s, i + 1, m)
            &&& m >= 1
            &&& n == digits_value(s.subrange(i + 1, i + 1 + m))
            &&& rest == s.skip(i + 1 + m)
        }
}

/// Some remainder exists for which the title parses to `n`.
pub open spec fn title_has_number(s: Seq<char>, n: u32) -> bool {
    exists|rest: Seq<char>| title_parses_to(s, rest, n)
}

/// The title does not parse: it has no `#`, no digit follows the first
/// `#`, or the digit run's value does not fit an issue number.
pub open spec fn title_parse_fails(s: Seq<char>) -> bool {
    ||| forall|j: int| 0 <= j < s.len() ==> s[j] != '#'
    ||| exists|i: int| #[trigger] hash_at(s, i) && digit_run_at(s, i + 1, 0)
    ||| exists|i: int, m: int|
        {
            &&& #[trigger] hash_at(s, i)
            &&& #[trigger] digit_run_at(s, i + 1, m)
            &&& m >= 1
            &&& digits_value(s.subrange(i + 1, i + 1 + m)) > u32::MAX
        }
}

/// Parses the issue number out of a campaign title: everything up to the
/// first `#` is skipped, the mark is consumed, and the non-empty digit
/// run after it is read in decimal. Returns the remaining text and the
/// number. A title without `#`, without a digit after it, or with a
/// number too large for an issue count is rejected, with the title kept
/// in the error.
pub fn parse_number_from_title<'a>(title: &'a str) -> (r: Result<(&'a str, u32), ScrapeError>)
    ensures
        r matches Ok(p) ==> title_parses_to(title@, p.0@, p.1),
        r matches Err(e) ==> title_parse_fails(title@) && (e matches
            ScrapeError::CannotParseIssueNumber(t) && t@ == title@),
{
    let len = title.unicode_len();
    let mut i: usize = 0;
    loop
        invariant
            i <= len,
            len == title@.len(),
            forall|j: int| 0 <= j < i ==> title@[j] != '#',
        ensures
            i <= len,
            len == title@.len(),
            forall|j: int| 0 <= j < i ==> title@[j] != '#',
            i == len || title@[i as int] == '#',
        decreases len - i,
    {
        if i >= len {
            break ;
        }
        if title.get_char(i) == '#' {
            break ;
        }
        i += 1;
    }
    if i == len {
        return Err(ScrapeError::CannotParseIssueNumber(title.to_owned()));
    }
    assert(hash_at(title@, i as int));
    let start = i + 1;
    let mut m: usize = 0;
    loop
        invariant
            i + 1 == start,
            start <= len,
            start + m <= len,
            len == title@.len(),
            forall|k: int| start <= k < start + m ==> is_digit(title@[k]),
        ensures
            start + m <= len,
            len == title@.len(),
            forall|k: int| start <= k < start + m ==> is_digit(title@[k]),
            start + m == len || !is_digit(title@[(start + m) as int]),
        decreases len - start - m,
    {
        if start + m >= len {
            break ;
        }
        let c = title.get_char(start + m);
        if !(c >= '0' && c <= '9') {
            break ;
        }
        m += 1;
    }
    assert(digit_run_at(title@, start as int, m as int));
    if m == 0 {
        assert(hash_at(title@, i as int) && digit_run_at(title@, i as int + 1, 0));
        return Err(ScrapeError::CannotParseIssueNumber(title.to_owned()));
    }
    let ghost run = title@.subrange(start as int, (start + m) as int);
    let mut value: u64 = 0;
    let mut k: usize = 0;
    while k < m
        invariant
            k <= m,
            1 <= m,
            start == i + 1,
            start + m <= len,
            len == title@.len(),
            hash_at(title@, i as int),
            digit_run_at(title@, start as int, m as int),
            run == title@.subrange(start as int, (start + m) as int),
            forall|j: int| start <= j < start + m ==> is_digit(title@[j]),
            value == digits_value(run.take(k as int)),
            value <= u32::MAX,
        decreases m - k,
    {
        let c = title.get_char(start + k);
        let d = (c as u64) - 48;
        proof {
            assert(run[k as int] == title@[(start + k) as int]);
            assert(is_digit(run[k as int]));
            assert(run.take(k as int + 1).take(k as int) =~= run.take(k as int));
            assert(run.take(k as int + 1).last() == run[k as int]);
        }
        value = value * 10 + d;
        if value > 0xffff_ffff {
            proof {
                lemma_digits_value_take_le(run, k as int + 1);
                assert(run.take(run.len() as int) =~= run);
                assert(hash_at(title@, i as int) && digit_run_at(title@, i as int + 1, m as int)
                    && m >= 1 && digits_value(
                    title@.subrange(i as int + 1, i as int + 1 + m as int),
                ) > u32::MAX);
            }
            return Err(ScrapeError::CannotParseIssueNumber(title.to_owned()));
        }
        k += 1;
    }
    proof {
        assert(run.take(m as int) =~= run);
    }
    let rest = title.substring_char(start + m, len);
    proof {
        assert(rest@ =~= title@.skip((start + m) as int));
        assert(hash_at(title@, i as int) && digit_run_at(title@, i as int + 1, m as int) && m >= 1
            && value == digits_value(title@.subrange(i as int + 1, i as int + 1 + m as int))
            && rest@ == title@.skip(i as int + 1 + m as int));
    }
    Ok((rest, value as u32))
}

/// The `title` attribute of the first campaign link of an archive page;
/// a function of the page text alone.
pub uninterp spec fn campaign_title_of(html: Seq<char>) -> Option<Seq<char>>;

/// Relies on scraper's `Html::parse_document`, `Selector::parse` and
/// element selection: the first element matching `.campaign a[title]`
/// and its `title` attribute are functions of the document text alone,
/// and the hard-coded selector is valid, so parsing it cannot fail.
#[verifier::external_body]
fn first_campaign_title(html: &str) -> (r: Option<String>)
    ensures
        match r {
            Some(t) => campaign_title_of(html@) == Some(t@),
            None => campaign_title_of(html@) is None,
        },
{
    let document = scraper::Html::parse_document(html);
    let selector = scraper::selector::Selector::parse(".campaign a[title]").unwrap();
    let element = match document.select(&selector).next() {
        Some(e) => e,
        None => {
            return None;
        },
    };
    element.value().attr("title").map(|t| t.to_string())
}

/// Recovers the last published issue number from the archive page's
/// text: the first campaign-link title is located, and the number after
/// its `#` mark is parsed. A page without such a title, and a title
/// without a parseable number, are each their own error.
pub fn last_issue_number_from_html(html: &str) -> (r: Result<u32, ScrapeError>)
    ensures
        campaign_title_of(html@) is None ==> (r matches Err(e) && e is CannotFindCampaignTitle),
        campaign_title_of(html@) matches Some(t) ==> (r matches Ok(n) ==> title_has_number(t, n)),
        campaign_title_of(html@) matches Some(t) ==> (r matches Err(e) ==> title_parse_fails(t) && (
        e matches ScrapeError::CannotParseIssueNumber(kept) && kept@ == t)),
{
    let title = match first_campaign_title(html) {
        Some(t) => t,
        None => {
            return Err(ScrapeError::CannotFindCampaignTitle);
        },
    };
    match parse_number_from_title(title.as_str()) {
        Ok((rest, n)) => {
            proof {
                assert(campaign_title_of(html@) == Some(title@));
                assert(title_parses_to(title@, rest@, n));
                assert(title_has_number(title@, n));
            }
            Ok(n)
        },
        Err(e) => Err(e),
    }
}

/// The number of the issue being prepared: one past the last published
/// one.
pub fn next_issue_number(last: u32) -> (r: u32)
    requires
        last < u32::MAX,
    ensures
        r == last + 1,
{
    last + 1
}

} // verus!
