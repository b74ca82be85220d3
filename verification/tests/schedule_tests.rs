use chrono::{Datelike, Timelike, Utc, Weekday};
use fullstack_bulletin::errors::IssueError;
use fullstack_bulletin::schedule::{
    get_next_monday_from, weekday_slot_week_ahead, CampaignTiming, MONDAY, SEND_HOUR,
};

fn as_utc(seconds: i64) -> chrono::DateTime<Utc> {
    chrono::DateTime::from_timestamp(seconds, 0).unwrap()
}

#[test]
fn test_get_next_monday_from_thursday() {
    // Test with a Thursday (Jan 2, 2025 at 10:30:00 UTC)
    let reference_time = "2025-01-02T10:30:00Z";
    let next_monday = as_utc(get_next_monday_from(reference_time).unwrap().seconds);

    // Next Monday should be Jan 6, 2025 at 17:00:00 UTC
    assert_eq!(next_monday.weekday(), Weekday::Mon);
    assert_eq!(next_monday.day(), 6);
    assert_eq!(next_monday.month(), 1);
    assert_eq!(next_monday.year(), 2025);
    assert_eq!(next_monday.hour(), 17);
    assert_eq!(next_monday.minute(), 0);
    assert_eq!(next_monday.second(), 0);
}

#[test]
fn test_get_next_monday_from_monday_before_5pm() {
    // Test with a Monday before 5 PM (Jan 6, 2025 at 10:00:00 UTC)
    let reference_time = "2025-01-06T10:00:00Z";
    let next_monday = as_utc(get_next_monday_from(reference_time).unwrap().seconds);

    // Should return the same day at 17:00:00 UTC
    assert_eq!(next_monday.weekday(), Weekday::Mon);
    assert_eq!(next_monday.day(), 6);
    assert_eq!(next_monday.month(), 1);
    assert_eq!(next_monday.year(), 2025);
    assert_eq!(next_monday.hour(), 17);
    assert_eq!(next_monday.minute(), 0);
    assert_eq!(next_monday.second(), 0);
}

#[test]
fn test_get_next_monday_from_monday_after_5pm() {
    // Test with a Monday after 5 PM (Jan 6, 2025 at 18:30:00 UTC)
    let reference_time = "2025-01-06T18:30:00Z";
    let next_monday = as_utc(get_next_monday_from(reference_time).unwrap().seconds);

    // Should return next Monday (Jan 13, 2025 at 17:00:00 UTC)
    assert_eq!(next_monday.weekday(), Weekday::Mon);
    assert_eq!(next_monday.day(), 13);
    assert_eq!(next_monday.month(), 1);
    assert_eq!(next_monday.year(), 2025);
    assert_eq!(next_monday.hour(), 17);
}

#[test]
fn test_get_next_monday_from_monday_exactly_5pm() {
    // Test with a Monday exactly at 5 PM (Jan 6, 2025 at 17:00:00 UTC)
    let reference_time = "2025-01-06T17:00:00Z";
    let next_monday = as_utc(get_next_monday_from(reference_time).unwrap().seconds);

    // Should return next Monday (Jan 13, 2025 at 17:00:00 UTC) because it's not before 5 PM
    assert_eq!(next_monday.weekday(), Weekday::Mon);
    assert_eq!(next_monday.day(), 13);
    assert_eq!(next_monday.month(), 1);
    assert_eq!(next_monday.year(), 2025);
    assert_eq!(next_monday.hour(), 17);
}

#[test]
fn test_get_next_monday_from_invalid_time() {
    let invalid_time = "not-a-valid-time";
    let result = get_next_monday_from(invalid_time);
    assert!(result.is_err());
    assert!(matches!(result, Err(IssueError::ParseError)));
}

#[test]
fn test_campaign_timing_creation() {
    let timing = CampaignTiming::new();

    // Verify that schedule_for is in the future
    assert!(timing.schedule_for > Utc::now().timestamp());

    // Verify that schedule_for is on a Monday
    let schedule = as_utc(timing.schedule_for);
    assert_eq!(schedule.weekday(), Weekday::Mon);

    // Verify that schedule_for is at 17:00 UTC
    assert_eq!(schedule.hour(), 17);
    assert_eq!(schedule.minute(), 0);
    assert_eq!(schedule.second(), 0);

    // Verify that reference_moment is in the past
    assert!(timing.reference_moment < Utc::now().timestamp());
}

#[test]
fn test_next_monday_calculation() {
    // Test with a known date (Thursday, Jan 2, 2025)
    let test_date = chrono::DateTime::parse_from_rfc3339("2025-01-02T10:30:00+00:00")
        .unwrap()
        .timestamp();
    let next_monday = as_utc(weekday_slot_week_ahead(test_date, MONDAY, SEND_HOUR));

    // Next Monday should be Jan 13, 2025 at 17:00
    assert_eq!(next_monday.weekday(), Weekday::Mon);
    assert_eq!(next_monday.day(), 13);
    assert_eq!(next_monday.month(), 1);
    assert_eq!(next_monday.hour(), 17);
}

#[test]
fn test_formatting_methods() {
    let timing = CampaignTiming::new();

    let schedule_formatted = timing.schedule_time_formatted();
    let reference_formatted = timing.reference_moment_formatted();

    // Should be valid ISO 8601 format
    assert!(schedule_formatted.contains("T"));
    assert!(schedule_formatted.ends_with("Z") || schedule_formatted.contains("+"));
    assert!(reference_formatted.contains("T"));
    assert!(reference_formatted.ends_with("Z") || reference_formatted.contains("+"));
}

#[test]
fn test_timing_from_known_moment() {
    // Thursday, Jan 2, 2025 at 10:30 UTC: the week-ahead slot is Monday
    // Jan 13 at 17:00, and the reference window opens at the previous
    // Thursday's midnight
    let moment = chrono::DateTime::parse_from_rfc3339("2025-01-02T10:30:00+00:00")
        .unwrap()
        .timestamp();
    let timing = CampaignTiming::from_moment(moment);
    assert_eq!(timing.schedule_time_formatted(), "2025-01-13T17:00:00+00:00");
    assert_eq!(timing.reference_moment_formatted(), "2024-12-26T00:00:00+00:00");
}
