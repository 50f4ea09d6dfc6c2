use cdx::time::{
    format_relative_delta, format_relative_time_at, recency_bucket_at, recency_bucket_from_delta,
    Elapsed, Instant, RecencyBucket, DAY_MS, EARLIEST_UTC_MS, HOUR_MS, LATEST_UTC_MS, MINUTE_MS,
};

fn instant(value: chrono::DateTime<chrono::Utc>) -> Instant {
    Instant {
        millis: value.timestamp_millis(),
        nanos: value.timestamp_subsec_nanos() % 1_000_000,
    }
}

fn span(millis: i128) -> Elapsed {
    Elapsed { millis, nanos: 0 }
}

#[test]
fn relative_time_uses_days_for_old_entries() {
    let now = chrono::Utc::now();
    let old_ms = (now - chrono::TimeDelta::days(3)).timestamp_millis();

    assert_eq!(format_relative_time_at(instant(now), old_ms), "3d ago");
}

#[test]
fn relative_time_formats_minutes_and_hours() {
    let now = chrono::Utc::now();
    let minute_ms = (now - chrono::TimeDelta::minutes(7)).timestamp_millis();
    let hour_ms = (now - chrono::TimeDelta::hours(9)).timestamp_millis();

    assert_eq!(format_relative_time_at(instant(now), minute_ms), "7m ago");
    assert_eq!(format_relative_time_at(instant(now), hour_ms), "9h ago");
}

#[test]
fn relative_time_handles_just_now_and_unknown_values() {
    let now = chrono::Utc::now();

    assert_eq!(
        format_relative_time_at(instant(now), now.timestamp_millis()),
        "just now".to_string()
    );
    assert_eq!(
        format_relative_time_at(instant(now), i64::MAX),
        "unknown".to_string()
    );
}

#[test]
fn format_relative_delta_covers_all_display_ranges() {
    assert_eq!(format_relative_delta(span(10 * 1000)), "just now");
    assert_eq!(format_relative_delta(span(7 * MINUTE_MS)), "7m ago");
    assert_eq!(format_relative_delta(span(9 * HOUR_MS)), "9h ago");
    assert_eq!(format_relative_delta(span(3 * DAY_MS)), "3d ago");
}

#[test]
fn format_relative_delta_rounds_down_at_each_boundary() {
    assert_eq!(format_relative_delta(span(MINUTE_MS - 1)), "just now");
    assert_eq!(format_relative_delta(span(MINUTE_MS)), "1m ago");
    assert_eq!(format_relative_delta(span(HOUR_MS - 1)), "59m ago");
    assert_eq!(format_relative_delta(span(HOUR_MS)), "1h ago");
    assert_eq!(format_relative_delta(span(DAY_MS - 1)), "23h ago");
    assert_eq!(format_relative_delta(span(DAY_MS)), "1d ago");
    assert_eq!(format_relative_delta(span(-5 * DAY_MS)), "just now");
    assert_eq!(format_relative_delta(Elapsed::from_millis(1_000)), "just now");
}

#[test]
fn recency_bucket_marks_entries_older_than_a_week_as_stale() {
    let now = chrono::Utc::now();
    let stale_ms = (now - chrono::TimeDelta::days(10)).timestamp_millis();

    assert_eq!(recency_bucket_at(instant(now), stale_ms), RecencyBucket::Stale);
}

#[test]
fn recency_bucket_marks_recent_entries_as_recent() {
    let now = chrono::Utc::now();
    let recent_ms = (now - chrono::TimeDelta::hours(4)).timestamp_millis();

    assert_eq!(recency_bucket_at(instant(now), recent_ms), RecencyBucket::Recent);
}

#[test]
fn recency_bucket_marks_midweek_entries_as_this_week() {
    let now = chrono::Utc::now();
    let midweek_ms = (now - chrono::TimeDelta::days(5)).timestamp_millis();

    assert_eq!(
        recency_bucket_at(instant(now), midweek_ms),
        RecencyBucket::ThisWeek
    );
}

#[test]
fn recency_bucket_treats_invalid_timestamp_as_stale() {
    assert_eq!(
        recency_bucket_at(instant(chrono::Utc::now()), i64::MAX),
        RecencyBucket::Stale
    );
}

#[test]
fn recency_bucket_from_delta_covers_all_ranges() {
    assert_eq!(
        recency_bucket_from_delta(span(4 * HOUR_MS)),
        RecencyBucket::Recent
    );
    assert_eq!(
        recency_bucket_from_delta(span(5 * DAY_MS)),
        RecencyBucket::ThisWeek
    );
    assert_eq!(
        recency_bucket_from_delta(span(10 * DAY_MS)),
        RecencyBucket::Stale
    );
}

#[test]
fn recency_bucket_boundaries_are_inclusive() {
    assert_eq!(
        recency_bucket_from_delta(span(72 * HOUR_MS)),
        RecencyBucket::Recent
    );
    assert_eq!(
        recency_bucket_from_delta(Elapsed {
            millis: 72 * HOUR_MS,
            nanos: 1
        }),
        RecencyBucket::ThisWeek
    );
    assert_eq!(
        recency_bucket_from_delta(span(7 * DAY_MS)),
        RecencyBucket::ThisWeek
    );
    assert_eq!(
        recency_bucket_from_delta(span(7 * DAY_MS + 1)),
        RecencyBucket::Stale
    );
}

#[test]
fn relative_time_counts_from_the_given_moment() {
    let now = Instant {
        millis: 10 * DAY_MS as i64,
        nanos: 0,
    };

    assert_eq!(
        format_relative_time_at(now, (10 * DAY_MS - 2 * HOUR_MS) as i64),
        "2h ago"
    );
    assert_eq!(
        recency_bucket_at(now, (10 * DAY_MS - 2 * HOUR_MS) as i64),
        RecencyBucket::Recent
    );
}

#[test]
fn older_conversations_are_never_fresher() {
    let rank = |bucket: RecencyBucket| match bucket {
        RecencyBucket::Recent => 0,
        RecencyBucket::ThisWeek => 1,
        RecencyBucket::Stale => 2,
    };
    let spans = [
        span(0),
        span(HOUR_MS),
        span(72 * HOUR_MS),
        span(72 * HOUR_MS + 1),
        span(5 * DAY_MS),
        span(7 * DAY_MS),
        span(8 * DAY_MS),
    ];
    for pair in spans.windows(2) {
        assert!(
            rank(recency_bucket_from_delta(pair[0])) <= rank(recency_bucket_from_delta(pair[1]))
        );
    }
}

#[test]
fn chrono_range_ends_exactly_at_the_stated_moments() {
    let epoch = Instant { millis: 0, nanos: 0 };

    assert_ne!(format_relative_time_at(epoch, EARLIEST_UTC_MS), "unknown");
    assert_eq!(format_relative_time_at(epoch, EARLIEST_UTC_MS - 1), "unknown");
    assert_eq!(format_relative_time_at(epoch, LATEST_UTC_MS), "just now");
    assert_eq!(format_relative_time_at(epoch, LATEST_UTC_MS + 1), "unknown");
    assert_eq!(
        recency_bucket_at(epoch, LATEST_UTC_MS + 1),
        RecencyBucket::Stale
    );
    assert!(chrono::DateTime::<chrono::Utc>::from_timestamp_millis(EARLIEST_UTC_MS).is_some());
    assert!(chrono::DateTime::<chrono::Utc>::from_timestamp_millis(LATEST_UTC_MS).is_some());
    assert_eq!(
        chrono::DateTime::<chrono::Utc>::MIN_UTC.timestamp_millis(),
        EARLIEST_UTC_MS
    );
    assert_eq!(
        chrono::DateTime::<chrono::Utc>::MAX_UTC.timestamp_millis(),
        LATEST_UTC_MS
    );
}
