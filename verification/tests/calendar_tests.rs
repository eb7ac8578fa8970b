use ecobridge::calendar::{day_of_week, is_weekend};

const DAY_MS: i64 = 86_400_000;

#[test]
fn saturday_utc_is_weekend() {
    // 1970-01-03 was a Saturday.
    let sat_ts = 2 * DAY_MS;
    assert_eq!(day_of_week(sat_ts, 0), 6);
    assert!(is_weekend(sat_ts, 0));
}

#[test]
fn thursday_utc_is_not_weekend() {
    // The epoch itself fell on a Thursday.
    assert_eq!(day_of_week(0, 0), 4);
    assert!(!is_weekend(0, 0));
}

#[test]
fn timezone_shift_moves_the_day() {
    // Thursday 23:00 UTC: still Thursday in London, already Friday 07:00
    // in Singapore (UTC+8).
    let thu_night_utc = 82_800 * 1000;
    assert_eq!(day_of_week(thu_night_utc, 0), 4);
    assert!(!is_weekend(thu_night_utc, 0));
    assert_eq!(day_of_week(thu_night_utc, 8 * 3600), 5);
    assert!(is_weekend(thu_night_utc, 8 * 3600));
}

#[test]
fn negative_timezone_shift_moves_the_day_back() {
    // Friday 01:00 UTC is still Thursday 20:00 in New York (UTC-5).
    let fri_morning_utc = DAY_MS + 3_600_000;
    assert_eq!(day_of_week(fri_morning_utc, 0), 5);
    assert_eq!(day_of_week(fri_morning_utc, -5 * 3600), 4);
}

#[test]
fn pre_epoch_timestamps_floor_correctly() {
    // One millisecond before the epoch: 1969-12-31, a Wednesday.
    assert_eq!(day_of_week(-1, 0), 3);
    // One full week earlier is a Wednesday again.
    assert_eq!(day_of_week(-1 - 7 * DAY_MS, 0), 3);
}

#[test]
fn week_wraps_every_seven_days() {
    let base = 1_736_851_200_000i64; // 2025-01-14, a Tuesday
    let d = day_of_week(base, 0);
    assert_eq!(d, 2);
    for k in 1..5 {
        assert_eq!(day_of_week(base + k * 7 * DAY_MS, 0), d);
    }
}
