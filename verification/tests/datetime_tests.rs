use planner::datetime::{DateTime, MAX_TIMESTAMP, MIN_TIMESTAMP};
use planner::routes::create_trip::{Action, CreateTrip, RequestBody};

fn chrono_accepts(secs: i64, nanos: u32) -> bool {
    chrono::DateTime::from_timestamp(secs, nanos).is_some()
}

fn naive(secs: i64, nanos: u32) -> chrono::NaiveDateTime {
    chrono::DateTime::from_timestamp(secs, nanos).unwrap().naive_utc()
}

fn dt(secs: i64, nanos: u32) -> DateTime {
    DateTime::from_timestamp(secs, nanos).unwrap()
}

#[test]
fn calendar_range_matches_chrono() {
    for (secs, nanos) in [
        (MIN_TIMESTAMP, 0),
        (MIN_TIMESTAMP - 1, 0),
        (MAX_TIMESTAMP, 0),
        (MAX_TIMESTAMP + 1, 0),
        (MAX_TIMESTAMP, 1_500_000_000),
        (59, 1_999_999_999),
        (59, 2_000_000_000),
        (58, 1_000_000_000),
        (-1, 1_000_000_000),
        (-2, 1_000_000_000),
        (0, 999_999_999),
        (i64::MIN, 0),
        (i64::MAX, 0),
    ] {
        assert_eq!(
            DateTime::from_timestamp(secs, nanos).is_some(),
            chrono_accepts(secs, nanos),
            "{secs} {nanos}"
        );
    }
    assert_eq!(naive(MIN_TIMESTAMP, 0).and_utc().timestamp(), MIN_TIMESTAMP);
    assert_eq!(naive(MAX_TIMESTAMP, 0).and_utc().timestamp(), MAX_TIMESTAMP);
}

#[test]
fn calendar_bounds_are_chronos_first_and_last_days() {
    let first = chrono::NaiveDate::MIN.and_hms_opt(0, 0, 0).unwrap().and_utc().timestamp();
    let last = chrono::NaiveDate::MAX.and_hms_opt(23, 59, 59).unwrap().and_utc().timestamp();
    assert_eq!(first, MIN_TIMESTAMP);
    assert_eq!(last, MAX_TIMESTAMP);
    assert_eq!(MIN_TIMESTAMP, -8334601228800);
    assert!(DateTime::from_timestamp(MIN_TIMESTAMP, 0).is_some());
    assert!(!chrono_accepts(-8334601315200, 0));
    assert!(DateTime::from_timestamp(-8334601315200, 0).is_none());
}

#[test]
fn timestamp_round_trip() {
    let t = dt(1_700_000_000, 123);
    assert_eq!(t.timestamp(), 1_700_000_000);
    assert_eq!(t.subsec_nanos(), 123);
}

#[test]
fn ordering_is_by_seconds_then_nanoseconds() {
    assert!(dt(10, 5).before(&dt(11, 0)));
    assert!(dt(10, 5).before(&dt(10, 6)));
    assert!(!dt(10, 6).before(&dt(10, 6)));
    assert!(!dt(11, 0).before(&dt(10, 999_999_999)));
    assert_eq!(naive(10, 5) < naive(10, 6), dt(10, 5).before(&dt(10, 6)));
}

#[test]
fn day_numbers() {
    assert_eq!(dt(0, 0).day_from_ce(), 719_163);
    assert_eq!(dt(86_399, 0).day_from_ce(), 719_163);
    assert_eq!(dt(86_400, 0).day_from_ce(), 719_164);
    assert_eq!(dt(-1, 0).day_from_ce(), 719_162);
    assert_eq!(dt(-86_400, 0).day_from_ce(), 719_162);
    assert_eq!(dt(-86_401, 0).day_from_ce(), 719_161);
    assert_eq!(dt(86_399, 1_500_000_000).day_from_ce(), 719_163);
}

#[test]
fn adding_days() {
    let t = dt(1_000, 7);
    let u = t.add_days(0);
    assert_eq!((u.timestamp(), u.subsec_nanos()), (1_000, 7));
    let u = t.add_days(3);
    assert_eq!((u.timestamp(), u.subsec_nanos()), (1_000 + 3 * 86_400, 7));
    let leap = dt(59, 1_250_000_000);
    let u = leap.add_days(0);
    assert_eq!((u.timestamp(), u.subsec_nanos()), (59, 1_250_000_000));
    let u = leap.add_days(2);
    assert_eq!((u.timestamp(), u.subsec_nanos()), (59 + 2 * 86_400, 250_000_000));
}

fn spec_whole_days(s: (i64, u32), e: (i64, u32)) -> i64 {
    let day = 86_400i64;
    let ts = s.0.rem_euclid(day);
    let te = e.0.rem_euclid(day);
    let leap = if te > ts && s.1 >= 1_000_000_000 {
        1
    } else if te < ts && e.1 >= 1_000_000_000 {
        -1
    } else {
        0
    };
    let frac = e.1 as i64 - s.1 as i64;
    let secs = (e.0 - s.0) + leap + frac.div_euclid(1_000_000_000);
    let nanos = frac.rem_euclid(1_000_000_000);
    let whole = if secs < 0 && nanos > 0 { secs + 1 } else { secs };
    whole / day
}

#[test]
fn whole_days_between() {
    let cases = [
        ((0, 0), (86_400, 0)),
        ((0, 0), (86_399, 999_999_999)),
        ((0, 500), (86_400, 499)),
        ((86_400 * 5 + 10, 0), (0, 0)),
        ((0, 0), (86_399, 1_500_000_000)),
        ((59, 1_500_000_000), (86_459, 0)),
        ((59, 1_500_000_000), (86_459, 1_600_000_000)),
        ((100, 0), (100 + 86_400 * 30 + 5, 3)),
        ((1_700_000_000, 10), (1_600_000_000, 20)),
    ];
    for (s, e) in cases {
        let got = dt(s.0, s.1).whole_days_until(&dt(e.0, e.1));
        assert_eq!(got, (naive(e.0, e.1) - naive(s.0, s.1)).num_days(), "{s:?} {e:?}");
        assert_eq!(got, spec_whole_days(s, e), "{s:?} {e:?}");
    }
    assert_eq!(dt(0, 0).whole_days_until(&dt(86_400 * 2 + 3600, 0)), 2);
}

#[test]
fn portuguese_long_dates() {
    // 2025-03-05 12:00:00
    let t = dt(1_741_176_000, 0);
    assert_eq!(t.long_date_pt_br(), "05 de março, 2025");
    // 2024-12-31 23:59:59
    assert_eq!(dt(1_735_689_599, 0).long_date_pt_br(), "31 de dezembro, 2024");
}

#[test]
fn trips_are_checked_against_the_clock() {
    let body = |starts: i64| RequestBody {
        destination: "Roma".to_string(),
        starts_at: dt(starts, 0),
        ends_at: dt(starts + 86_400, 0),
        owner_name: "Ana".to_string(),
        owner_email: "ana@x.com".to_string(),
        emails_to_invite: vec![],
    };
    // 2100-01-01: still ahead
    let (_, a) = CreateTrip::start(body(4_102_444_800), "http://api".to_string());
    assert!(matches!(a, Action::BeginTransaction));
    // 2001-09-09: long gone
    let (_, a) = CreateTrip::start(body(1_000_000_000), "http://api".to_string());
    assert!(matches!(a, Action::Respond(Err(planner::error::AppError::BadRequest(ref m))) if m == "Invalid trip start date"));
}
