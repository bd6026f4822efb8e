use planner::datetime::DateTime;
use planner::error::AppError;
use planner::routes::confirm_trip::Trip;
use planner::routes::get_activities::{self, group_activities, Activity, GetActivities};
use planner::routes::get_links::{self, GetLinks, Link};
use planner::routes::get_participant::{get_participant, Participant};
use planner::routes::get_trip_details::{self, get_trip_details};
use planner::routes::ready::ready;

const DAY: i64 = 86_400;
// 2025-03-05 10:00:00
const T0: i64 = 1_741_168_800;

fn dt(secs: i64) -> DateTime {
    DateTime::from_timestamp(secs, 0).unwrap()
}

fn act(id: u128, at: i64) -> Activity {
    Activity { id, title: format!("a{id}"), occurs_at: dt(at), trip_id: 1 }
}

#[test]
fn activities_are_laid_out_by_day() {
    // from 10:00 on day 0 to 09:00 on day 3: two whole days and 23 hours
    let acts = vec![act(1, T0 - 3600), act(2, T0 + 3600), act(3, T0 + DAY + 50_000), act(4, T0 + 2 * DAY), act(5, T0 + 3 * DAY)];
    let days = group_activities(&dt(T0), &dt(T0 + 3 * DAY - 3600), &acts);
    assert_eq!(days.len(), 3);
    for (i, d) in days.iter().enumerate() {
        assert_eq!(d.date.timestamp(), T0 + i as i64 * DAY);
    }
    let ids: Vec<Vec<u128>> = days.iter().map(|d| d.activities.iter().map(|a| a.id).collect()).collect();
    // activity 1 is earlier on day 0 but on the same date; activity 5 is on a date past the last day
    assert_eq!(ids, vec![vec![1, 2], vec![3], vec![4]]);
}

#[test]
fn trip_ending_before_it_starts_has_no_days() {
    let days = group_activities(&dt(T0 + DAY), &dt(T0), &vec![act(1, T0)]);
    assert!(days.is_empty());
}

#[test]
fn same_day_trip_has_one_day() {
    let days = group_activities(&dt(T0), &dt(T0 + 60), &vec![act(1, T0 + 30), act(2, T0 - 30)]);
    assert_eq!(days.len(), 1);
    assert_eq!(days[0].activities.len(), 2);
}

fn trip(starts: i64, ends: i64) -> Trip {
    Trip { id: 1, destination: "Roma".to_string(), starts_at: dt(starts), ends_at: dt(ends), is_confirmed: false, created_at: dt(0) }
}

#[test]
fn activities_listing_run() {
    let (mut flow, a) = GetActivities::start(1);
    assert!(matches!(a, get_activities::Action::FetchTrip(1)));
    assert!(matches!(flow.on_trip(Ok(Some(trip(T0, T0 + DAY)))), get_activities::Action::FetchActivities(1)));
    assert!(flow.days_fit_calendar());
    match flow.on_activities(Ok(vec![act(7, T0 + DAY)])) {
        get_activities::Action::Respond(Ok(body)) => {
            assert_eq!(body.activities.len(), 2);
            assert!(body.activities[0].activities.is_empty());
            assert_eq!(body.activities[1].activities[0].id, 7);
        },
        _ => panic!("expected the answer"),
    }
    let (mut flow, _) = GetActivities::start(1);
    assert!(matches!(
        flow.on_trip(Ok(None)),
        get_activities::Action::Respond(Err(AppError::BadRequest(ref m))) if m == "Trip not found"
    ));
}

#[test]
fn last_leap_second_of_the_calendar_does_not_fit() {
    let max = planner::datetime::MAX_TIMESTAMP;
    let end = DateTime::from_timestamp(max, 1_500_000_000).unwrap();
    let start = dt(max - 86_399);
    assert!(!get_activities::days_fit_calendar(&start, &end));
    assert!(get_activities::days_fit_calendar(&dt(T0), &dt(T0 + 5 * DAY)));
}

#[test]
fn links_listing_run() {
    let (mut flow, a) = GetLinks::start(1);
    assert!(matches!(a, get_links::Action::FetchTrip(1)));
    assert!(matches!(flow.on_trip(Ok(Some(trip(T0, T0)))), get_links::Action::FetchLinks(1)));
    let links = vec![Link { id: 3, title: "Hotel".to_string(), url: "https://h".to_string(), trip_id: 1 }];
    match flow.on_links(Ok(links)) {
        get_links::Action::Respond(Ok(body)) => {
            assert_eq!(body.links.len(), 1);
            assert_eq!(body.links[0].title, "Hotel");
        },
        _ => panic!("expected the answer"),
    }
    let (mut flow, _) = GetLinks::start(1);
    assert!(matches!(
        flow.on_trip(Err("db".to_string())),
        get_links::Action::Respond(Err(AppError::InternalServerError(ref m))) if m == "db"
    ));
}

#[test]
fn single_lookups() {
    let p = Participant { id: 4, name: Some("Bo".to_string()), email: "bo@x.com".to_string(), is_confirmed: true };
    assert_eq!(get_participant(Ok(Some(p))).ok().unwrap().participant.id, 4);
    assert!(matches!(get_participant(Ok(None)), Err(AppError::BadRequest(ref m)) if m == "Participant not found"));
    assert!(matches!(get_participant(Err("db".to_string())), Err(AppError::InternalServerError(ref m)) if m == "db"));
    let t = get_trip_details::Trip { id: 2, destination: "Roma".to_string(), starts_at: dt(T0), ends_at: dt(T0), is_confirmed: false };
    assert_eq!(get_trip_details(Ok(Some(t))).ok().unwrap().trip.id, 2);
    assert!(matches!(get_trip_details(Ok(None)), Err(AppError::BadRequest(ref m)) if m == "Trip not found"));
    assert_eq!(ready(), 204);
}
