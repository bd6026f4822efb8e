use planner::datetime::DateTime;
use planner::error::AppError;
use planner::routes::create_trip::{Action, CreateTrip, Reply, RequestBody, Stage};

const DAY: i64 = 86_400;
// 2025-03-05 12:00:00
const T0: i64 = 1_741_176_000;

fn dt(secs: i64) -> DateTime {
    DateTime::from_timestamp(secs, 0).unwrap()
}

fn body(destination: &str, starts: i64, ends: i64, owner_email: &str, invites: &[&str]) -> RequestBody {
    RequestBody {
        destination: destination.to_string(),
        starts_at: dt(starts),
        ends_at: dt(ends),
        owner_name: "Ana".to_string(),
        owner_email: owner_email.to_string(),
        emails_to_invite: invites.iter().map(|s| s.to_string()).collect(),
    }
}

fn start(b: RequestBody, now: i64) -> (CreateTrip, Action) {
    CreateTrip::start_at(b, "http://api".to_string(), dt(now))
}

fn bad_request(a: &Action) -> Option<String> {
    match a {
        Action::Respond(Err(AppError::BadRequest(m))) => Some(m.clone()),
        _ => None,
    }
}

fn internal(a: &Action) -> Option<String> {
    match a {
        Action::Respond(Err(AppError::InternalServerError(m))) => Some(m.clone()),
        _ => None,
    }
}

#[test]
fn valid_request_opens_a_transaction() {
    let (flow, action) = start(body("Rome", T0 + DAY, T0 + 3 * DAY, "ana@x.com", &["bo@x.com"]), T0);
    assert!(matches!(action, Action::BeginTransaction));
    assert!(matches!(flow.stage, Stage::Begin));
}

#[test]
fn short_destination_is_a_server_error() {
    let (flow, action) = start(body("Rio", T0 + DAY, T0 + 3 * DAY, "ana@x.com", &[]), T0);
    let m = internal(&action).unwrap();
    assert!(m.starts_with("destination: Validation error: length ["), "{m}");
    assert!(m.contains("\"min\"") && m.contains("\"value\"") && m.contains("Rio"), "{m}");
    assert!(matches!(flow.stage, Stage::Finished));
}

#[test]
fn bad_owner_email_is_a_server_error() {
    let (_, action) = start(body("Rome", T0 + DAY, T0 + 3 * DAY, "ana", &[]), T0);
    let m = internal(&action).unwrap();
    assert!(m.starts_with("owner_email: Validation error: email ["), "{m}");
    assert!(m.contains("\"value\"") && m.contains("ana"), "{m}");
}

#[test]
fn bad_invite_email_is_a_server_error() {
    let (_, action) = start(body("Rome", T0 + DAY, T0 + 3 * DAY, "ana@x.com", &["bo@x.com", "nope"]), T0);
    let m = internal(&action).unwrap();
    assert!(m.starts_with("emails_to_invite: Validation error: Invalid email ["), "{m}");
    assert!(m.contains("\"value\"") && m.contains("nope"), "{m}");
}

#[test]
fn several_bad_fields_give_one_server_error() {
    let (_, action) = start(body("Rio", T0 + DAY, T0 + 3 * DAY, "ana", &["nope"]), T0);
    let m = internal(&action).unwrap();
    assert!(m.contains("destination: Validation error: length ["), "{m}");
    assert!(m.contains("owner_email: Validation error: email ["), "{m}");
    assert!(m.contains("emails_to_invite: Validation error: Invalid email ["), "{m}");
    assert_eq!(m.lines().count(), 3);
}

#[test]
fn trip_in_the_past_is_refused() {
    let (_, action) = start(body("Rome", T0 - 1, T0 + DAY, "ana@x.com", &[]), T0);
    assert_eq!(bad_request(&action).as_deref(), Some("Invalid trip start date"));
}

#[test]
fn trip_starting_now_is_accepted() {
    let (_, action) = start(body("Rome", T0, T0, "ana@x.com", &[]), T0);
    assert!(matches!(action, Action::BeginTransaction));
}

#[test]
fn trip_ending_before_start_is_refused() {
    let (_, action) = start(body("Rome", T0 + 2 * DAY, T0 + DAY, "ana@x.com", &[]), T0);
    assert_eq!(bad_request(&action).as_deref(), Some("Invalid trip end date"));
}

#[test]
fn start_date_is_checked_before_end_date() {
    let (_, action) = start(body("Rome", T0 - DAY, T0 - 2 * DAY, "ana@x.com", &[]), T0);
    assert_eq!(bad_request(&action).as_deref(), Some("Invalid trip start date"));
}

#[test]
fn successful_planning_run() {
    let (mut flow, a) = start(body("Rome", T0 + DAY, T0 + 3 * DAY, "ana@x.com", &["bo@x.com", "cy@x.com"]), T0);
    assert!(matches!(a, Action::BeginTransaction));
    let a = flow.resume(Reply::Completed);
    match a {
        Action::InsertTrip { destination, starts_at, ends_at } => {
            assert_eq!(destination, "Rome");
            assert_eq!(starts_at.timestamp(), T0 + DAY);
            assert_eq!(ends_at.timestamp(), T0 + 3 * DAY);
        },
        _ => panic!("expected the trip insert"),
    }
    let trip_id: u128 = 0x1234;
    let a = flow.resume(Reply::Created(trip_id));
    match a {
        Action::InsertParticipant { name, email, is_confirmed, is_owner, trip_id: t } => {
            assert_eq!(name.as_deref(), Some("Ana"));
            assert_eq!(email, "ana@x.com");
            assert!(is_confirmed && is_owner);
            assert_eq!(t, trip_id);
        },
        _ => panic!("expected the owner insert"),
    }
    for expected in ["bo@x.com", "cy@x.com"] {
        assert!(flow.accepts(&Reply::Completed));
        match flow.resume(Reply::Completed) {
            Action::InsertParticipant { name, email, is_confirmed, is_owner, trip_id: t } => {
                assert!(name.is_none());
                assert_eq!(email, expected);
                assert!(!is_confirmed && !is_owner);
                assert_eq!(t, trip_id);
            },
            _ => panic!("expected an invitee insert"),
        }
    }
    assert!(matches!(flow.resume(Reply::Completed), Action::Commit));
    match flow.resume(Reply::Completed) {
        Action::EnqueueMail(mail) => {
            assert_eq!(mail.to_address, "ana@x.com");
            assert_eq!(mail.to_name.as_deref(), Some("Ana"));
            assert_eq!(mail.from_name, "Equipe Plann.er");
            assert_eq!(mail.from_address, "noreply@plann.er");
            assert_eq!(mail.subject, "Confirme sua viagem para Rome em 06 de março, 2025");
            assert!(mail.html.contains("<strong>Rome</strong> nas datas de <strong>06 de março, 2025</strong> até <strong>08 de março, 2025</strong>"));
            assert!(mail.html.contains("<a href=\"00000000-0000-0000-0000-000000001234/trips/http://api/confirm\">Confirmar viagem</a>"));
            assert!(mail.html.starts_with("<div style="));
            assert!(mail.html.ends_with("</div>"));
        },
        _ => panic!("expected the e-mail"),
    }
    match flow.resume(Reply::Completed) {
        Action::Respond(Ok(body)) => assert_eq!(body.trip_id, trip_id),
        _ => panic!("expected the answer"),
    }
    assert!(matches!(flow.stage, Stage::Finished));
    assert!(!flow.accepts(&Reply::Completed));
}

#[test]
fn no_invitees_go_straight_to_commit() {
    let (mut flow, _) = start(body("Rome", T0 + DAY, T0 + 3 * DAY, "ana@x.com", &[]), T0);
    flow.resume(Reply::Completed);
    flow.resume(Reply::Created(7));
    assert!(matches!(flow.resume(Reply::Completed), Action::Commit));
}

#[test]
fn failed_invitee_insert_rolls_back() {
    let (mut flow, _) = start(body("Rome", T0 + DAY, T0 + 3 * DAY, "ana@x.com", &["bo@x.com", "cy@x.com"]), T0);
    flow.resume(Reply::Completed);
    flow.resume(Reply::Created(7));
    flow.resume(Reply::Completed);
    assert!(matches!(flow.resume(Reply::Failed("duplicate".to_string())), Action::Rollback));
    assert_eq!(internal(&flow.resume(Reply::Completed)).as_deref(), Some("duplicate"));
}

#[test]
fn failed_owner_insert_rolls_back_and_reports_a_failed_rollback() {
    let (mut flow, _) = start(body("Rome", T0 + DAY, T0 + 3 * DAY, "ana@x.com", &[]), T0);
    flow.resume(Reply::Completed);
    flow.resume(Reply::Created(7));
    assert!(matches!(flow.resume(Reply::Failed("insert".to_string())), Action::Rollback));
    assert_eq!(internal(&flow.resume(Reply::Failed("rollback".to_string()))).as_deref(), Some("rollback"));
}

#[test]
fn failed_trip_insert_and_commit_and_mail() {
    let (mut flow, _) = start(body("Rome", T0 + DAY, T0 + 3 * DAY, "ana@x.com", &[]), T0);
    assert!(!flow.accepts(&Reply::Created(1)));
    assert_eq!(internal(&flow.resume(Reply::Failed("begin".to_string()))).as_deref(), Some("begin"));

    let (mut flow, _) = start(body("Rome", T0 + DAY, T0 + 3 * DAY, "ana@x.com", &[]), T0);
    flow.resume(Reply::Completed);
    assert!(!flow.accepts(&Reply::Completed));
    assert_eq!(internal(&flow.resume(Reply::Failed("trip".to_string()))).as_deref(), Some("trip"));

    let (mut flow, _) = start(body("Rome", T0 + DAY, T0 + 3 * DAY, "ana@x.com", &[]), T0);
    flow.resume(Reply::Completed);
    flow.resume(Reply::Created(7));
    flow.resume(Reply::Completed);
    assert_eq!(internal(&flow.resume(Reply::Failed("commit".to_string()))).as_deref(), Some("commit"));

    let (mut flow, _) = start(body("Rome", T0 + DAY, T0 + 3 * DAY, "ana@x.com", &[]), T0);
    flow.resume(Reply::Completed);
    flow.resume(Reply::Created(7));
    flow.resume(Reply::Completed);
    flow.resume(Reply::Completed);
    assert_eq!(internal(&flow.resume(Reply::Failed("queue".to_string()))).as_deref(), Some("queue"));
}
