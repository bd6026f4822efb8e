use planner::datetime::DateTime;
use planner::error::AppError;
use planner::routes::confirm_participant::{self, ConfirmParticipant};
use planner::routes::confirm_trip::{self, ConfirmTrip, Participant, Trip};

const T0: i64 = 1_741_176_000;

fn dt(secs: i64) -> DateTime {
    DateTime::from_timestamp(secs, 0).unwrap()
}

fn trip(confirmed: bool) -> Trip {
    Trip {
        id: 0xab,
        destination: "Lisboa".to_string(),
        starts_at: dt(T0),
        ends_at: dt(T0 + 2 * 86_400),
        is_confirmed: confirmed,
        created_at: dt(T0 - 100),
    }
}

fn guest(id: u128, email: &str) -> Participant {
    Participant { id, name: None, email: email.to_string(), is_confirmed: false, is_owner: false, trip_id: 0xab }
}

#[test]
fn confirming_a_trip_invites_every_guest() {
    let (mut flow, a) = ConfirmTrip::start(0xab);
    assert!(matches!(a, confirm_trip::Action::FetchTrip(0xab)));
    assert!(matches!(flow.on_trip(Ok(Some(trip(false)))), confirm_trip::Action::FetchGuests(0xab)));
    let a = flow.on_guests(Ok(vec![guest(1, "bo@x.com"), guest(2, "cy@x.com")]));
    assert!(matches!(a, confirm_trip::Action::MarkConfirmed(0xab)));
    match flow.on_update(Ok(())) {
        confirm_trip::Action::SendMails(mails) => {
            assert_eq!(mails.len(), 2);
            assert_eq!(mails[0].to_address, "bo@x.com");
            assert_eq!(mails[1].to_address, "cy@x.com");
            assert!(mails[0].to_name.is_none());
            assert_eq!(mails[0].subject, "Confirme sua presença na viagem para Lisboa em 05 de março, 2025");
            assert!(mails[0].html.contains("href=\"http://localhost:3333/participants/00000000-0000-0000-0000-000000000001\""));
            assert!(mails[1].html.contains("href=\"http://localhost:3333/participants/00000000-0000-0000-0000-000000000002\""));
            assert!(mails[0].html.contains("viagem para  <strong>Lisboa</strong> nas datas de <strong>05 de março, 2025</strong> até <strong>07 de março, 2025</strong>"));
        },
        _ => panic!("expected the invitations"),
    }
    match flow.on_mails_sent() {
        confirm_trip::Action::Respond(Ok(url)) => {
            assert_eq!(url, "http://localhost:3000/trips/00000000-0000-0000-0000-0000000000ab")
        },
        _ => panic!("expected the redirection"),
    }
}

#[test]
fn confirmed_trip_redirects_at_once() {
    let (mut flow, _) = ConfirmTrip::start(0xab);
    flow.on_trip(Ok(Some(trip(true))));
    match flow.on_guests(Ok(vec![guest(1, "bo@x.com")])) {
        confirm_trip::Action::Respond(Ok(url)) => {
            assert_eq!(url, "http://localhost:3000/trips/00000000-0000-0000-0000-0000000000ab")
        },
        _ => panic!("expected the redirection"),
    }
}

#[test]
fn unknown_trip_is_refused() {
    let (mut flow, _) = ConfirmTrip::start(0xab);
    assert!(matches!(
        flow.on_trip(Ok(None)),
        confirm_trip::Action::Respond(Err(AppError::BadRequest(ref m))) if m == "Trip not found"
    ));
}

#[test]
fn failed_lookups_are_server_errors() {
    let (mut flow, _) = ConfirmTrip::start(0xab);
    assert!(matches!(
        flow.on_trip(Err("db".to_string())),
        confirm_trip::Action::Respond(Err(AppError::InternalServerError(ref m))) if m == "db"
    ));
    let (mut flow, _) = ConfirmTrip::start(0xab);
    flow.on_trip(Ok(Some(trip(true))));
    assert!(matches!(
        flow.on_guests(Err("db2".to_string())),
        confirm_trip::Action::Respond(Err(AppError::InternalServerError(ref m))) if m == "db2"
    ));
    let (mut flow, _) = ConfirmTrip::start(0xab);
    flow.on_trip(Ok(Some(trip(false))));
    flow.on_guests(Ok(vec![]));
    assert!(matches!(
        flow.on_update(Err("db3".to_string())),
        confirm_trip::Action::Respond(Err(AppError::InternalServerError(ref m))) if m == "db3"
    ));
}

#[test]
fn confirming_a_participant() {
    let (mut flow, a) = ConfirmParticipant::start(5, "http://web".to_string());
    assert!(matches!(a, confirm_participant::Action::FetchParticipant(5)));
    let p = Participant { id: 5, name: None, email: "bo@x.com".to_string(), is_confirmed: false, is_owner: false, trip_id: 0xab };
    assert!(matches!(flow.on_participant(Ok(Some(p))), confirm_participant::Action::MarkConfirmed(5)));
    match flow.on_update(Ok(())) {
        confirm_participant::Action::Respond(Ok(url)) => {
            assert_eq!(url, "http://web/trips/00000000-0000-0000-0000-0000000000ab")
        },
        _ => panic!("expected the redirection"),
    }
}

#[test]
fn confirming_a_participant_twice_writes_nothing() {
    let (mut flow, _) = ConfirmParticipant::start(5, "http://web".to_string());
    let p = Participant { id: 5, name: None, email: "bo@x.com".to_string(), is_confirmed: true, is_owner: false, trip_id: 0xab };
    match flow.on_participant(Ok(Some(p))) {
        confirm_participant::Action::Respond(Ok(url)) => {
            assert_eq!(url, "http://web/trips/00000000-0000-0000-0000-0000000000ab")
        },
        _ => panic!("expected the redirection"),
    }
}

#[test]
fn unknown_participant_is_refused() {
    let (mut flow, _) = ConfirmParticipant::start(5, "http://web".to_string());
    assert!(matches!(
        flow.on_participant(Ok(None)),
        confirm_participant::Action::Respond(Err(AppError::BadRequest(ref m))) if m == "Participant not found"
    ));
    let (mut flow, _) = ConfirmParticipant::start(5, "http://web".to_string());
    assert!(matches!(
        flow.on_participant(Err("db".to_string())),
        confirm_participant::Action::Respond(Err(AppError::InternalServerError(ref m))) if m == "db"
    ));
}

fn copy_trip(t: &Trip) -> Trip {
    Trip {
        id: t.id,
        destination: t.destination.clone(),
        starts_at: t.starts_at.copy(),
        ends_at: t.ends_at.copy(),
        is_confirmed: t.is_confirmed,
        created_at: t.created_at.copy(),
    }
}

/// Runs one confirmation against the stored trip, carrying out its write;
/// gives the number of e-mails sent, the number of writes and the reply.
fn confirm_against(stored: &mut Trip) -> (usize, usize, String) {
    let (mut flow, _) = ConfirmTrip::start(0xab);
    flow.on_trip(Ok(Some(copy_trip(stored))));
    let mut writes = 0;
    let mut sent = 0;
    let mut action = flow.on_guests(Ok(vec![guest(1, "bo@x.com")]));
    loop {
        action = match action {
            confirm_trip::Action::MarkConfirmed(_) => {
                stored.is_confirmed = true;
                writes += 1;
                flow.on_update(Ok(()))
            },
            confirm_trip::Action::SendMails(mails) => {
                sent += mails.len();
                flow.on_mails_sent()
            },
            confirm_trip::Action::Respond(Ok(url)) => return (sent, writes, url),
            _ => panic!("unexpected action"),
        };
    }
}

#[test]
fn confirming_a_trip_twice() {
    let mut stored = trip(false);
    let first = confirm_against(&mut stored);
    assert_eq!((first.0, first.1), (1, 1));
    assert!(stored.is_confirmed);
    let second = confirm_against(&mut stored);
    assert_eq!((second.0, second.1), (0, 0));
    assert_eq!(second.2, first.2);
    assert!(stored.is_confirmed);
}

#[test]
fn confirming_a_participant_twice() {
    let mut stored = Participant { id: 5, name: None, email: "bo@x.com".to_string(), is_confirmed: false, is_owner: false, trip_id: 0xab };
    let mut replies = Vec::new();
    for _ in 0..2 {
        let (mut flow, _) = ConfirmParticipant::start(5, "http://web".to_string());
        let copy = Participant { id: 5, name: None, email: stored.email.clone(), is_confirmed: stored.is_confirmed, is_owner: false, trip_id: 0xab };
        let reply = match flow.on_participant(Ok(Some(copy))) {
            confirm_participant::Action::MarkConfirmed(5) => {
                stored.is_confirmed = true;
                flow.on_update(Ok(()))
            },
            other => other,
        };
        match reply {
            confirm_participant::Action::Respond(Ok(url)) => replies.push(url),
            _ => panic!("expected the redirection"),
        }
    }
    assert!(stored.is_confirmed);
    assert_eq!(replies[0], replies[1]);
}
