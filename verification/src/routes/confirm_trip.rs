use vstd::prelude::*;
use vstd::string::*;
use crate::datetime::DateTime;
use crate::error::{AppError, AppErrorView};
use crate::ids::{id_to_string, id_text};
use crate::mail::{MailDraft, MailDraftView, invitation_mail, spec_invitation_mail};

verus! {

/// A trip as stored.
pub struct Trip {
    pub id: u128,
    pub destination: String,
    pub starts_at: DateTime,
    pub ends_at: DateTime,
    pub is_confirmed: bool,
    pub created_at: DateTime,
}

/// A participant of a trip as stored.
pub struct Participant {
    pub id: u128,
    pub name: Option<String>,
    pub email: String,
    pub is_confirmed: bool,
    pub is_owner: bool,
    pub trip_id: u128,
}

/// The content of a stored trip.
pub struct TripView {
    pub id: u128,
    pub destination: Seq<char>,
    pub starts_at: (int, int),
    pub ends_at: (int, int),
    pub is_confirmed: bool,
    pub created_at: (int, int),
}

impl View for Trip {
    type V = TripView;

    open spec fn view(&self) -> TripView {
        TripView {
            id: self.id,
            destination: self.destination@,
            starts_at: self.starts_at@,
            ends_at: self.ends_at@,
            is_confirmed: self.is_confirmed,
            created_at: self.created_at@,
        }
    }
}

/// The content of a stored participant.
pub struct ParticipantView {
    pub id: u128,
    pub name: Option<Seq<char>>,
    pub email: Seq<char>,
    pub is_confirmed: bool,
    pub is_owner: bool,
    pub trip_id: u128,
}

impl View for Participant {
    type V = ParticipantView;

    open spec fn view(&self) -> ParticipantView {
        ParticipantView {
            id: self.id,
            name: match self.name {
                Some(n) => Some(n@),
                None => None,
            },
            email: self.email@,
            is_confirmed: self.is_confirmed,
            is_owner: self.is_owner,
            trip_id: self.trip_id,
        }
    }
}

/// The row stored under `key`, if any.
pub open spec fn stored_row<K, V>(rows: Map<K, V>, key: K) -> Option<V> {
    if rows.contains_key(key) {
        Some(rows[key])
    } else {
        None
    }
}

/// The outcome of looking up one trip, by content.
pub open spec fn trip_lookup_view(found: Result<Option<Trip>, String>) -> Result<Option<TripView>, Seq<char>> {
    match found {
        Err(m) => Err(m@),
        Ok(None) => Ok(None),
        Ok(Some(t)) => Ok(Some(t@)),
    }
}

/// The outcome of listing participants, by content.
pub open spec fn participants_view(found: Result<Vec<Participant>, String>) -> Result<Seq<ParticipantView>, Seq<char>> {
    match found {
        Err(m) => Err(m@),
        Ok(list) => Ok(list@.map_values(|p: Participant| p@)),
    }
}

/// The outcome of a write, by content.
pub open spec fn write_view(done: Result<(), String>) -> Result<(), Seq<char>> {
    match done {
        Err(m) => Err(m@),
        Ok(()) => Ok(()),
    }
}

/// The reply to a trip confirmation: the id of the trip.
pub struct ResponseBody {
    pub trip_id: u128,
}

pub const TRIP_NOT_FOUND: &'static str = "Trip not found";

/// Where a trip is shown in the web application.
pub open spec fn trip_page(trip_id: u128) -> Seq<char> {
    "http://localhost:3000/trips/"@ + id_text(trip_id)
}

/// The link by which a participant confirms taking part.
pub open spec fn participant_link(participant_id: u128) -> Seq<char> {
    "http://localhost:3333/participants/"@ + id_text(participant_id)
}

/// The invitations sent when the trip is confirmed: one to each guest, in order.
pub open spec fn invitations(trip: TripView, guests: Seq<ParticipantView>) -> Seq<MailDraftView> {
    Seq::new(
        guests.len(),
        |i: int|
            spec_invitation_mail(
                guests[i].email,
                trip.destination,
                trip.starts_at,
                trip.ends_at,
                participant_link(guests[i].id),
            ),
    )
}

/// Confirming a trip e-mails every listed guest once, in the order listed:
/// mail `i` goes to guest `i`'s address and carries guest `i`'s confirmation
/// link. Nothing but a guest's address and id matters, so whether a guest has
/// already confirmed (or has a name) changes no invitation.
pub proof fn lemma_every_guest_is_invited(
    trip: TripView,
    guests: Seq<ParticipantView>,
    others: Seq<ParticipantView>,
)
    requires
        others.len() == guests.len(),
        forall|i: int| 0 <= i < guests.len() ==> #[trigger] others[i].email == guests[i].email
            && others[i].id == guests[i].id,
    ensures
        invitations(trip, guests).len() == guests.len(),
        forall|i: int| 0 <= i < guests.len() ==> {
            &&& (#[trigger] invitations(trip, guests)[i]).to_address == guests[i].email
            &&& invitations(trip, guests)[i] == spec_invitation_mail(
                guests[i].email,
                trip.destination,
                trip.starts_at,
                trip.ends_at,
                participant_link(guests[i].id),
            )
        },
        invitations(trip, guests) == invitations(trip, others),
{
    assert(invitations(trip, guests) =~= invitations(trip, others));
}

/// Where the confirmation of a trip stands.
#[derive(Clone, Copy)]
pub enum Stage {
    /// The trip is being looked up.
    AwaitTrip,
    /// The participants who do not own the trip are being looked up.
    AwaitGuests,
    /// The trip is being marked as confirmed.
    AwaitUpdate,
    /// The invitations are being sent.
    AwaitMails,
    /// The reply has been given.
    Finished,
}

/// What the confirmation of a trip asks to be done next.
pub enum Action {
    /// Look up the trip with this id.
    FetchTrip(u128),
    /// Look up the participants of the trip who do not own it.
    FetchGuests(u128),
    /// Mark the trip as confirmed.
    MarkConfirmed(u128),
    /// Send these e-mails, each on its own; failures of sending are not reported.
    SendMails(Vec<MailDraft>),
    /// Answer with a redirection to this address, or with an error.
    Respond(Result<String, AppError>),
}

pub enum ActionView {
    FetchTrip(u128),
    FetchGuests(u128),
    MarkConfirmed(u128),
    SendMails(Seq<MailDraftView>),
    Respond(Result<Seq<char>, AppErrorView>),
}

impl View for Action {
    type V = ActionView;

    open spec fn view(&self) -> ActionView {
        match self {
            Action::FetchTrip(id) => ActionView::FetchTrip(*id),
            Action::FetchGuests(id) => ActionView::FetchGuests(*id),
            Action::MarkConfirmed(id) => ActionView::MarkConfirmed(*id),
            Action::SendMails(mails) => ActionView::SendMails(mails@.map_values(|m: MailDraft| m@)),
            Action::Respond(Ok(url)) => ActionView::Respond(Ok(url@)),
            Action::Respond(Err(e)) => ActionView::Respond(Err(e@)),
        }
    }
}

/// The confirmation of one trip: its id, the trip and its guests once looked
/// up, and where it stands.
pub struct ConfirmTrip {
    pub trip_id: u128,
    pub trip: Option<Trip>,
    pub guests: Vec<Participant>,
    pub stage: Stage,
}

pub open spec fn fail_with(m: Seq<char>) -> ActionView {
    ActionView::Respond(Err(AppErrorView::InternalServerError(m)))
}

/// What looking up the trip leads to: the next stage and action.
pub open spec fn after_trip_lookup(trip_id: u128, found: Result<Option<TripView>, Seq<char>>) -> (Stage, ActionView) {
    match found {
        Err(m) => (Stage::Finished, fail_with(m)),
        Ok(None) => (Stage::Finished, ActionView::Respond(Err(AppErrorView::BadRequest(TRIP_NOT_FOUND@)))),
        Ok(Some(_)) => (Stage::AwaitGuests, ActionView::FetchGuests(trip_id)),
    }
}

/// What looking up the guests leads to: the next stage and action. A trip
/// already confirmed is redirected to; otherwise it is marked as confirmed.
pub open spec fn spec_after_guests(
    trip_id: u128,
    is_confirmed: bool,
    found: Result<Seq<ParticipantView>, Seq<char>>,
) -> (Stage, ActionView) {
    match found {
        Err(m) => (Stage::Finished, fail_with(m)),
        Ok(_) => if is_confirmed {
            (Stage::Finished, ActionView::Respond(Ok(trip_page(trip_id))))
        } else {
            (Stage::AwaitUpdate, ActionView::MarkConfirmed(trip_id))
        },
    }
}

/// Confirming a trip again, once it is stored as confirmed, writes nothing
/// and sends nothing, whatever its guests: it redirects to the trip's page,
/// the page that the first confirmation ends on.
pub proof fn lemma_trip_confirmation_is_idempotent(trip_id: u128, guests: Seq<ParticipantView>)
    ensures
        spec_after_guests(trip_id, false, Ok(guests)) == (Stage::AwaitUpdate, ActionView::MarkConfirmed(trip_id)),
        spec_after_guests(trip_id, true, Ok(guests)) == (Stage::Finished, ActionView::Respond(Ok(trip_page(trip_id)))),
{
}

/// What marking the trip as confirmed leads to: the invitations, or a
/// server-side error.
pub open spec fn after_update(
    trip: TripView,
    guests: Seq<ParticipantView>,
    done: Result<(), Seq<char>>,
) -> (Stage, ActionView) {
    match done {
        Err(m) => (Stage::Finished, fail_with(m)),
        Ok(()) => (Stage::AwaitMails, ActionView::SendMails(invitations(trip, guests))),
    }
}

/// One confirmation of trip `trip_id` against the stored trips `trips`, with
/// each lookup answering what is stored and each write succeeding; `guests`
/// is what the lookup of the trip's guests lists. It gives the stored trips
/// afterwards, the e-mails sent, and the reply.
pub open spec fn confirmation_run(
    trips: Map<u128, TripView>,
    trip_id: u128,
    guests: Seq<ParticipantView>,
) -> (Map<u128, TripView>, Seq<MailDraftView>, ActionView) {
    let (s1, a1) = after_trip_lookup(trip_id, Ok(stored_row(trips, trip_id)));
    if !(s1 is AwaitGuests) {
        (trips, Seq::empty(), a1)
    } else {
        let t = trips[trip_id];
        let (s2, a2) = spec_after_guests(trip_id, t.is_confirmed, Ok(guests));
        if !(s2 is AwaitUpdate) {
            (trips, Seq::empty(), a2)
        } else {
            let confirmed = TripView {
                id: t.id,
                destination: t.destination,
                starts_at: t.starts_at,
                ends_at: t.ends_at,
                is_confirmed: true,
                created_at: t.created_at,
            };
            let (s3, a3) = after_update(t, guests, Ok(()));
            let mails = match a3 {
                ActionView::SendMails(ms) => ms,
                _ => Seq::empty(),
            };
            (trips.insert(trip_id, confirmed), mails, ActionView::Respond(Ok(trip_page(trip_id))))
        }
    }
}

/// Confirming a trip a second time, after a confirmation that redirected,
/// changes no stored trip, sends no e-mail and gives the same redirection,
/// whatever the guest lookups list.
pub proof fn lemma_confirming_a_trip_twice(
    trips: Map<u128, TripView>,
    trip_id: u128,
    first_guests: Seq<ParticipantView>,
    second_guests: Seq<ParticipantView>,
)
    requires
        confirmation_run(trips, trip_id, first_guests).2 matches ActionView::Respond(Ok(_)),
    ensures
        ({
            let first = confirmation_run(trips, trip_id, first_guests);
            let second = confirmation_run(first.0, trip_id, second_guests);
            &&& second.0 == first.0
            &&& second.1 == Seq::<MailDraftView>::empty()
            &&& second.2 == first.2
        }),
{
}

impl ConfirmTrip {
    /// Starts confirming the trip with this id: look it up.
    pub fn start(trip_id: u128) -> (r: (ConfirmTrip, Action))
        ensures
            r.0.trip_id == trip_id,
            r.0.trip is None,
            r.0.stage == Stage::AwaitTrip,
            r.1@ == ActionView::FetchTrip(trip_id),
    {
        (ConfirmTrip { trip_id, trip: None, guests: Vec::new(), stage: Stage::AwaitTrip }, Action::FetchTrip(trip_id))
    }

    /// Takes in the trip as looked up: an unknown trip is refused, a failed
    /// lookup is a server-side error, a found trip leads to its guests.
    pub fn on_trip(&mut self, found: Result<Option<Trip>, String>) -> (r: Action)
        requires
            old(self).stage == Stage::AwaitTrip,
        ensures
            final(self).guests == old(self).guests,
            !(found matches Ok(Some(_))) ==> final(self).trip == old(self).trip,
            final(self).trip_id == old(self).trip_id,
            (final(self).stage, r@) == after_trip_lookup(old(self).trip_id, trip_lookup_view(found)),
            found matches Ok(Some(t)) ==> final(self).trip == Some(t),
    {
        match found {
            Err(m) => {
                self.stage = Stage::Finished;
                Action::Respond(Err(AppError::internal(m)))
            },
            Ok(None) => {
                self.stage = Stage::Finished;
                Action::Respond(Err(AppError::bad_request(TRIP_NOT_FOUND)))
            },
            Ok(Some(t)) => {
                self.stage = Stage::AwaitGuests;
                self.trip = Some(t);
                Action::FetchGuests(self.trip_id)
            },
        }
    }

    fn redirect(&self) -> (r: String)
        ensures
            r@ == trip_page(self.trip_id),
    {
        String::from_str("http://localhost:3000/trips/").concat(id_to_string(self.trip_id).as_str())
    }

    /// Takes in the guests as looked up: a trip already confirmed is redirected
    /// to at once, with nothing written and nothing sent; otherwise it is
    /// marked as confirmed.
    pub fn on_guests(&mut self, found: Result<Vec<Participant>, String>) -> (r: Action)
        requires
            old(self).stage == Stage::AwaitGuests,
            old(self).trip is Some,
        ensures
            old(self).trip->0.is_confirmed || found is Err ==> final(self).guests == old(self).guests,
            final(self).trip_id == old(self).trip_id,
            final(self).trip == old(self).trip,
            (final(self).stage, r@) == spec_after_guests(
                old(self).trip_id,
                old(self).trip->0.is_confirmed,
                participants_view(found),
            ),
            !old(self).trip->0.is_confirmed ==> (found matches Ok(list) ==> final(self).guests@ == list@),
    {
        match found {
            Err(m) => {
                self.stage = Stage::Finished;
                Action::Respond(Err(AppError::internal(m)))
            },
            Ok(list) => {
                let confirmed = match &self.trip {
                    Some(t) => t.is_confirmed,
                    None => false,
                };
                if confirmed {
                    self.stage = Stage::Finished;
                    Action::Respond(Ok(self.redirect()))
                } else {
                    self.stage = Stage::AwaitUpdate;
                    self.guests = list;
                    Action::MarkConfirmed(self.trip_id)
                }
            },
        }
    }

    /// Takes in the outcome of marking the trip as confirmed: then each guest
    /// gets an invitation with the link that confirms taking part.
    pub fn on_update(&mut self, done: Result<(), String>) -> (r: Action)
        requires
            old(self).stage == Stage::AwaitUpdate,
            old(self).trip is Some,
        ensures
            final(self).guests == old(self).guests,
            final(self).trip_id == old(self).trip_id,
            final(self).trip == old(self).trip,
            done is Ok ==> (r matches Action::SendMails(mails) && mails@.len() == old(self).guests@.len()
                && forall|i: int| 0 <= i < mails@.len() ==> (#[trigger] mails@[i]).to_address@ == old(self).guests@[i].email@),
            (final(self).stage, r@) == after_update(
                old(self).trip->0@,
                old(self).guests@.map_values(|p: Participant| p@),
                write_view(done),
            ),
    {
        match done {
            Err(m) => {
                self.stage = Stage::Finished;
                Action::Respond(Err(AppError::internal(m)))
            },
            Ok(()) => {
                let mut mails: Vec<MailDraft> = Vec::new();
                match &self.trip {
                    Some(trip) => {
                        let n = self.guests.len();
                        for i in 0..n
                            invariant
                                n == self.guests@.len(),
                                self.trip == Some(*trip),
                                mails@.len() == i,
                                forall|j: int|
                                    0 <= j < i ==> #[trigger] mails@[j]@ == invitations(
                                        trip@,
                                        self.guests@.map_values(|p: Participant| p@),
                                    )[j],
                        {
                            let guest = &self.guests[i];
                            let link = String::from_str("http://localhost:3333/participants/").concat(
                                id_to_string(guest.id).as_str(),
                            );
                            let mail = invitation_mail(&guest.email, &trip.destination, &trip.starts_at, &trip.ends_at, &link);
                            mails.push(mail);
                        }
                        assert(mails@.map_values(|m: MailDraft| m@) =~= invitations(
                            trip@,
                            self.guests@.map_values(|p: Participant| p@),
                        ));
                        assert forall|i: int| 0 <= i < mails@.len() implies (#[trigger] mails@[i]).to_address@
                            == self.guests@[i].email@ by {
                            assert(mails@[i]@ == invitations(trip@, self.guests@.map_values(|p: Participant| p@))[i]);
                        }
                    },
                    None => {},
                }
                self.stage = Stage::AwaitMails;
                Action::SendMails(mails)
            },
        }
    }

    /// Once the invitations have gone out (whether or not each was delivered),
    /// redirects to the trip's page.
    pub fn on_mails_sent(&mut self) -> (r: Action)
        requires
            old(self).stage == Stage::AwaitMails,
        ensures
            final(self).trip_id == old(self).trip_id,
            final(self).trip == old(self).trip,
            final(self).guests == old(self).guests,
            final(self).stage == Stage::Finished,
            r@ == ActionView::Respond(Ok(trip_page(old(self).trip_id))),
    {
        self.stage = Stage::Finished;
        Action::Respond(Ok(self.redirect()))
    }
}

} // verus!
