use vstd::prelude::*;
use vstd::string::*;
use crate::error::{AppError, AppErrorView};
use crate::ids::{id_to_string, id_text};
use crate::routes::confirm_trip::{Participant, ParticipantView, stored_row, write_view};

verus! {

/// The reply to a participant's confirmation: the id of the trip.
pub struct ResponseBody {
    pub trip_id: u128,
}

pub const PARTICIPANT_NOT_FOUND: &'static str = "Participant not found";

/// Where the web application shows the trip of a participant.
pub open spec fn participant_trip_page(web_base_url: Seq<char>, trip_id: u128) -> Seq<char> {
    web_base_url + "/trips/"@ + id_text(trip_id)
}

/// Where the confirmation of a participant stands.
#[derive(Clone, Copy)]
pub enum Stage {
    /// The participant is being looked up.
    AwaitParticipant,
    /// The participant is being marked as confirmed.
    AwaitUpdate,
    /// The reply has been given.
    Finished,
}

/// What the confirmation of a participant asks to be done next.
pub enum Action {
    /// Look up the participant with this id.
    FetchParticipant(u128),
    /// Mark the participant with this id as confirmed.
    MarkConfirmed(u128),
    /// Answer with a redirection to this address, or with an error.
    Respond(Result<String, AppError>),
}

pub enum ActionView {
    FetchParticipant(u128),
    MarkConfirmed(u128),
    Respond(Result<Seq<char>, AppErrorView>),
}

impl View for Action {
    type V = ActionView;

    open spec fn view(&self) -> ActionView {
        match self {
            Action::FetchParticipant(id) => ActionView::FetchParticipant(*id),
            Action::MarkConfirmed(id) => ActionView::MarkConfirmed(*id),
            Action::Respond(Ok(url)) => ActionView::Respond(Ok(url@)),
            Action::Respond(Err(e)) => ActionView::Respond(Err(e@)),
        }
    }
}

/// The confirmation of one participant: the id, the base URL of the web
/// application, the page to redirect to once known, and where it stands.
pub struct ConfirmParticipant {
    pub participant_id: u128,
    pub web_base_url: String,
    pub redirect: String,
    pub stage: Stage,
}

impl ConfirmParticipant {
    /// Starts confirming the participant with this id: look it up.
    pub fn start(participant_id: u128, web_base_url: String) -> (r: (ConfirmParticipant, Action))
        ensures
            r.0.participant_id == participant_id,
            r.0.web_base_url == web_base_url,
            r.0.stage == Stage::AwaitParticipant,
            r.1@ == ActionView::FetchParticipant(participant_id),
    {
        (
            ConfirmParticipant { participant_id, web_base_url, redirect: String::new(), stage: Stage::AwaitParticipant },
            Action::FetchParticipant(participant_id),
        )
    }

    /// Takes in the participant as looked up: an unknown participant is refused;
    /// one already confirmed is redirected to the page of its trip at once;
    /// otherwise it is marked as confirmed.
    pub fn on_participant(&mut self, found: Result<Option<Participant>, String>) -> (r: Action)
        requires
            old(self).stage == Stage::AwaitParticipant,
        ensures
            final(self).web_base_url == old(self).web_base_url,
            !(found matches Ok(Some(_))) ==> final(self).redirect == old(self).redirect,
            final(self).participant_id == old(self).participant_id,
            (final(self).stage, r@) == spec_after_lookup(
                old(self).participant_id,
                old(self).web_base_url@,
                participant_lookup_view(found),
            ),
            found matches Ok(Some(p)) ==> final(self).redirect@ == participant_trip_page(old(self).web_base_url@, p.trip_id),
    {
        match found {
            Err(m) => {
                self.stage = Stage::Finished;
                Action::Respond(Err(AppError::internal(m)))
            },
            Ok(None) => {
                self.stage = Stage::Finished;
                Action::Respond(Err(AppError::bad_request(PARTICIPANT_NOT_FOUND)))
            },
            Ok(Some(p)) => {
                let redirect = self.web_base_url.clone().concat("/trips/").concat(id_to_string(p.trip_id).as_str());
                if p.is_confirmed {
                    self.stage = Stage::Finished;
                    self.redirect = redirect.clone();
                    Action::Respond(Ok(redirect))
                } else {
                    self.stage = Stage::AwaitUpdate;
                    self.redirect = redirect;
                    Action::MarkConfirmed(self.participant_id)
                }
            },
        }
    }

    /// Takes in the outcome of marking the participant as confirmed.
    pub fn on_update(&mut self, done: Result<(), String>) -> (r: Action)
        requires
            old(self).stage == Stage::AwaitUpdate,
        ensures
            final(self).participant_id == old(self).participant_id,
            final(self).web_base_url == old(self).web_base_url,
            final(self).redirect == old(self).redirect,
            final(self).stage == Stage::Finished,
            r@ == after_participant_update(old(self).redirect@, write_view(done)),
    {
        self.stage = Stage::Finished;
        match done {
            Err(m) => Action::Respond(Err(AppError::internal(m))),
            Ok(()) => Action::Respond(Ok(self.redirect.clone())),
        }
    }
}

/// The outcome of looking up one participant, by content.
pub open spec fn participant_lookup_view(
    found: Result<Option<Participant>, String>,
) -> Result<Option<ParticipantView>, Seq<char>> {
    match found {
        Err(m) => Err(m@),
        Ok(None) => Ok(None),
        Ok(Some(p)) => Ok(Some(p@)),
    }
}

/// What looking up the participant leads to: the next stage and action.
pub open spec fn spec_after_lookup(
    participant_id: u128,
    web_base_url: Seq<char>,
    found: Result<Option<ParticipantView>, Seq<char>>,
) -> (Stage, ActionView) {
    match found {
        Err(m) => (Stage::Finished, ActionView::Respond(Err(AppErrorView::InternalServerError(m)))),
        Ok(None) => (Stage::Finished, ActionView::Respond(Err(AppErrorView::BadRequest(PARTICIPANT_NOT_FOUND@)))),
        Ok(Some(p)) => if p.is_confirmed {
            (Stage::Finished, ActionView::Respond(Ok(participant_trip_page(web_base_url, p.trip_id))))
        } else {
            (Stage::AwaitUpdate, ActionView::MarkConfirmed(participant_id))
        },
    }
}

/// Confirming a participant again, once the stored participant is confirmed,
/// writes nothing and redirects to the same page as the first confirmation
/// did after marking it.
pub proof fn lemma_confirmation_is_idempotent(
    participant_id: u128,
    web_base_url: Seq<char>,
    before: ParticipantView,
    after: ParticipantView,
)
    requires
        !before.is_confirmed,
        after.is_confirmed,
        after.trip_id == before.trip_id,
    ensures
        spec_after_lookup(participant_id, web_base_url, Ok(Some(before)))
            == (Stage::AwaitUpdate, ActionView::MarkConfirmed(participant_id)),
        spec_after_lookup(participant_id, web_base_url, Ok(Some(after)))
            == (Stage::Finished, ActionView::Respond(Ok(participant_trip_page(web_base_url, before.trip_id)))),
{
}

/// What marking the participant as confirmed leads to: the redirection to
/// the page of its trip, or a server-side error.
pub open spec fn after_participant_update(redirect: Seq<char>, done: Result<(), Seq<char>>) -> ActionView {
    match done {
        Err(m) => ActionView::Respond(Err(AppErrorView::InternalServerError(m))),
        Ok(()) => ActionView::Respond(Ok(redirect)),
    }
}

/// One confirmation of participant `participant_id` against the stored
/// participants, with the lookup answering what is stored and the write
/// succeeding. It gives the stored participants afterwards and the reply.
pub open spec fn participant_confirmation_run(
    participants: Map<u128, ParticipantView>,
    participant_id: u128,
    web_base_url: Seq<char>,
) -> (Map<u128, ParticipantView>, ActionView) {
    let (s1, a1) = spec_after_lookup(participant_id, web_base_url, Ok(stored_row(participants, participant_id)));
    if !(s1 is AwaitUpdate) {
        (participants, a1)
    } else {
        let p = participants[participant_id];
        let confirmed = ParticipantView {
            id: p.id,
            name: p.name,
            email: p.email,
            is_confirmed: true,
            is_owner: p.is_owner,
            trip_id: p.trip_id,
        };
        (
            participants.insert(participant_id, confirmed),
            after_participant_update(participant_trip_page(web_base_url, p.trip_id), Ok(())),
        )
    }
}

/// Confirming a participant a second time, after a confirmation that
/// redirected, changes no stored participant and gives the same redirection.
pub proof fn lemma_confirming_a_participant_twice(
    participants: Map<u128, ParticipantView>,
    participant_id: u128,
    web_base_url: Seq<char>,
)
    requires
        participant_confirmation_run(participants, participant_id, web_base_url).1 matches ActionView::Respond(Ok(_)),
    ensures
        ({
            let first = participant_confirmation_run(participants, participant_id, web_base_url);
            let second = participant_confirmation_run(first.0, participant_id, web_base_url);
            &&& second.0 == first.0
            &&& second.1 == first.1
        }),
{
}

} // verus!
