use vstd::prelude::*;
use vstd::string::*;
use crate::error::{AppError, AppErrorView, error_text};
use crate::ids::{id_to_string, id_text};
use crate::mail::{MailDraft, MailDraftView, invitation_mail, spec_invitation_mail};
use crate::routes::confirm_trip::{Trip, TRIP_NOT_FOUND};
use crate::validation::{
    field_error_codes, nested_error_fields, message_free_fields, reports_field_errors, is_email_text,
    validate_email, new_validation_errors, add_value_error,
};

verus! {

/// The request to invite someone to a trip.
pub struct RequestBody {
    pub email: String,
}

/// The reply to an invitation: the id of the new participant.
pub struct ResponseBody {
    pub participant_id: u128,
}

/// The errors of the field that breaks its rule, by field name.
pub open spec fn expected_field_errors(b: &RequestBody) -> Map<Seq<char>, Seq<Seq<char>>> {
    if is_email_text(b.email@) {
        Map::empty()
    } else {
        Map::empty().insert("email"@, seq!["email"@])
    }
}

impl RequestBody {
    /// Checks the field rule: an e-mail address.
    pub fn validate(&self) -> (r: Result<(), validator::ValidationErrors>)
        ensures
            r is Ok <==> is_email_text(self.email@),
            r matches Err(e) ==> field_error_codes(e) == expected_field_errors(self)
                && nested_error_fields(e).is_empty()
                && message_free_fields(e) == expected_field_errors(self).dom(),
    {
        let mut errors = new_validation_errors();
        if !validate_email(&self.email) {
            add_value_error(&mut errors, "email", "email", &self.email);
            assert(field_error_codes(errors) =~= expected_field_errors(self));
            assert(message_free_fields(errors) =~= expected_field_errors(self).dom());
            return Err(errors);
        }
        Ok(())
    }
}

/// The link by which an invited participant confirms taking part.
pub open spec fn invitation_link(api_base_url: Seq<char>, participant_id: u128) -> Seq<char> {
    api_base_url + "/participants/"@ + id_text(participant_id)
}

/// Where an invitation stands.
#[derive(Clone, Copy)]
pub enum Stage {
    AwaitTrip,
    AwaitInsert,
    AwaitMail,
    Finished,
}

/// What an invitation asks to be done next.
pub enum Action {
    /// Look up the trip with this id.
    FetchTrip(u128),
    /// Insert an unconfirmed participant with this address and report its id.
    InsertParticipant { email: String, trip_id: u128 },
    /// Queue the e-mail for sending.
    EnqueueMail(MailDraft),
    /// Answer the request.
    Respond(Result<ResponseBody, AppError>),
}

pub enum ActionView {
    FetchTrip(u128),
    InsertParticipant { email: Seq<char>, trip_id: u128 },
    EnqueueMail(MailDraftView),
    Respond(Result<u128, AppErrorView>),
}

impl View for Action {
    type V = ActionView;

    open spec fn view(&self) -> ActionView {
        match self {
            Action::FetchTrip(id) => ActionView::FetchTrip(*id),
            Action::InsertParticipant { email, trip_id } => ActionView::InsertParticipant {
                email: email@,
                trip_id: *trip_id,
            },
            Action::EnqueueMail(m) => ActionView::EnqueueMail(m@),
            Action::Respond(Ok(body)) => ActionView::Respond(Ok(body.participant_id)),
            Action::Respond(Err(e)) => ActionView::Respond(Err(e@)),
        }
    }
}

/// One invitation to a trip.
pub struct CreateInvite {
    pub trip_id: u128,
    pub api_base_url: String,
    pub request: RequestBody,
    pub trip: Option<Trip>,
    pub participant_id: u128,
    pub stage: Stage,
}

impl CreateInvite {
    /// Starts the invitation: a request without an e-mail address is answered
    /// with a server-side error; otherwise the trip is looked up.
    pub fn start(trip_id: u128, request: RequestBody, api_base_url: String) -> (r: (CreateInvite, Action))
        ensures
            r.0.trip_id == trip_id,
            r.0.request == request,
            r.0.api_base_url == api_base_url,
            r.0.trip is None,
            is_email_text(request.email@) ==> r.0.stage == Stage::AwaitTrip
                && r.1@ == ActionView::FetchTrip(trip_id),
            !is_email_text(request.email@) ==> r.0.stage == Stage::Finished
                && (r.1 matches Action::Respond(Err(e)) && e is InternalServerError
                    && reports_field_errors(error_text(e), expected_field_errors(&request))),
    {
        match request.validate() {
            Err(errors) => {
                let e = AppError::from_validation_errors(&errors);
                proof {
                    let m = expected_field_errors(&request);
                    assert(m.restrict(m.dom()) =~= m);
                }
                (
                    CreateInvite { trip_id, api_base_url, request, trip: None, participant_id: 0, stage: Stage::Finished },
                    Action::Respond(Err(e)),
                )
            },
            Ok(()) => (
                CreateInvite { trip_id, api_base_url, request, trip: None, participant_id: 0, stage: Stage::AwaitTrip },
                Action::FetchTrip(trip_id),
            ),
        }
    }

    /// Takes in the trip as looked up: an unknown trip is refused; otherwise
    /// the address is inserted as a participant of the trip.
    pub fn on_trip(&mut self, found: Result<Option<Trip>, String>) -> (r: Action)
        requires
            old(self).stage == Stage::AwaitTrip,
        ensures
            final(self).participant_id == old(self).participant_id,
            !(found matches Ok(Some(_))) ==> final(self).trip == old(self).trip,
            final(self).trip_id == old(self).trip_id,
            final(self).api_base_url == old(self).api_base_url,
            final(self).request == old(self).request,
            match found {
                Err(m) => final(self).stage == Stage::Finished
                    && r@ == ActionView::Respond(Err(AppErrorView::InternalServerError(m@))),
                Ok(None) => final(self).stage == Stage::Finished
                    && r@ == ActionView::Respond(Err(AppErrorView::BadRequest(TRIP_NOT_FOUND@))),
                Ok(Some(t)) => final(self).stage == Stage::AwaitInsert && final(self).trip == Some(t)
                    && r@ == ActionView::InsertParticipant { email: old(self).request.email@, trip_id: old(self).trip_id },
            },
    {
        match found {
            Err(m) => {
                self.stage = Stage::Finished;
                Action::Respond(Err(AppError::internal(m)))
            },
            Ok(None) => {
                self.stage = Stage::Finished;
                Action::Respond(Err(AppError::bad_request(TRIP_NOT_FOUND)))
            },
            Ok(Some(t)) => {
                self.trip = Some(t);
                self.stage = Stage::AwaitInsert;
                Action::InsertParticipant { email: self.request.email.clone(), trip_id: self.trip_id }
            },
        }
    }

    /// Takes in the id of the new participant: the invitation e-mail, with the
    /// link that confirms taking part, is queued.
    pub fn on_insert(&mut self, inserted: Result<u128, String>) -> (r: Action)
        requires
            old(self).stage == Stage::AwaitInsert,
            old(self).trip is Some,
        ensures
            final(self).trip_id == old(self).trip_id,
            final(self).api_base_url == old(self).api_base_url,
            final(self).request == old(self).request,
            final(self).trip == old(self).trip,
            inserted is Err ==> final(self).participant_id == old(self).participant_id,
            match inserted {
                Err(m) => final(self).stage == Stage::Finished
                    && r@ == ActionView::Respond(Err(AppErrorView::InternalServerError(m@))),
                Ok(id) => final(self).stage == Stage::AwaitMail && final(self).participant_id == id
                    && r@ == ActionView::EnqueueMail(spec_invitation_mail(
                        old(self).request.email@,
                        old(self).trip->0.destination@,
                        old(self).trip->0.starts_at@,
                        old(self).trip->0.ends_at@,
                        invitation_link(old(self).api_base_url@, id),
                    )),
            },
    {
        match inserted {
            Err(m) => {
                self.stage = Stage::Finished;
                Action::Respond(Err(AppError::internal(m)))
            },
            Ok(id) => {
                self.participant_id = id;
                self.stage = Stage::AwaitMail;
                let link = self.api_base_url.clone().concat("/participants/").concat(id_to_string(id).as_str());
                match &self.trip {
                    Some(trip) => Action::EnqueueMail(
                        invitation_mail(&self.request.email, &trip.destination, &trip.starts_at, &trip.ends_at, &link),
                    ),
                    None => Action::Respond(Err(AppError::internal(String::new()))),
                }
            },
        }
    }

    /// Takes in the outcome of queueing the e-mail: the participant's id, or a
    /// server-side error.
    pub fn on_mail_queued(&mut self, queued: Result<(), String>) -> (r: Action)
        requires
            old(self).stage == Stage::AwaitMail,
        ensures
            final(self).trip_id == old(self).trip_id,
            final(self).api_base_url == old(self).api_base_url,
            final(self).request == old(self).request,
            final(self).trip == old(self).trip,
            final(self).participant_id == old(self).participant_id,
            final(self).stage == Stage::Finished,
            match queued {
                Err(m) => r@ == ActionView::Respond(Err(AppErrorView::InternalServerError(m@))),
                Ok(()) => r@ == ActionView::Respond(Ok(old(self).participant_id)),
            },
    {
        self.stage = Stage::Finished;
        match queued {
            Err(m) => Action::Respond(Err(AppError::internal(m))),
            Ok(()) => Action::Respond(Ok(ResponseBody { participant_id: self.participant_id })),
        }
    }
}

} // verus!
