use vstd::prelude::*;
use crate::datetime::{DateTime, local_now, spec_before};
use crate::error::{AppError, AppErrorView, error_text};
use crate::routes::confirm_trip::{Trip, TripView, TRIP_NOT_FOUND, stored_row, trip_lookup_view, write_view};
use crate::routes::create_trip::{schedule_error, check_schedule, MIN_DESTINATION_LENGTH, START_DATE_ERROR, END_DATE_ERROR};
use crate::validation::{
    field_error_codes, nested_error_fields, message_free_fields, reports_field_errors, validate_min_length,
    new_validation_errors, add_length_error,
};

verus! {

/// The request to change the destination and dates of a trip.
pub struct RequestBody {
    pub destination: String,
    pub starts_at: DateTime,
    pub ends_at: DateTime,
}

/// The reply to a changed trip: its id.
pub struct ResponseBody {
    pub trip_id: u128,
}

/// The errors of each field that breaks its rule, by field name.
pub open spec fn expected_field_errors(b: &RequestBody) -> Map<Seq<char>, Seq<Seq<char>>> {
    if b.destination@.len() >= MIN_DESTINATION_LENGTH {
        Map::empty()
    } else {
        Map::empty().insert("destination"@, seq!["length"@])
    }
}

impl RequestBody {
    /// Checks the field rule: a destination of at least four characters.
    pub fn validate(&self) -> (r: Result<(), validator::ValidationErrors>)
        ensures
            r is Ok <==> self.destination@.len() >= MIN_DESTINATION_LENGTH,
            r matches Err(e) ==> field_error_codes(e) == expected_field_errors(self)
                && nested_error_fields(e).is_empty()
                && message_free_fields(e) == expected_field_errors(self).dom(),
    {
        let mut errors = new_validation_errors();
        if !validate_min_length(&self.destination, MIN_DESTINATION_LENGTH) {
            add_length_error(&mut errors, "destination", "length", MIN_DESTINATION_LENGTH, &self.destination);
            assert(field_error_codes(errors) =~= expected_field_errors(self));
            assert(message_free_fields(errors) =~= expected_field_errors(self).dom());
            return Err(errors);
        }
        Ok(())
    }
}

/// Where a change of trip stands.
#[derive(Clone, Copy)]
pub enum Stage {
    AwaitTrip,
    AwaitUpdate,
    Finished,
}

/// What a change of trip asks to be done next.
pub enum Action {
    /// Look up the trip with this id.
    FetchTrip(u128),
    /// Write the new destination and dates of the trip.
    UpdateTrip { trip_id: u128, destination: String, starts_at: DateTime, ends_at: DateTime },
    /// Answer the request.
    Respond(Result<ResponseBody, AppError>),
}

pub enum ActionView {
    FetchTrip(u128),
    UpdateTrip { trip_id: u128, destination: Seq<char>, starts_at: (int, int), ends_at: (int, int) },
    Respond(Result<u128, AppErrorView>),
}

impl View for Action {
    type V = ActionView;

    open spec fn view(&self) -> ActionView {
        match self {
            Action::FetchTrip(id) => ActionView::FetchTrip(*id),
            Action::UpdateTrip { trip_id, destination, starts_at, ends_at } => ActionView::UpdateTrip {
                trip_id: *trip_id,
                destination: destination@,
                starts_at: starts_at@,
                ends_at: ends_at@,
            },
            Action::Respond(Ok(body)) => ActionView::Respond(Ok(body.trip_id)),
            Action::Respond(Err(e)) => ActionView::Respond(Err(e@)),
        }
    }
}

/// What looking up the trip at time `now` leads to: an unknown trip is
/// refused, so are new dates that break the date rule of trips; otherwise the
/// trip is changed.
pub open spec fn after_trip_lookup_at(
    trip_id: u128,
    request: &RequestBody,
    found: Result<Option<TripView>, Seq<char>>,
    now: (int, int),
) -> (Stage, ActionView) {
    match found {
        Err(m) => (Stage::Finished, ActionView::Respond(Err(AppErrorView::InternalServerError(m)))),
        Ok(None) => (Stage::Finished, ActionView::Respond(Err(AppErrorView::BadRequest(TRIP_NOT_FOUND@)))),
        Ok(Some(_)) => match schedule_error(request.starts_at@, request.ends_at@, now) {
            Some(e) => (Stage::Finished, ActionView::Respond(Err(e))),
            None => (
                Stage::AwaitUpdate,
                ActionView::UpdateTrip {
                    trip_id,
                    destination: request.destination@,
                    starts_at: request.starts_at@,
                    ends_at: request.ends_at@,
                },
            ),
        },
    }
}

/// What the write of the change leads to: the trip's id, or a server-side error.
pub open spec fn after_trip_update(trip_id: u128, done: Result<(), Seq<char>>) -> ActionView {
    match done {
        Err(m) => ActionView::Respond(Err(AppErrorView::InternalServerError(m))),
        Ok(()) => ActionView::Respond(Ok(trip_id)),
    }
}

/// One change of trip `trip_id` by a request that meets the field rule, at
/// time `now`, against the stored trips, with the lookup answering what is
/// stored and the write succeeding. It gives the stored trips afterwards and
/// the reply.
pub open spec fn trip_update_run(
    trips: Map<u128, TripView>,
    trip_id: u128,
    request: &RequestBody,
    now: (int, int),
) -> (Map<u128, TripView>, ActionView) {
    let (s1, a1) = after_trip_lookup_at(trip_id, request, Ok(stored_row(trips, trip_id)), now);
    if !(s1 is AwaitUpdate) {
        (trips, a1)
    } else {
        let t = trips[trip_id];
        let changed = TripView {
            id: t.id,
            destination: request.destination@,
            starts_at: request.starts_at@,
            ends_at: request.ends_at@,
            is_confirmed: t.is_confirmed,
            created_at: t.created_at,
        };
        (trips.insert(trip_id, changed), after_trip_update(trip_id, Ok(())))
    }
}

/// Sending the same change of a trip again, after a change that succeeded and
/// while its new start has not passed, leaves the stored trips as the first
/// change left them and gives the same reply.
pub proof fn lemma_updating_a_trip_twice(
    trips: Map<u128, TripView>,
    trip_id: u128,
    request: &RequestBody,
    first_now: (int, int),
    second_now: (int, int),
)
    requires
        trip_update_run(trips, trip_id, request, first_now).1 matches ActionView::Respond(Ok(_)),
        !spec_before(request.starts_at@, second_now),
    ensures
        ({
            let first = trip_update_run(trips, trip_id, request, first_now);
            let second = trip_update_run(first.0, trip_id, request, second_now);
            &&& second.0 == first.0
            &&& second.1 == first.1
        }),
{
    let first = trip_update_run(trips, trip_id, request, first_now);
    let second = trip_update_run(first.0, trip_id, request, second_now);
    assert(second.0 =~= first.0);
}

/// One change of a trip.
pub struct UpdateTrip {
    pub trip_id: u128,
    pub request: RequestBody,
    pub stage: Stage,
}

impl UpdateTrip {
    /// Starts changing the trip: a request that breaks the field rule is
    /// answered with a server-side error; otherwise the trip is looked up.
    pub fn start(trip_id: u128, request: RequestBody) -> (r: (UpdateTrip, Action))
        ensures
            r.0.trip_id == trip_id,
            r.0.request == request,
            request.destination@.len() >= MIN_DESTINATION_LENGTH ==> r.0.stage == Stage::AwaitTrip
                && r.1@ == ActionView::FetchTrip(trip_id),
            request.destination@.len() < MIN_DESTINATION_LENGTH ==> r.0.stage == Stage::Finished
                && (r.1 matches Action::Respond(Err(e)) && e is InternalServerError
                    && reports_field_errors(error_text(e), expected_field_errors(&request))),
    {
        match request.validate() {
            Err(errors) => {
                let e = AppError::from_validation_errors(&errors);
                proof {
                    let m = expected_field_errors(&request);
                    assert(m.restrict(m.dom()) =~= m);
                }
                (UpdateTrip { trip_id, request, stage: Stage::Finished }, Action::Respond(Err(e)))
            },
            Ok(()) => (UpdateTrip { trip_id, request, stage: Stage::AwaitTrip }, Action::FetchTrip(trip_id)),
        }
    }

    /// Takes in the trip as looked up, at the current local time (see `on_trip_at`).
    pub fn on_trip(&mut self, found: Result<Option<Trip>, String>) -> (r: Action)
        requires
            old(self).stage == Stage::AwaitTrip,
        ensures
            final(self).request == old(self).request,
            final(self).trip_id == old(self).trip_id,
            match found {
                Err(m) => final(self).stage == Stage::Finished
                    && r@ == ActionView::Respond(Err(AppErrorView::InternalServerError(m@))),
                Ok(None) => final(self).stage == Stage::Finished
                    && r@ == ActionView::Respond(Err(AppErrorView::BadRequest(TRIP_NOT_FOUND@))),
                Ok(Some(_)) => {
                    let req = &old(self).request;
                    ||| final(self).stage == Stage::AwaitUpdate
                        && !spec_before(req.ends_at@, req.starts_at@)
                        && r@ == ActionView::UpdateTrip {
                            trip_id: old(self).trip_id,
                            destination: req.destination@,
                            starts_at: req.starts_at@,
                            ends_at: req.ends_at@,
                        }
                    ||| final(self).stage == Stage::Finished
                        && r@ == ActionView::Respond(Err(AppErrorView::BadRequest(START_DATE_ERROR@)))
                    ||| final(self).stage == Stage::Finished
                        && r@ == ActionView::Respond(Err(AppErrorView::BadRequest(END_DATE_ERROR@)))
                        && spec_before(req.ends_at@, req.starts_at@)
                },
            },
    {
        let now = local_now();
        self.on_trip_at(found, &now)
    }

    /// Takes in the trip as looked up at time `now`: an unknown trip is
    /// refused; new dates that break the date rule of trips are refused;
    /// otherwise the trip is changed.
    pub fn on_trip_at(&mut self, found: Result<Option<Trip>, String>, now: &DateTime) -> (r: Action)
        requires
            old(self).stage == Stage::AwaitTrip,
        ensures
            final(self).request == old(self).request,
            final(self).trip_id == old(self).trip_id,
            (final(self).stage, r@) == after_trip_lookup_at(
                old(self).trip_id,
                &old(self).request,
                trip_lookup_view(found),
                now@,
            ),
    {
        match found {
            Err(m) => {
                self.stage = Stage::Finished;
                Action::Respond(Err(AppError::internal(m)))
            },
            Ok(None) => {
                self.stage = Stage::Finished;
                Action::Respond(Err(AppError::bad_request(TRIP_NOT_FOUND)))
            },
            Ok(Some(_)) => match check_schedule(&self.request.starts_at, &self.request.ends_at, now) {
                Some(e) => {
                    self.stage = Stage::Finished;
                    Action::Respond(Err(e))
                },
                None => {
                    self.stage = Stage::AwaitUpdate;
                    Action::UpdateTrip {
                        trip_id: self.trip_id,
                        destination: self.request.destination.clone(),
                        starts_at: self.request.starts_at.copy(),
                        ends_at: self.request.ends_at.copy(),
                    }
                },
            },
        }
    }

    /// Takes in the outcome of the change: the trip's id, or a server-side error.
    pub fn on_update(&mut self, done: Result<(), String>) -> (r: Action)
        requires
            old(self).stage == Stage::AwaitUpdate,
        ensures
            final(self).trip_id == old(self).trip_id,
            final(self).request == old(self).request,
            final(self).stage == Stage::Finished,
            r@ == after_trip_update(old(self).trip_id, write_view(done)),
    {
        self.stage = Stage::Finished;
        match done {
            Err(m) => Action::Respond(Err(AppError::internal(m))),
            Ok(()) => Action::Respond(Ok(ResponseBody { trip_id: self.trip_id })),
        }
    }
}

} // verus!
