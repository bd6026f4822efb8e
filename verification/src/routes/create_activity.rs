use vstd::prelude::*;
use crate::datetime::{DateTime, spec_before};
use crate::error::{AppError, AppErrorView, error_text};
use crate::routes::confirm_trip::{Trip, TRIP_NOT_FOUND};
use crate::validation::{
    field_error_codes, nested_error_fields, message_free_fields, reports_field_errors, validate_min_length,
    new_validation_errors, add_length_error,
};

verus! {

/// The request to add an activity to a trip.
pub struct RequestBody {
    pub title: String,
    pub occurs_at: DateTime,
}

/// The reply to an added activity: its id.
pub struct ResponseBody {
    pub activity_id: u128,
}

pub const ACTIVITY_DATE_ERROR: &'static str = "Invalid activity date";

/// The least number of characters of a title.
pub const MIN_TITLE_LENGTH: u64 = 4;

/// The errors of each field that breaks its rule, by field name.
pub open spec fn expected_field_errors(b: &RequestBody) -> Map<Seq<char>, Seq<Seq<char>>> {
    if b.title@.len() >= MIN_TITLE_LENGTH {
        Map::empty()
    } else {
        Map::empty().insert("title"@, seq!["length"@])
    }
}

impl RequestBody {
    /// Checks the field rule: a title of at least four characters.
    pub fn validate(&self) -> (r: Result<(), validator::ValidationErrors>)
        ensures
            r is Ok <==> self.title@.len() >= MIN_TITLE_LENGTH,
            r matches Err(e) ==> field_error_codes(e) == expected_field_errors(self)
                && nested_error_fields(e).is_empty()
                && message_free_fields(e) == expected_field_errors(self).dom(),
    {
        let mut errors = new_validation_errors();
        if !validate_min_length(&self.title, MIN_TITLE_LENGTH) {
            add_length_error(&mut errors, "title", "length", MIN_TITLE_LENGTH, &self.title);
            assert(field_error_codes(errors) =~= expected_field_errors(self));
            assert(message_free_fields(errors) =~= expected_field_errors(self).dom());
            return Err(errors);
        }
        Ok(())
    }
}

/// The activity falls within the trip: not before its start, not after its end.
pub open spec fn within_trip(trip: &Trip, at: (int, int)) -> bool {
    !spec_before(at, trip.starts_at@) && !spec_before(trip.ends_at@, at)
}

/// An activity fits a trip exactly when it is neither before the trip's start
/// nor after its end; nothing else of the trip matters (two trips with the same
/// dates accept the same activities).
pub proof fn lemma_activity_fits_between_start_and_end(trip: &Trip, other: &Trip, at: (int, int))
    requires
        other.starts_at@ == trip.starts_at@,
        other.ends_at@ == trip.ends_at@,
    ensures
        within_trip(trip, at) <==> (!spec_before(at, trip.starts_at@) && !spec_before(trip.ends_at@, at)),
        within_trip(trip, at) == within_trip(other, at),
        within_trip(trip, trip.starts_at@) <==> !spec_before(trip.ends_at@, trip.starts_at@),
{
}

/// Where adding an activity stands.
#[derive(Clone, Copy)]
pub enum Stage {
    AwaitTrip,
    AwaitInsert,
    Finished,
}

/// What adding an activity asks to be done next.
pub enum Action {
    /// Look up the trip with this id.
    FetchTrip(u128),
    /// Insert the activity and report its id.
    InsertActivity { trip_id: u128, title: String, occurs_at: DateTime },
    /// Answer the request.
    Respond(Result<ResponseBody, AppError>),
}

pub enum ActionView {
    FetchTrip(u128),
    InsertActivity { trip_id: u128, title: Seq<char>, occurs_at: (int, int) },
    Respond(Result<u128, AppErrorView>),
}

impl View for Action {
    type V = ActionView;

    open spec fn view(&self) -> ActionView {
        match self {
            Action::FetchTrip(id) => ActionView::FetchTrip(*id),
            Action::InsertActivity { trip_id, title, occurs_at } => ActionView::InsertActivity {
                trip_id: *trip_id,
                title: title@,
                occurs_at: occurs_at@,
            },
            Action::Respond(Ok(body)) => ActionView::Respond(Ok(body.activity_id)),
            Action::Respond(Err(e)) => ActionView::Respond(Err(e@)),
        }
    }
}

/// Adding one activity to a trip.
pub struct CreateActivity {
    pub trip_id: u128,
    pub request: RequestBody,
    pub stage: Stage,
}

impl CreateActivity {
    /// Starts adding the activity: a request that breaks the field rule is
    /// answered with a server-side error; otherwise the trip is looked up.
    pub fn start(trip_id: u128, request: RequestBody) -> (r: (CreateActivity, Action))
        ensures
            r.0.trip_id == trip_id,
            r.0.request == request,
            request.title@.len() >= MIN_TITLE_LENGTH ==> r.0.stage == Stage::AwaitTrip
                && r.1@ == ActionView::FetchTrip(trip_id),
            request.title@.len() < MIN_TITLE_LENGTH ==> r.0.stage == Stage::Finished
                && (r.1 matches Action::Respond(Err(e)) && e is InternalServerError
                    && reports_field_errors(error_text(e), expected_field_errors(&request))),
    {
        match request.validate() {
            Err(errors) => {
                let e = AppError::from_validation_errors(&errors);
                proof {
                    let m = expected_field_errors(&request);
                    assert(m.restrict(m.dom()) =~= m);
                }
                (CreateActivity { trip_id, request, stage: Stage::Finished }, Action::Respond(Err(e)))
            },
            Ok(()) => (CreateActivity { trip_id, request, stage: Stage::AwaitTrip }, Action::FetchTrip(trip_id)),
        }
    }

    /// Takes in the trip as looked up: an unknown trip is refused, so is an
    /// activity outside the trip's dates; otherwise the activity is inserted.
    pub fn on_trip(&mut self, found: Result<Option<Trip>, String>) -> (r: Action)
        requires
            old(self).stage == Stage::AwaitTrip,
        ensures
            final(self).request == old(self).request,
            final(self).trip_id == old(self).trip_id,
            found matches Ok(Some(t)) ==> (r is InsertActivity <==> (
                !spec_before(old(self).request.occurs_at@, t.starts_at@)
                && !spec_before(t.ends_at@, old(self).request.occurs_at@))),
            match found {
                Err(m) => final(self).stage == Stage::Finished
                    && r@ == ActionView::Respond(Err(AppErrorView::InternalServerError(m@))),
                Ok(None) => final(self).stage == Stage::Finished
                    && r@ == ActionView::Respond(Err(AppErrorView::BadRequest(TRIP_NOT_FOUND@))),
                Ok(Some(t)) => if within_trip(&t, old(self).request.occurs_at@) {
                    final(self).stage == Stage::AwaitInsert && r@ == ActionView::InsertActivity {
                        trip_id: old(self).trip_id,
                        title: old(self).request.title@,
                        occurs_at: old(self).request.occurs_at@,
                    }
                } else {
                    final(self).stage == Stage::Finished
                        && r@ == ActionView::Respond(Err(AppErrorView::BadRequest(ACTIVITY_DATE_ERROR@)))
                },
            },
    {
        match found {
            Err(m) => {
                self.stage = Stage::Finished;
                Action::Respond(Err(AppError::internal(m)))
            },
            Ok(None) => {
                self.stage = Stage::Finished;
                Action::Respond(Err(AppError::bad_request(TRIP_NOT_FOUND)))
            },
            Ok(Some(t)) => {
                if self.request.occurs_at.before(&t.starts_at) || t.ends_at.before(&self.request.occurs_at) {
                    self.stage = Stage::Finished;
                    Action::Respond(Err(AppError::bad_request(ACTIVITY_DATE_ERROR)))
                } else {
                    self.stage = Stage::AwaitInsert;
                    Action::InsertActivity {
                        trip_id: self.trip_id,
                        title: self.request.title.clone(),
                        occurs_at: self.request.occurs_at.copy(),
                    }
                }
            },
        }
    }

    /// Takes in the outcome of the insert: the new activity's id, or a server-side error.
    pub fn on_insert(&mut self, inserted: Result<u128, String>) -> (r: Action)
        requires
            old(self).stage == Stage::AwaitInsert,
        ensures
            final(self).trip_id == old(self).trip_id,
            final(self).request == old(self).request,
            final(self).stage == Stage::Finished,
            match inserted {
                Err(m) => r@ == ActionView::Respond(Err(AppErrorView::InternalServerError(m@))),
                Ok(id) => r@ == ActionView::Respond(Ok(id)),
            },
    {
        self.stage = Stage::Finished;
        match inserted {
            Err(m) => Action::Respond(Err(AppError::internal(m))),
            Ok(id) => Action::Respond(Ok(ResponseBody { activity_id: id })),
        }
    }
}

} // verus!
