use vstd::prelude::*;
use crate::error::{AppError, AppErrorView, error_text};
use crate::ids::{new_random_id, id_version, id_variant};
use crate::routes::confirm_trip::{Trip, TRIP_NOT_FOUND};
use crate::validation::{
    field_error_codes, nested_error_fields, message_free_fields, reports_field_errors, is_url_text,
    validate_min_length, validate_url, new_validation_errors, add_length_error, add_value_error,
};

verus! {

/// The request to add a link to a trip.
pub struct RequestBody {
    pub title: String,
    pub url: String,
}

/// The reply to an added link: its id.
pub struct ResponseBody {
    pub link_id: u128,
}

/// The least number of characters of a title.
pub const MIN_TITLE_LENGTH: u64 = 4;

/// The request meets the field rules: a title of at least four characters and a URL.
pub open spec fn body_is_valid(b: &RequestBody) -> bool {
    b.title@.len() >= MIN_TITLE_LENGTH && is_url_text(b.url@)
}

/// The errors of each field that breaks its rule, by field name.
pub open spec fn expected_field_errors(b: &RequestBody) -> Map<Seq<char>, Seq<Seq<char>>> {
    let m0 = Map::<Seq<char>, Seq<Seq<char>>>::empty();
    let m1 = if b.title@.len() >= MIN_TITLE_LENGTH {
        m0
    } else {
        m0.insert("title"@, seq!["length"@])
    };
    if is_url_text(b.url@) {
        m1
    } else {
        m1.insert("url"@, seq!["url"@])
    }
}

impl RequestBody {
    /// Checks the field rules, collecting an error for each field that breaks its rule.
    pub fn validate(&self) -> (r: Result<(), validator::ValidationErrors>)
        ensures
            r is Ok <==> body_is_valid(self),
            r matches Err(e) ==> field_error_codes(e) == expected_field_errors(self)
                && nested_error_fields(e).is_empty()
                && message_free_fields(e) == expected_field_errors(self).dom(),
    {
        let mut errors = new_validation_errors();
        let mut failed = false;
        proof {
            reveal_strlit("title");
            reveal_strlit("url");
            assert("title"@[0] != "url"@[0]);
            assert(message_free_fields(errors) =~= Set::<Seq<char>>::empty());
        }
        let ghost m0 = Map::<Seq<char>, Seq<Seq<char>>>::empty();
        let ghost m1 = if self.title@.len() >= MIN_TITLE_LENGTH {
            m0
        } else {
            m0.insert("title"@, seq!["length"@])
        };
        if !validate_min_length(&self.title, MIN_TITLE_LENGTH) {
            add_length_error(&mut errors, "title", "length", MIN_TITLE_LENGTH, &self.title);
            failed = true;
        }
        assert(field_error_codes(errors) =~= m1);
        assert(message_free_fields(errors) =~= m1.dom());
        if !validate_url(&self.url) {
            add_value_error(&mut errors, "url", "url", &self.url);
            failed = true;
        }
        assert(field_error_codes(errors) =~= expected_field_errors(self));
        assert(message_free_fields(errors) =~= expected_field_errors(self).dom());
        if failed {
            Err(errors)
        } else {
            Ok(())
        }
    }
}

/// Where adding a link stands.
#[derive(Clone, Copy)]
pub enum Stage {
    AwaitTrip,
    AwaitInsert,
    Finished,
}

/// What adding a link asks to be done next.
pub enum Action {
    /// Look up the trip with this id.
    FetchTrip(u128),
    /// Insert the link with this id.
    InsertLink { link_id: u128, trip_id: u128, title: String, url: String },
    /// Answer the request.
    Respond(Result<ResponseBody, AppError>),
}

pub enum ActionView {
    FetchTrip(u128),
    InsertLink { link_id: u128, trip_id: u128, title: Seq<char>, url: Seq<char> },
    Respond(Result<u128, AppErrorView>),
}

impl View for Action {
    type V = ActionView;

    open spec fn view(&self) -> ActionView {
        match self {
            Action::FetchTrip(id) => ActionView::FetchTrip(*id),
            Action::InsertLink { link_id, trip_id, title, url } => ActionView::InsertLink {
                link_id: *link_id,
                trip_id: *trip_id,
                title: title@,
                url: url@,
            },
            Action::Respond(Ok(body)) => ActionView::Respond(Ok(body.link_id)),
            Action::Respond(Err(e)) => ActionView::Respond(Err(e@)),
        }
    }
}

/// Adding one link to a trip; `link_id` is the id drawn for the link once the
/// trip is found.
pub struct CreateLink {
    pub trip_id: u128,
    pub request: RequestBody,
    pub link_id: u128,
    pub stage: Stage,
}

impl CreateLink {
    /// Starts adding the link: a request that breaks a field rule is answered
    /// with a server-side error; otherwise the trip is looked up.
    pub fn start(trip_id: u128, request: RequestBody) -> (r: (CreateLink, Action))
        ensures
            r.0.trip_id == trip_id,
            r.0.request == request,
            body_is_valid(&request) ==> r.0.stage == Stage::AwaitTrip && r.1@ == ActionView::FetchTrip(trip_id),
            !body_is_valid(&request) ==> r.0.stage == Stage::Finished
                && (r.1 matches Action::Respond(Err(e)) && e is InternalServerError
                    && reports_field_errors(error_text(e), expected_field_errors(&request))),
    {
        match request.validate() {
            Err(errors) => {
                let e = AppError::from_validation_errors(&errors);
                proof {
                    let m = expected_field_errors(&request);
                    assert(m.restrict(m.dom()) =~= m);
                }
                (CreateLink { trip_id, request, link_id: 0, stage: Stage::Finished }, Action::Respond(Err(e)))
            },
            Ok(()) => (CreateLink { trip_id, request, link_id: 0, stage: Stage::AwaitTrip }, Action::FetchTrip(trip_id)),
        }
    }

    /// Takes in the trip as looked up: an unknown trip is refused; otherwise a
    /// new random (version 4) id is drawn for the link and the link is inserted
    /// under it.
    pub fn on_trip(&mut self, found: Result<Option<Trip>, String>) -> (r: Action)
        requires
            old(self).stage == Stage::AwaitTrip,
        ensures
            !(found matches Ok(Some(_))) ==> final(self).link_id == old(self).link_id,
            found matches Ok(Some(_)) ==> id_version(final(self).link_id) == 4
                && id_variant(final(self).link_id) == 2,
            final(self).trip_id == old(self).trip_id,
            final(self).request == old(self).request,
            match found {
                Err(m) => final(self).stage == Stage::Finished
                    && r@ == ActionView::Respond(Err(AppErrorView::InternalServerError(m@))),
                Ok(None) => final(self).stage == Stage::Finished
                    && r@ == ActionView::Respond(Err(AppErrorView::BadRequest(TRIP_NOT_FOUND@))),
                Ok(Some(t)) => final(self).stage == Stage::AwaitInsert && r@ == ActionView::InsertLink {
                    link_id: final(self).link_id,
                    trip_id: old(self).trip_id,
                    title: old(self).request.title@,
                    url: old(self).request.url@,
                },
            },
    {
        match found {
            Err(m) => {
                self.stage = Stage::Finished;
                Action::Respond(Err(AppError::internal(m)))
            },
            Ok(None) => {
                self.stage = Stage::Finished;
                Action::Respond(Err(AppError::bad_request(TRIP_NOT_FOUND)))
            },
            Ok(Some(_t)) => {
                self.link_id = new_random_id();
                self.stage = Stage::AwaitInsert;
                Action::InsertLink {
                    link_id: self.link_id,
                    trip_id: self.trip_id,
                    title: self.request.title.clone(),
                    url: self.request.url.clone(),
                }
            },
        }
    }

    /// Takes in the outcome of the insert: the link's id, or a server-side error.
    pub fn on_insert(&mut self, done: Result<(), String>) -> (r: Action)
        requires
            old(self).stage == Stage::AwaitInsert,
        ensures
            final(self).trip_id == old(self).trip_id,
            final(self).request == old(self).request,
            final(self).link_id == old(self).link_id,
            final(self).stage == Stage::Finished,
            match done {
                Err(m) => r@ == ActionView::Respond(Err(AppErrorView::InternalServerError(m@))),
                Ok(()) => r@ == ActionView::Respond(Ok(old(self).link_id)),
            },
    {
        self.stage = Stage::Finished;
        match done {
            Err(m) => Action::Respond(Err(AppError::internal(m))),
            Ok(()) => Action::Respond(Ok(ResponseBody { link_id: self.link_id })),
        }
    }
}

} // verus!
