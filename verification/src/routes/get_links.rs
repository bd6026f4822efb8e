use vstd::prelude::*;
use crate::error::{AppError, AppErrorView};
use crate::routes::confirm_trip::{Trip, TRIP_NOT_FOUND};

verus! {

/// A link of a trip as stored.
pub struct Link {
    pub id: u128,
    pub title: String,
    pub url: String,
    pub trip_id: u128,
}

/// The links of a trip.
pub struct ResponseBody {
    pub links: Vec<Link>,
}

/// Where the listing of a trip's links stands.
#[derive(Clone, Copy)]
pub enum Stage {
    AwaitTrip,
    AwaitLinks,
    Finished,
}

/// What the listing of a trip's links asks to be done next.
pub enum Action {
    /// Look up the trip with this id.
    FetchTrip(u128),
    /// Look up the links of the trip.
    FetchLinks(u128),
    /// Answer the request.
    Respond(Result<ResponseBody, AppError>),
}

/// The listing of the links of one trip.
pub struct GetLinks {
    pub trip_id: u128,
    pub stage: Stage,
}

impl GetLinks {
    /// Starts listing the links of the trip with this id: look it up.
    pub fn start(trip_id: u128) -> (r: (GetLinks, Action))
        ensures
            r.0.trip_id == trip_id,
            r.0.stage == Stage::AwaitTrip,
            r.1 matches Action::FetchTrip(id) && id == trip_id,
    {
        (GetLinks { trip_id, stage: Stage::AwaitTrip }, Action::FetchTrip(trip_id))
    }

    /// Takes in the trip as looked up: an unknown trip is refused; a found one
    /// leads to its links.
    pub fn on_trip(&mut self, found: Result<Option<Trip>, String>) -> (r: Action)
        requires
            old(self).stage == Stage::AwaitTrip,
        ensures
            final(self).trip_id == old(self).trip_id,
            match found {
                Err(m) => final(self).stage == Stage::Finished
                    && (r matches Action::Respond(Err(e)) && e@ == AppErrorView::InternalServerError(m@)),
                Ok(None) => final(self).stage == Stage::Finished
                    && (r matches Action::Respond(Err(e)) && e@ == AppErrorView::BadRequest(TRIP_NOT_FOUND@)),
                Ok(Some(_)) => final(self).stage == Stage::AwaitLinks
                    && (r matches Action::FetchLinks(id) && id == old(self).trip_id),
            },
    {
        match found {
            Err(m) => {
                self.stage = Stage::Finished;
                Action::Respond(Err(AppError::internal(m)))
            },
            Ok(None) => {
                self.stage = Stage::Finished;
                Action::Respond(Err(AppError::bad_request(TRIP_NOT_FOUND)))
            },
            Ok(Some(_)) => {
                self.stage = Stage::AwaitLinks;
                Action::FetchLinks(self.trip_id)
            },
        }
    }

    /// Takes in the links of the trip and answers with them, as found.
    pub fn on_links(&mut self, found: Result<Vec<Link>, String>) -> (r: Action)
        requires
            old(self).stage == Stage::AwaitLinks,
        ensures
            final(self).trip_id == old(self).trip_id,
            final(self).stage == Stage::Finished,
            match found {
                Err(m) => r matches Action::Respond(Err(e)) && e@ == AppErrorView::InternalServerError(m@),
                Ok(list) => r matches Action::Respond(Ok(body)) && body.links == list,
            },
    {
        self.stage = Stage::Finished;
        match found {
            Err(m) => Action::Respond(Err(AppError::internal(m))),
            Ok(list) => Action::Respond(Ok(ResponseBody { links: list })),
        }
    }
}

} // verus!
