use vstd::prelude::*;
use crate::datetime::DateTime;
use crate::error::{AppError, AppErrorView};
use crate::routes::confirm_trip::TRIP_NOT_FOUND;

verus! {

/// A trip as shown to clients.
pub struct Trip {
    pub id: u128,
    pub destination: String,
    pub starts_at: DateTime,
    pub ends_at: DateTime,
    pub is_confirmed: bool,
}

/// The reply with one trip.
pub struct ResponseBody {
    pub trip: Trip,
}

/// Answers the request for the trip with this id, given the outcome of
/// looking it up: the trip, a refusal if unknown, or a server-side error if
/// the lookup failed.
pub fn get_trip_details(found: Result<Option<Trip>, String>) -> (r: Result<ResponseBody, AppError>)
    ensures
        match found {
            Err(m) => r matches Err(e) && e@ == AppErrorView::InternalServerError(m@),
            Ok(None) => r matches Err(e) && e@ == AppErrorView::BadRequest(TRIP_NOT_FOUND@),
            Ok(Some(t)) => r matches Ok(body) && body.trip == t,
        },
{
    match found {
        Err(m) => Err(AppError::internal(m)),
        Ok(None) => Err(AppError::bad_request(TRIP_NOT_FOUND)),
        Ok(Some(t)) => Ok(ResponseBody { trip: t }),
    }
}

} // verus!
