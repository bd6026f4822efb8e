use vstd::prelude::*;
use crate::error::{AppError, AppErrorView};
use crate::routes::confirm_participant::PARTICIPANT_NOT_FOUND;

verus! {

/// A participant as shown to clients.
pub struct Participant {
    pub id: u128,
    pub name: Option<String>,
    pub email: String,
    pub is_confirmed: bool,
}

/// The reply with one participant.
pub struct ResponseBody {
    pub participant: Participant,
}

/// Answers the request for the participant with this id, given the outcome
/// of looking it up: the participant, a refusal if unknown, or a server-side
/// error if the lookup failed.
pub fn get_participant(found: Result<Option<Participant>, String>) -> (r: Result<ResponseBody, AppError>)
    ensures
        match found {
            Err(m) => r matches Err(e) && e@ == AppErrorView::InternalServerError(m@),
            Ok(None) => r matches Err(e) && e@ == AppErrorView::BadRequest(PARTICIPANT_NOT_FOUND@),
            Ok(Some(p)) => r matches Ok(body) && body.participant == p,
        },
{
    match found {
        Err(m) => Err(AppError::internal(m)),
        Ok(None) => Err(AppError::bad_request(PARTICIPANT_NOT_FOUND)),
        Ok(Some(p)) => Ok(ResponseBody { participant: p }),
    }
}

} // verus!
