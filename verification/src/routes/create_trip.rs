use vstd::prelude::*;
use vstd::string::*;
use crate::datetime::{DateTime, spec_before, local_now};
use crate::error::{AppError, AppErrorView, error_text};
use crate::ids::{id_to_string, id_text};
use crate::mail::{MailDraft, MailDraftView, trip_confirmation_mail, spec_trip_confirmation_mail};
use crate::validation::{
    field_error_codes, nested_error_fields, message_free_fields, reports_field_errors, is_email_text,
    validate_email, validate_min_length, new_validation_errors, add_length_error, add_value_error,
    add_list_error,
};

verus! {

/// The request to plan a new trip.
pub struct RequestBody {
    pub destination: String,
    pub starts_at: DateTime,
    pub ends_at: DateTime,
    pub owner_name: String,
    pub owner_email: String,
    pub emails_to_invite: Vec<String>,
}

/// The reply to a trip that was planned: the id of the new trip.
pub struct ResponseBody {
    pub trip_id: u128,
}

/// The code of the error for a list of addresses that holds one that is not an e-mail address.
pub const INVALID_EMAIL: &'static str = "Invalid email";

pub const START_DATE_ERROR: &'static str = "Invalid trip start date";

pub const END_DATE_ERROR: &'static str = "Invalid trip end date";

/// The least number of characters of a destination.
pub const MIN_DESTINATION_LENGTH: u64 = 4;

/// Every address of the list is an e-mail address.
pub open spec fn all_emails(emails: Seq<String>) -> bool {
    forall|i: int| 0 <= i < emails.len() ==> is_email_text(#[trigger] emails[i]@)
}

/// Checks that every address of the list is an e-mail address.
fn validate_emails(emails: &Vec<String>) -> (r: Result<(), &'static str>)
    ensures
        r is Ok <==> all_emails(emails@),
        r matches Err(code) ==> code@ == INVALID_EMAIL@,
{
    let n = emails.len();
    for i in 0..n
        invariant
            n == emails@.len(),
            forall|j: int| 0 <= j < i ==> is_email_text(#[trigger] emails@[j]@),
    {
        if !validate_email(&emails[i]) {
            return Err(INVALID_EMAIL);
        }
    }
    Ok(())
}

/// The request meets the field rules: a destination of at least four
/// characters, an owner e-mail address, and e-mail addresses to invite.
pub open spec fn body_is_valid(b: &RequestBody) -> bool {
    &&& b.destination@.len() >= MIN_DESTINATION_LENGTH
    &&& is_email_text(b.owner_email@)
    &&& all_emails(b.emails_to_invite@)
}

/// The errors of each field that breaks its rule, by field name.
pub open spec fn expected_field_errors(b: &RequestBody) -> Map<Seq<char>, Seq<Seq<char>>> {
    let m0 = Map::<Seq<char>, Seq<Seq<char>>>::empty();
    let m1 = if b.destination@.len() >= MIN_DESTINATION_LENGTH {
        m0
    } else {
        m0.insert("destination"@, seq!["length"@])
    };
    let m2 = if is_email_text(b.owner_email@) {
        m1
    } else {
        m1.insert("owner_email"@, seq!["email"@])
    };
    if all_emails(b.emails_to_invite@) {
        m2
    } else {
        m2.insert("emails_to_invite"@, seq![INVALID_EMAIL@])
    }
}

/// Every address to invite is checked, wherever it stands in the list: a
/// request is valid only if each of them is an e-mail address, and one that is
/// not, at any position, gives the error `Invalid email` on the list; a list
/// of e-mail addresses gives no error on the list.
pub proof fn lemma_every_invited_address_is_checked(b: &RequestBody)
    ensures
        body_is_valid(b) ==> forall|i: int|
            0 <= i < b.emails_to_invite@.len() ==> is_email_text(#[trigger] b.emails_to_invite@[i]@),
        forall|i: int|
            0 <= i < b.emails_to_invite@.len() && !is_email_text(#[trigger] b.emails_to_invite@[i]@) ==> {
                &&& !body_is_valid(b)
                &&& expected_field_errors(b).contains_key("emails_to_invite"@)
                &&& expected_field_errors(b)["emails_to_invite"@] == seq![INVALID_EMAIL@]
            },
        (forall|i: int| 0 <= i < b.emails_to_invite@.len() ==> is_email_text(#[trigger] b.emails_to_invite@[i]@))
            ==> !expected_field_errors(b).contains_key("emails_to_invite"@),
{
    reveal_strlit("destination");
    reveal_strlit("owner_email");
    reveal_strlit("emails_to_invite");
    assert("destination"@[0] != "emails_to_invite"@[0]);
    assert("owner_email"@[0] != "emails_to_invite"@[0]);
}

impl RequestBody {
    /// Checks the field rules, collecting an error for each field that breaks its rule.
    pub fn validate(&self) -> (r: Result<(), validator::ValidationErrors>)
        ensures
            r is Ok <==> body_is_valid(self),
            (exists|i: int| 0 <= i < self.emails_to_invite@.len() && !is_email_text(#[trigger] self.emails_to_invite@[i]@))
                ==> (r matches Err(e) && field_error_codes(e).contains_key("emails_to_invite"@)),
            r is Ok ==> forall|i: int| 0 <= i < self.emails_to_invite@.len() ==> is_email_text(#[trigger] self.emails_to_invite@[i]@),
            r matches Err(e) ==> field_error_codes(e) == expected_field_errors(self)
                && nested_error_fields(e).is_empty()
                && message_free_fields(e) == expected_field_errors(self).dom(),
    {
        let mut errors = new_validation_errors();
        let mut failed = false;
        proof {
            reveal_strlit("destination");
            reveal_strlit("owner_email");
            reveal_strlit("emails_to_invite");
            assert("destination"@[0] != "owner_email"@[0]);
            assert("destination"@[0] != "emails_to_invite"@[0]);
            assert("owner_email"@[0] != "emails_to_invite"@[0]);
            assert(field_error_codes(errors) =~= Map::<Seq<char>, Seq<Seq<char>>>::empty());
            assert(message_free_fields(errors) =~= Set::<Seq<char>>::empty());
        }
        let ghost m0 = Map::<Seq<char>, Seq<Seq<char>>>::empty();
        let ghost m1 = if self.destination@.len() >= MIN_DESTINATION_LENGTH {
            m0
        } else {
            m0.insert("destination"@, seq!["length"@])
        };
        let ghost m2 = if is_email_text(self.owner_email@) {
            m1
        } else {
            m1.insert("owner_email"@, seq!["email"@])
        };
        if !validate_min_length(&self.destination, MIN_DESTINATION_LENGTH) {
            add_length_error(&mut errors, "destination", "length", MIN_DESTINATION_LENGTH, &self.destination);
            failed = true;
        }
        assert(field_error_codes(errors) =~= m1);
        assert(message_free_fields(errors) =~= m1.dom());
        if !validate_email(&self.owner_email) {
            add_value_error(&mut errors, "owner_email", "email", &self.owner_email);
            failed = true;
        }
        assert(field_error_codes(errors) =~= m2);
        assert(message_free_fields(errors) =~= m2.dom());
        match validate_emails(&self.emails_to_invite) {
            Ok(()) => {},
            Err(code) => {
                add_list_error(&mut errors, "emails_to_invite", code, &self.emails_to_invite);
                failed = true;
            },
        }
        proof {
            assert(field_error_codes(errors) =~= expected_field_errors(self));
            assert(message_free_fields(errors) =~= expected_field_errors(self).dom());
        }
        if failed {
            Err(errors)
        } else {
            Ok(())
        }
    }
}


/// Where the planning of a trip stands, waiting for the outcome of the last action.
#[derive(Clone, Copy)]
pub enum Stage {
    /// The transaction is being opened.
    Begin,
    /// The trip is being inserted.
    AwaitTrip,
    /// The owner is being inserted as a participant of the trip.
    AwaitOwner { trip_id: u128 },
    /// The invitee at `index` is being inserted as a participant of the trip.
    AwaitInvitee { trip_id: u128, index: usize },
    /// The transaction is being rolled back after a failed insert.
    AwaitRollback,
    /// The transaction is being committed.
    AwaitCommit { trip_id: u128 },
    /// The e-mail to the owner is being queued.
    AwaitMail { trip_id: u128 },
    /// The reply has been given.
    Finished,
}

/// What the planning of a trip asks to be done next.
pub enum Action {
    /// Open a database transaction.
    BeginTransaction,
    /// Insert the trip in the transaction and report its id.
    InsertTrip { destination: String, starts_at: DateTime, ends_at: DateTime },
    /// Insert a participant of the trip in the transaction.
    InsertParticipant { name: Option<String>, email: String, is_confirmed: bool, is_owner: bool, trip_id: u128 },
    /// Roll the transaction back.
    Rollback,
    /// Commit the transaction.
    Commit,
    /// Queue the e-mail for sending.
    EnqueueMail(MailDraft),
    /// Answer the request.
    Respond(Result<ResponseBody, AppError>),
}

pub enum ActionView {
    BeginTransaction,
    InsertTrip { destination: Seq<char>, starts_at: (int, int), ends_at: (int, int) },
    InsertParticipant { name: Option<Seq<char>>, email: Seq<char>, is_confirmed: bool, is_owner: bool, trip_id: u128 },
    Rollback,
    Commit,
    EnqueueMail(MailDraftView),
    Respond(Result<u128, AppErrorView>),
}

impl View for Action {
    type V = ActionView;

    open spec fn view(&self) -> ActionView {
        match self {
            Action::BeginTransaction => ActionView::BeginTransaction,
            Action::InsertTrip { destination, starts_at, ends_at } => ActionView::InsertTrip {
                destination: destination@,
                starts_at: starts_at@,
                ends_at: ends_at@,
            },
            Action::InsertParticipant { name, email, is_confirmed, is_owner, trip_id } => ActionView::InsertParticipant {
                name: match name {
                    Some(n) => Some(n@),
                    None => None,
                },
                email: email@,
                is_confirmed: *is_confirmed,
                is_owner: *is_owner,
                trip_id: *trip_id,
            },
            Action::Rollback => ActionView::Rollback,
            Action::Commit => ActionView::Commit,
            Action::EnqueueMail(m) => ActionView::EnqueueMail(m@),
            Action::Respond(Ok(body)) => ActionView::Respond(Ok(body.trip_id)),
            Action::Respond(Err(e)) => ActionView::Respond(Err(e@)),
        }
    }
}

/// The outcome of the last action.
pub enum Reply {
    /// It was done.
    Completed,
    /// The row was inserted with this id.
    Created(u128),
    /// It failed with this message.
    Failed(String),
}

pub enum ReplyView {
    Completed,
    Created(u128),
    Failed(Seq<char>),
}

impl View for Reply {
    type V = ReplyView;

    open spec fn view(&self) -> ReplyView {
        match self {
            Reply::Completed => ReplyView::Completed,
            Reply::Created(id) => ReplyView::Created(*id),
            Reply::Failed(m) => ReplyView::Failed(m@),
        }
    }
}

/// The reply fits the stage: the trip insert reports an id, the other actions
/// report completion, any of them may fail, and nothing follows the answer.
pub open spec fn reply_fits(stage: Stage, reply: ReplyView) -> bool {
    match stage {
        Stage::Finished => false,
        Stage::AwaitTrip => !(reply is Completed),
        _ => !(reply is Created),
    }
}

/// The planning of one trip: the request, the base URL of the API, where it
/// stands, and the message of the failed insert while rolling back.
pub struct CreateTrip {
    pub request: RequestBody,
    pub api_base_url: String,
    pub stage: Stage,
    pub failure: String,
}

/// The link that confirms the trip, as the service writes it: the trip's id,
/// `/trips/`, the base URL of the API, `/confirm`.
pub open spec fn confirmation_link(trip_id: u128, api_base_url: Seq<char>) -> Seq<char> {
    id_text(trip_id) + "/trips/"@ + api_base_url + "/confirm"@
}

/// The insert of the owner as a confirmed participant who owns the trip.
pub open spec fn owner_insert(req: &RequestBody, trip_id: u128) -> ActionView {
    ActionView::InsertParticipant {
        name: Some(req.owner_name@),
        email: req.owner_email@,
        is_confirmed: true,
        is_owner: true,
        trip_id,
    }
}

/// The insert of the `k`-th address to invite as an unconfirmed participant.
pub open spec fn invitee_insert(req: &RequestBody, trip_id: u128, k: int) -> ActionView {
    ActionView::InsertParticipant {
        name: None,
        email: req.emails_to_invite@[k]@,
        is_confirmed: false,
        is_owner: false,
        trip_id,
    }
}

/// After `k` participants beyond the owner are in: the next invitee, or the commit.
pub open spec fn after_participants(req: &RequestBody, trip_id: u128, k: int, failure: Seq<char>) -> (Stage, Seq<char>, ActionView) {
    if k < req.emails_to_invite@.len() {
        (Stage::AwaitInvitee { trip_id, index: k as usize }, failure, invitee_insert(req, trip_id, k))
    } else {
        (Stage::AwaitCommit { trip_id }, failure, ActionView::Commit)
    }
}

pub open spec fn fail_with(m: Seq<char>) -> ActionView {
    ActionView::Respond(Err(AppErrorView::InternalServerError(m)))
}

/// The next stage, the kept failure message and the next action, given the
/// outcome of the last action.
pub open spec fn spec_next(
    req: &RequestBody,
    api_base_url: Seq<char>,
    stage: Stage,
    failure: Seq<char>,
    reply: ReplyView,
) -> (Stage, Seq<char>, ActionView) {
    match stage {
        Stage::Begin => match reply {
            ReplyView::Failed(m) => (Stage::Finished, failure, fail_with(m)),
            _ => (Stage::AwaitTrip, failure, ActionView::InsertTrip {
                destination: req.destination@,
                starts_at: req.starts_at@,
                ends_at: req.ends_at@,
            }),
        },
        Stage::AwaitTrip => match reply {
            ReplyView::Created(id) => (Stage::AwaitOwner { trip_id: id }, failure, owner_insert(req, id)),
            ReplyView::Failed(m) => (Stage::Finished, failure, fail_with(m)),
            ReplyView::Completed => (Stage::Finished, failure, fail_with(failure)),
        },
        Stage::AwaitOwner { trip_id } => match reply {
            ReplyView::Failed(m) => (Stage::AwaitRollback, m, ActionView::Rollback),
            _ => after_participants(req, trip_id, 0, failure),
        },
        Stage::AwaitInvitee { trip_id, index } => match reply {
            ReplyView::Failed(m) => (Stage::AwaitRollback, m, ActionView::Rollback),
            _ => after_participants(req, trip_id, index + 1, failure),
        },
        Stage::AwaitRollback => match reply {
            ReplyView::Failed(m) => (Stage::Finished, failure, fail_with(m)),
            _ => (Stage::Finished, failure, fail_with(failure)),
        },
        Stage::AwaitCommit { trip_id } => match reply {
            ReplyView::Failed(m) => (Stage::Finished, failure, fail_with(m)),
            _ => (Stage::AwaitMail { trip_id }, failure, ActionView::EnqueueMail(
                spec_trip_confirmation_mail(
                    req.owner_name@,
                    req.owner_email@,
                    req.destination@,
                    req.starts_at@,
                    req.ends_at@,
                    confirmation_link(trip_id, api_base_url),
                ),
            )),
        },
        Stage::AwaitMail { trip_id } => match reply {
            ReplyView::Failed(m) => (Stage::Finished, failure, fail_with(m)),
            _ => (Stage::Finished, failure, ActionView::Respond(Ok(trip_id))),
        },
        Stage::Finished => (Stage::Finished, failure, fail_with(failure)),
    }
}

/// The date rule of a trip at time `now`: it may not start before `now`, nor
/// end before it starts. `None` when the dates pass.
pub open spec fn schedule_error(starts_at: (int, int), ends_at: (int, int), now: (int, int)) -> Option<AppErrorView> {
    if spec_before(starts_at, now) {
        Some(AppErrorView::BadRequest(START_DATE_ERROR@))
    } else if spec_before(ends_at, starts_at) {
        Some(AppErrorView::BadRequest(END_DATE_ERROR@))
    } else {
        None
    }
}

/// Checks the date rule of a trip at time `now` (see `schedule_error`).
pub fn check_schedule(starts_at: &DateTime, ends_at: &DateTime, now: &DateTime) -> (r: Option<AppError>)
    ensures
        match schedule_error(starts_at@, ends_at@, now@) {
            Some(e) => r matches Some(x) && x@ == e,
            None => r is None,
        },
{
    if starts_at.before(now) {
        Some(AppError::bad_request(START_DATE_ERROR))
    } else if ends_at.before(starts_at) {
        Some(AppError::bad_request(END_DATE_ERROR))
    } else {
        None
    }
}

impl CreateTrip {
    /// Starts planning the trip at the current local time (see `start_at`).
    pub fn start(request: RequestBody, api_base_url: String) -> (r: (CreateTrip, Action))
        ensures
            r.0.request == request,
            r.0.api_base_url == api_base_url,
            !body_is_valid(&request) ==> r.0.stage == Stage::Finished
                && (r.1 matches Action::Respond(Err(e)) && e is InternalServerError
                    && reports_field_errors(error_text(e), expected_field_errors(&request))),
            body_is_valid(&request) ==> {
                ||| r.0.stage == Stage::Begin && r.1@ == ActionView::BeginTransaction
                    && !spec_before(request.ends_at@, request.starts_at@)
                ||| r.0.stage == Stage::Finished
                    && r.1@ == ActionView::Respond(Err(AppErrorView::BadRequest(START_DATE_ERROR@)))
                ||| r.0.stage == Stage::Finished
                    && r.1@ == ActionView::Respond(Err(AppErrorView::BadRequest(END_DATE_ERROR@)))
                    && spec_before(request.ends_at@, request.starts_at@)
            },
    {
        let now = local_now();
        CreateTrip::start_at(request, api_base_url, now)
    }

    /// Starts planning the trip at time `now`: a request that breaks a field
    /// rule is answered with a server-side error carrying the validation errors;
    /// a trip that starts before `now`, or ends before it starts, is refused;
    /// otherwise the transaction is opened.
    pub fn start_at(request: RequestBody, api_base_url: String, now: DateTime) -> (r: (CreateTrip, Action))
        ensures
            r.0.request == request,
            r.0.api_base_url == api_base_url,
            !body_is_valid(&request) ==> {
                &&& r.0.stage == Stage::Finished
                &&& (r.1 matches Action::Respond(Err(e)) && e is InternalServerError
                    && reports_field_errors(error_text(e), expected_field_errors(&request)))
            },
            body_is_valid(&request) ==> match schedule_error(request.starts_at@, request.ends_at@, now@) {
                Some(e) => r.0.stage == Stage::Finished && r.1@ == ActionView::Respond(Err(e)),
                None => r.0.stage == Stage::Begin && r.1@ == ActionView::BeginTransaction,
            },
    {
        proof {
            reveal_strlit("");
        }
        let failure = String::new();
        match request.validate() {
            Err(errors) => {
                let e = AppError::from_validation_errors(&errors);
                proof {
                    let m = expected_field_errors(&request);
                    assert(m.restrict(m.dom()) =~= m);
                }
                return (CreateTrip { request, api_base_url, stage: Stage::Finished, failure }, Action::Respond(Err(e)));
            },
            Ok(()) => {},
        }
        match check_schedule(&request.starts_at, &request.ends_at, &now) {
            Some(e) => {
                return (CreateTrip { request, api_base_url, stage: Stage::Finished, failure }, Action::Respond(Err(e)));
            },
            None => {},
        }
        (CreateTrip { request, api_base_url, stage: Stage::Begin, failure }, Action::BeginTransaction)
    }

    /// Whether the reply fits the stage (see `reply_fits`).
    pub fn accepts(&self, reply: &Reply) -> (r: bool)
        ensures
            r == reply_fits(self.stage, reply@),
    {
        match self.stage {
            Stage::Finished => false,
            Stage::AwaitTrip => !matches!(reply, Reply::Completed),
            _ => !matches!(reply, Reply::Created(_)),
        }
    }

    fn after_participants(&mut self, trip_id: u128, k: usize) -> (r: Action)
        requires
            k <= old(self).request.emails_to_invite@.len(),
        ensures
            final(self).request == old(self).request,
            final(self).api_base_url == old(self).api_base_url,
            (final(self).stage, final(self).failure@, r@)
                == after_participants(&old(self).request, trip_id, k as int, old(self).failure@),
    {
        if k < self.request.emails_to_invite.len() {
            self.stage = Stage::AwaitInvitee { trip_id, index: k };
            Action::InsertParticipant {
                name: None,
                email: self.request.emails_to_invite[k].clone(),
                is_confirmed: false,
                is_owner: false,
                trip_id,
            }
        } else {
            self.stage = Stage::AwaitCommit { trip_id };
            Action::Commit
        }
    }

    /// Takes in the outcome of the last action and gives the next action.
    pub fn resume(&mut self, reply: Reply) -> (r: Action)
        requires
            reply_fits(old(self).stage, reply@),
            old(self).stage matches Stage::AwaitInvitee { trip_id, index }
                ==> index < old(self).request.emails_to_invite@.len(),
        ensures
            final(self).request == old(self).request,
            final(self).api_base_url == old(self).api_base_url,
            (final(self).stage, final(self).failure@, r@) == spec_next(
                &old(self).request,
                old(self).api_base_url@,
                old(self).stage,
                old(self).failure@,
                reply@,
            ),
            final(self).stage matches Stage::AwaitInvitee { trip_id, index }
                ==> index < final(self).request.emails_to_invite@.len(),
    {
        match self.stage {
            Stage::Begin => match reply {
                Reply::Failed(m) => {
                    self.stage = Stage::Finished;
                    Action::Respond(Err(AppError::internal(m)))
                },
                _ => {
                    self.stage = Stage::AwaitTrip;
                    Action::InsertTrip {
                        destination: self.request.destination.clone(),
                        starts_at: self.request.starts_at.copy(),
                        ends_at: self.request.ends_at.copy(),
                    }
                },
            },
            Stage::AwaitTrip => match reply {
                Reply::Created(id) => {
                    self.stage = Stage::AwaitOwner { trip_id: id };
                    Action::InsertParticipant {
                        name: Some(self.request.owner_name.clone()),
                        email: self.request.owner_email.clone(),
                        is_confirmed: true,
                        is_owner: true,
                        trip_id: id,
                    }
                },
                Reply::Failed(m) => {
                    self.stage = Stage::Finished;
                    Action::Respond(Err(AppError::internal(m)))
                },
                Reply::Completed => {
                    self.stage = Stage::Finished;
                    Action::Respond(Err(AppError::internal(self.failure.clone())))
                },
            },
            Stage::AwaitOwner { trip_id } => match reply {
                Reply::Failed(m) => {
                    self.stage = Stage::AwaitRollback;
                    self.failure = m;
                    Action::Rollback
                },
                _ => self.after_participants(trip_id, 0),
            },
            Stage::AwaitInvitee { trip_id, index } => match reply {
                Reply::Failed(m) => {
                    self.stage = Stage::AwaitRollback;
                    self.failure = m;
                    Action::Rollback
                },
                _ => {
                    let n = self.request.emails_to_invite.len();
                    assert(index < n);
                    self.after_participants(trip_id, index + 1)
                },
            },
            Stage::AwaitRollback => match reply {
                Reply::Failed(m) => {
                    self.stage = Stage::Finished;
                    Action::Respond(Err(AppError::internal(m)))
                },
                _ => {
                    self.stage = Stage::Finished;
                    Action::Respond(Err(AppError::internal(self.failure.clone())))
                },
            },
            Stage::AwaitCommit { trip_id } => match reply {
                Reply::Failed(m) => {
                    self.stage = Stage::Finished;
                    Action::Respond(Err(AppError::internal(m)))
                },
                _ => {
                    let id_str = id_to_string(trip_id);
                    let link = id_str.concat("/trips/").concat(self.api_base_url.as_str()).concat("/confirm");
                    let mail = trip_confirmation_mail(
                        &self.request.owner_name,
                        &self.request.owner_email,
                        &self.request.destination,
                        &self.request.starts_at,
                        &self.request.ends_at,
                        &link,
                    );
                    self.stage = Stage::AwaitMail { trip_id };
                    Action::EnqueueMail(mail)
                },
            },
            Stage::AwaitMail { trip_id } => match reply {
                Reply::Failed(m) => {
                    self.stage = Stage::Finished;
                    Action::Respond(Err(AppError::internal(m)))
                },
                _ => {
                    self.stage = Stage::Finished;
                    Action::Respond(Ok(ResponseBody { trip_id }))
                },
            },
            Stage::Finished => {
                Action::Respond(Err(AppError::internal(self.failure.clone())))
            },
        }
    }
}


/// The actions that a run of replies leads to, from the given stage.
pub open spec fn spec_run(
    req: &RequestBody,
    api_base_url: Seq<char>,
    stage: Stage,
    failure: Seq<char>,
    replies: Seq<ReplyView>,
) -> Seq<ActionView>
    decreases replies.len(),
{
    if replies.len() == 0 {
        seq![]
    } else {
        let (s, f, a) = spec_next(req, api_base_url, stage, failure, replies[0]);
        seq![a] + spec_run(req, api_base_url, s, f, replies.drop_first())
    }
}

/// `n` successful completions.
pub open spec fn completions(n: nat) -> Seq<ReplyView> {
    Seq::new(n, |i: int| ReplyView::Completed)
}

/// The replies of a run in which everything succeeds and the trip gets `trip_id`:
/// the transaction opens, the trip is inserted, the owner and each of `n`
/// invitees are inserted, the transaction commits and the e-mail is queued.
pub open spec fn successful_replies(trip_id: u128, n: nat) -> Seq<ReplyView> {
    seq![ReplyView::Completed, ReplyView::Created(trip_id), ReplyView::Completed]
        + completions(n) + seq![ReplyView::Completed, ReplyView::Completed]
}

/// The inserts of the invitees from the `k`-th on, in the order of the list.
pub open spec fn invitee_inserts(req: &RequestBody, trip_id: u128, k: int) -> Seq<ActionView> {
    Seq::new(
        (req.emails_to_invite@.len() - k) as nat,
        |j: int| invitee_insert(req, trip_id, k + j),
    )
}

/// The end of a successful run: commit, queue the confirmation e-mail, answer with the id.
pub open spec fn successful_ending(req: &RequestBody, api_base_url: Seq<char>, trip_id: u128) -> Seq<ActionView> {
    seq![
        ActionView::Commit,
        ActionView::EnqueueMail(spec_trip_confirmation_mail(
            req.owner_name@,
            req.owner_email@,
            req.destination@,
            req.starts_at@,
            req.ends_at@,
            confirmation_link(trip_id, api_base_url),
        )),
        ActionView::Respond(Ok(trip_id)),
    ]
}

/// The stage while the participant insert number `k` is in flight (the owner is number 0).
pub open spec fn participant_stage(trip_id: u128, k: int) -> Stage {
    if k == 0 {
        Stage::AwaitOwner { trip_id }
    } else {
        Stage::AwaitInvitee { trip_id, index: (k - 1) as usize }
    }
}

proof fn lemma_participants_then_commit(
    req: &RequestBody,
    api_base_url: Seq<char>,
    trip_id: u128,
    failure: Seq<char>,
    k: int,
)
    requires
        0 <= k <= req.emails_to_invite@.len(),
        req.emails_to_invite@.len() <= usize::MAX,
    ensures
        spec_run(
            req,
            api_base_url,
            participant_stage(trip_id, k),
            failure,
            completions((req.emails_to_invite@.len() - k + 1) as nat) + seq![ReplyView::Completed, ReplyView::Completed],
        ) == invitee_inserts(req, trip_id, k) + successful_ending(req, api_base_url, trip_id),
    decreases req.emails_to_invite@.len() - k,
{
    let n = req.emails_to_invite@.len();
    let replies = completions((n - k + 1) as nat) + seq![ReplyView::Completed, ReplyView::Completed];
    let (s1, f1, a1) = spec_next(req, api_base_url, participant_stage(trip_id, k), failure, replies[0]);
    assert(replies[0] == ReplyView::Completed);
    assert((s1, f1, a1) == after_participants(req, trip_id, k, failure));
    if k < n {
        let rest = replies.drop_first();
        assert(rest =~= completions((n - (k + 1) + 1) as nat) + seq![ReplyView::Completed, ReplyView::Completed]);
        assert(s1 == participant_stage(trip_id, k + 1));
        lemma_participants_then_commit(req, api_base_url, trip_id, f1, k + 1);
        assert(invitee_inserts(req, trip_id, k) =~= seq![invitee_insert(req, trip_id, k)] + invitee_inserts(req, trip_id, k + 1));
        assert(spec_run(req, api_base_url, participant_stage(trip_id, k), failure, replies)
            =~= invitee_inserts(req, trip_id, k) + successful_ending(req, api_base_url, trip_id));
    } else {
        assert(replies =~= seq![ReplyView::Completed, ReplyView::Completed, ReplyView::Completed]);
        let r1 = replies.drop_first();
        let (s2, f2, a2) = spec_next(req, api_base_url, s1, f1, r1[0]);
        let r2 = r1.drop_first();
        let (s3, f3, a3) = spec_next(req, api_base_url, s2, f2, r2[0]);
        let r3 = r2.drop_first();
        assert(r3.len() == 0);
        assert(spec_run(req, api_base_url, s3, f3, r3) =~= seq![]);
        assert(spec_run(req, api_base_url, s2, f2, r2) =~= seq![a3]);
        assert(spec_run(req, api_base_url, s1, f1, r1) =~= seq![a2, a3]);
        assert(spec_run(req, api_base_url, participant_stage(trip_id, k), failure, replies) =~= seq![a1, a2, a3]);
        assert(invitee_inserts(req, trip_id, k) =~= seq![]);
        assert(spec_run(req, api_base_url, participant_stage(trip_id, k), failure, replies)
            =~= invitee_inserts(req, trip_id, k) + successful_ending(req, api_base_url, trip_id));
    }
}

/// When every step succeeds, planning a trip that passed the checks inserts
/// the trip, then the owner (confirmed, owner), then every address to invite in
/// the order given (unconfirmed, not owner), commits, queues the confirmation
/// e-mail to the owner and answers with the trip's id; nothing else is done.
pub proof fn lemma_successful_planning(
    req: &RequestBody,
    api_base_url: Seq<char>,
    trip_id: u128,
    failure: Seq<char>,
)
    requires
        req.emails_to_invite@.len() <= usize::MAX,
    ensures
        spec_run(req, api_base_url, Stage::Begin, failure, successful_replies(trip_id, req.emails_to_invite@.len()))
            == seq![
                ActionView::InsertTrip {
                    destination: req.destination@,
                    starts_at: req.starts_at@,
                    ends_at: req.ends_at@,
                },
                owner_insert(req, trip_id),
            ] + invitee_inserts(req, trip_id, 0) + successful_ending(req, api_base_url, trip_id),
{
    let n = req.emails_to_invite@.len();
    let replies = successful_replies(trip_id, n);
    let r1 = replies.drop_first();
    let r2 = r1.drop_first();
    assert(replies[0] == ReplyView::Completed);
    assert(r1[0] == ReplyView::Created(trip_id));
    assert(r2 =~= completions((n - 0 + 1) as nat) + seq![ReplyView::Completed, ReplyView::Completed]);
    lemma_participants_then_commit(req, api_base_url, trip_id, failure, 0);
    let (s1, f1, a1) = spec_next(req, api_base_url, Stage::Begin, failure, replies[0]);
    let (s2, f2, a2) = spec_next(req, api_base_url, s1, f1, r1[0]);
    assert(s2 == participant_stage(trip_id, 0));
    assert(f2 == failure);
    assert(spec_run(req, api_base_url, s1, f1, r1) == seq![a2] + spec_run(req, api_base_url, s2, f2, r2));
    assert(spec_run(req, api_base_url, Stage::Begin, failure, replies) =~= seq![
        ActionView::InsertTrip {
            destination: req.destination@,
            starts_at: req.starts_at@,
            ends_at: req.ends_at@,
        },
        owner_insert(req, trip_id),
    ] + invitee_inserts(req, trip_id, 0) + successful_ending(req, api_base_url, trip_id));
}

/// A participant insert that fails is followed by a rollback and then by a
/// server-side error: the insert's message if the rollback succeeds, the
/// rollback's message if it fails. No commit and no e-mail follow.
pub proof fn lemma_failed_participant_rolls_back(
    req: &RequestBody,
    api_base_url: Seq<char>,
    trip_id: u128,
    failure: Seq<char>,
    k: int,
    message: Seq<char>,
    rollback: ReplyView,
)
    requires
        0 <= k <= req.emails_to_invite@.len(),
        !(rollback is Created),
    ensures
        spec_run(
            req,
            api_base_url,
            participant_stage(trip_id, k),
            failure,
            seq![ReplyView::Failed(message), rollback],
        ) == seq![
            ActionView::Rollback,
            fail_with(
                match rollback {
                    ReplyView::Failed(m) => m,
                    _ => message,
                },
            ),
        ],
{
    let replies = seq![ReplyView::Failed(message), rollback];
    let r1 = replies.drop_first();
    let r2 = r1.drop_first();
    assert(r2.len() == 0);
    let (s1, f1, a1) = spec_next(req, api_base_url, participant_stage(trip_id, k), failure, replies[0]);
    let (s2, f2, a2) = spec_next(req, api_base_url, s1, f1, r1[0]);
    assert(spec_run(req, api_base_url, s2, f2, r2) =~= seq![]);
    assert(spec_run(req, api_base_url, s1, f1, r1) =~= seq![a2]);
    assert(spec_run(req, api_base_url, participant_stage(trip_id, k), failure, replies) =~= seq![
        ActionView::Rollback,
        fail_with(
            match rollback {
                ReplyView::Failed(m) => m,
                _ => message,
            },
        ),
    ]);
}

} // verus!
