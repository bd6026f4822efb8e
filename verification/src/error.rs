use vstd::prelude::*;
use crate::validation::{field_error_codes, message_free_fields, reports_field_errors, validation_errors_text};

verus! {

/// The JSON body of an error reply.
pub struct ErrorResponse {
    pub message: String,
}

/// An error that ends a request.
pub enum AppError {
    /// The request cannot be served as asked; the message is shown to the client.
    BadRequest(String),
    /// Something failed on the server side; the message is logged, not shown.
    InternalServerError(String),
}

/// What an error becomes on the wire: the HTTP status, the JSON body, and the
/// line to write to the error log, if any.
pub struct ErrorReply {
    pub status: u16,
    pub body: ErrorResponse,
    pub log: Option<String>,
}

/// The content of an error: its kind and its message.
pub enum AppErrorView {
    BadRequest(Seq<char>),
    InternalServerError(Seq<char>),
}

impl View for AppError {
    type V = AppErrorView;

    open spec fn view(&self) -> AppErrorView {
        match self {
            AppError::BadRequest(m) => AppErrorView::BadRequest(m@),
            AppError::InternalServerError(m) => AppErrorView::InternalServerError(m@),
        }
    }
}

/// The text that an error displays: the message it carries.
pub open spec fn error_text(e: AppError) -> Seq<char> {
    match e {
        AppError::BadRequest(m) => m@,
        AppError::InternalServerError(m) => m@,
    }
}

/// The message shown to clients in place of the details of a server-side failure.
pub open spec fn internal_error_message() -> Seq<char> {
    "Internal Server Error"@
}

impl AppError {
    /// An error caused by the request, carrying the given message.
    pub fn bad_request(message: &str) -> (r: AppError)
        ensures
            r is BadRequest,
            error_text(r) == message@,
    {
        AppError::BadRequest(message.to_string())
    }

    /// A server-side failure, carrying the given message.
    pub fn internal(message: String) -> (r: AppError)
        ensures
            r is InternalServerError,
            error_text(r) == message@,
    {
        AppError::InternalServerError(message)
    }

    /// A validation failure: a server-side error carrying the display text of
    /// the validation errors, which names each field whose first error has no
    /// custom message, with that error's code (see `validation_errors_text`).
    pub fn from_validation_errors(errors: &validator::ValidationErrors) -> (r: AppError)
        ensures
            r is InternalServerError,
            reports_field_errors(
                error_text(r),
                field_error_codes(*errors).restrict(message_free_fields(*errors)),
            ),
    {
        AppError::InternalServerError(validation_errors_text(errors))
    }

    /// The text of the error (its display form).
    pub fn message(&self) -> (r: String)
        ensures
            r@ == error_text(*self),
    {
        match self {
            AppError::BadRequest(m) => m.clone(),
            AppError::InternalServerError(m) => m.clone(),
        }
    }

    /// Turns the error into its reply: a bad request answers 400 with its own
    /// message; a server failure answers 500 with a fixed message and is logged.
    pub fn into_response(self) -> (r: ErrorReply)
        ensures
            self is BadRequest ==> {
                &&& r.status == 400
                &&& r.body.message@ == error_text(self)
                &&& r.log is None
            },
            self is InternalServerError ==> {
                &&& r.status == 500
                &&& r.body.message@ == internal_error_message()
                &&& r.log matches Some(line) && line@ == error_text(self)
            },
    {
        match self {
            AppError::BadRequest(m) => ErrorReply {
                status: 400,
                body: ErrorResponse { message: m },
                log: None,
            },
            AppError::InternalServerError(m) => {
                let body = ErrorResponse { message: String::from_str("Internal Server Error") };
                proof {
                    reveal_strlit("Internal Server Error");
                }
                ErrorReply { status: 500, body, log: Some(m) }
            },
        }
    }
}

} // verus!
