//! The failures a request can end in, and the HTTP status and message that each
//! one is answered with.

use vstd::prelude::*;

verus! {

/// What a failure is, with the text it carries seen as a sequence of chars.
pub enum ErrorView {
    NotFound,
    Gone(Seq<char>),
    BadRequest(Seq<char>),
    Db(Seq<char>),
    Internal(Seq<char>),
}

/// Every way a request can fail.
///
/// `NotFound` is answered 404, `Gone` (deleted or expired) 410, `BadRequest`
/// (validation) 400, and the two server-side failures 500.
#[derive(Debug)]
pub enum AppError {
    NotFound,
    Gone(String),
    BadRequest(String),
    /// A storage failure, with the storage layer's own description of it.
    Db(String),
    Internal(String),
}

impl View for AppError {
    type V = ErrorView;

    open spec fn view(&self) -> ErrorView {
        match self {
            AppError::NotFound => ErrorView::NotFound,
            AppError::Gone(m) => ErrorView::Gone(m@),
            AppError::BadRequest(m) => ErrorView::BadRequest(m@),
            AppError::Db(m) => ErrorView::Db(m@),
            AppError::Internal(m) => ErrorView::Internal(m@),
        }
    }
}

/// A result with a text on success, seen through views.
pub open spec fn outcome_view(r: Result<String, AppError>) -> Result<Seq<char>, ErrorView> {
    match r {
        Ok(s) => Ok(s@),
        Err(e) => Err(e@),
    }
}

/// The HTTP status a failure is answered with.
pub open spec fn spec_status_code(e: ErrorView) -> u16 {
    match e {
        ErrorView::NotFound => 404,
        ErrorView::Gone(_) => 410,
        ErrorView::BadRequest(_) => 400,
        ErrorView::Db(_) => 500,
        ErrorView::Internal(_) => 500,
    }
}

/// The message a failure is answered with. Server-side failures never show
/// their cause to the client.
pub open spec fn spec_detail(e: ErrorView) -> Seq<char> {
    match e {
        ErrorView::NotFound => "Not Found"@,
        ErrorView::Gone(m) => m,
        ErrorView::BadRequest(m) => m,
        ErrorView::Db(_) => "Internal Server Error"@,
        ErrorView::Internal(_) => "Internal Server Error"@,
    }
}

impl AppError {
    /// The HTTP status code of this failure.
    pub fn status_code(&self) -> (code: u16)
        ensures
            code == spec_status_code(self@),
    {
        match self {
            AppError::NotFound => 404,
            AppError::Gone(_) => 410,
            AppError::BadRequest(_) => 400,
            AppError::Db(_) => 500,
            AppError::Internal(_) => 500,
        }
    }

    /// The `detail` message sent to the client for this failure.
    pub fn detail(&self) -> (msg: String)
        ensures
            msg@ == spec_detail(self@),
    {
        match self {
            AppError::NotFound => String::from_str("Not Found"),
            AppError::Gone(m) => m.clone(),
            AppError::BadRequest(m) => m.clone(),
            AppError::Db(_) => String::from_str("Internal Server Error"),
            AppError::Internal(_) => String::from_str("Internal Server Error"),
        }
    }
}

/// A server-side failure is answered 500 and never shows its cause.
pub proof fn law_server_errors_hide_their_cause(e: ErrorView)
    requires
        spec_status_code(e) == 500,
    ensures
        spec_detail(e) == "Internal Server Error"@,
{
}

/// A client-side failure shows its own message, and a missing link is
/// answered with "Not Found".
pub proof fn law_client_errors_explain_themselves(e: ErrorView)
    ensures
        e matches ErrorView::Gone(m) ==> spec_status_code(e) == 410 && spec_detail(e) == m,
        e matches ErrorView::BadRequest(m) ==> spec_status_code(e) == 400 && spec_detail(e) == m,
        e is NotFound ==> spec_status_code(e) == 404 && spec_detail(e) == "Not Found"@,
{
}

} // verus!
