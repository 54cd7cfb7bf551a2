//! What can go wrong while a request is served, and how it is answered.

use vstd::prelude::*;

verus! {

/// An error of the service. Where it has a cause, the variant carries the
/// cause's text.
#[derive(Debug, Clone)]
pub enum MyError {
    /// The feed at this address could not be read, for this reason.
    InvalidSubscription(String, String),
    CannotFind(String),
    /// The parameter of this name had this value, which is not accepted.
    BadParam(String, String),
    Internal(String),
    /// There is no such thing as this.
    Missing(String),
    NotLoggedIn(String),
}

/// An error as plain values.
pub enum ErrorView {
    InvalidSubscription(Seq<char>, Seq<char>),
    CannotFind(Seq<char>),
    BadParam(Seq<char>, Seq<char>),
    Internal(Seq<char>),
    Missing(Seq<char>),
    NotLoggedIn(Seq<char>),
}

impl View for MyError {
    type V = ErrorView;

    open spec fn view(&self) -> ErrorView {
        match *self {
            MyError::InvalidSubscription(url, reason) => ErrorView::InvalidSubscription(
                url@,
                reason@,
            ),
            MyError::CannotFind(cause) => ErrorView::CannotFind(cause@),
            MyError::BadParam(param, value) => ErrorView::BadParam(param@, value@),
            MyError::Internal(cause) => ErrorView::Internal(cause@),
            MyError::Missing(what) => ErrorView::Missing(what@),
            MyError::NotLoggedIn(cause) => ErrorView::NotLoggedIn(cause@),
        }
    }
}

/// The status that an error is answered with: 404 for what is missing or
/// cannot be found, 500 for everything else.
pub open spec fn status_of(error: ErrorView) -> u16 {
    match error {
        ErrorView::Missing(_) | ErrorView::CannotFind(_) => 404,
        _ => 500,
    }
}

/// The text that an error shows.
pub open spec fn message_of(error: ErrorView) -> Seq<char> {
    match error {
        ErrorView::InvalidSubscription(url, _) => "Invalid Subscription "@ + url,
        ErrorView::CannotFind(_) => "Cannot find"@,
        ErrorView::BadParam(param, _) => "Bad Param "@ + param,
        ErrorView::Internal(_) => "Internal Error"@,
        ErrorView::Missing(what) => "Missing "@ + what,
        ErrorView::NotLoggedIn(_) => "User Not Logged in"@,
    }
}

/// The answer to a request that failed.
#[derive(Debug, Clone)]
pub struct ErrorResponse {
    pub status: u16,
    /// Where the client is sent, for a redirect.
    pub location: Option<String>,
    pub body: String,
}

/// An answer as plain values.
pub struct ResponseView {
    pub status: u16,
    pub location: Option<Seq<char>>,
    pub body: Seq<char>,
}

impl View for ErrorResponse {
    type V = ResponseView;

    open spec fn view(&self) -> ResponseView {
        ResponseView {
            status: self.status,
            location: match self.location {
                Some(l) => Some(l@),
                None => None,
            },
            body: self.body@,
        }
    }
}

/// How an error is answered. Who is not logged in is sent to the login
/// page. What cannot be found, and what went wrong inside, is answered
/// with its status and the incident's id only, so that the cause stays in
/// the log. Every other error is answered with its status and its text.
pub open spec fn response_of(error: ErrorView, incident: Seq<char>) -> ResponseView {
    match error {
        ErrorView::NotLoggedIn(_) => ResponseView {
            status: 302,
            location: Some("/login"@),
            body: "Not logged in"@,
        },
        ErrorView::CannotFind(_) | ErrorView::Internal(_) => ResponseView {
            status: status_of(error),
            location: None,
            body: "internal error "@ + incident,
        },
        _ => ResponseView { status: status_of(error), location: None, body: message_of(error) },
    }
}

impl MyError {
    /// An internal error with this cause.
    pub fn internal(cause: &str) -> (r: MyError)
        ensures
            r@ == ErrorView::Internal(cause@),
    {
        MyError::Internal(cause.to_owned())
    }

    /// A parameter that is not accepted.
    pub fn bad_param(param: &str, value: &str) -> (r: MyError)
        ensures
            r@ == ErrorView::BadParam(param@, value@),
    {
        MyError::BadParam(param.to_owned(), value.to_owned())
    }

    /// The status that the error is answered with.
    pub fn status_code(&self) -> (r: u16)
        ensures
            r == status_of(self@),
    {
        match self {
            MyError::BadParam(_, _)
            | MyError::InvalidSubscription(_, _)
            | MyError::NotLoggedIn(_)
            | MyError::Internal(_) => 500,
            MyError::Missing(_) | MyError::CannotFind(_) => 404,
        }
    }

    /// The text that the error shows.
    pub fn message(&self) -> (r: String)
        ensures
            r@ == message_of(self@),
    {
        match self {
            MyError::InvalidSubscription(url, _) => {
                let mut text = "Invalid Subscription ".to_owned();
                text.append(url.as_str());
                text
            },
            MyError::CannotFind(_) => "Cannot find".to_owned(),
            MyError::BadParam(param, _) => {
                let mut text = "Bad Param ".to_owned();
                text.append(param.as_str());
                text
            },
            MyError::Internal(_) => "Internal Error".to_owned(),
            MyError::Missing(what) => {
                let mut text = "Missing ".to_owned();
                text.append(what.as_str());
                text
            },
            MyError::NotLoggedIn(_) => "User Not Logged in".to_owned(),
        }
    }

    /// The answer to the request that failed with this error. `incident` is
    /// the id under which the failure is logged.
    pub fn error_response(&self, incident: &str) -> (r: ErrorResponse)
        ensures
            r@ == response_of(self@, incident@),
    {
        match self {
            MyError::NotLoggedIn(_) => ErrorResponse {
                status: 302,
                location: Some("/login".to_owned()),
                body: "Not logged in".to_owned(),
            },
            MyError::CannotFind(_) | MyError::Internal(_) => {
                let mut body = "internal error ".to_owned();
                body.append(incident);
                ErrorResponse { status: self.status_code(), location: None, body }
            },
            _ => ErrorResponse { status: self.status_code(), location: None, body: self.message() },
        }
    }
}

} // verus!
