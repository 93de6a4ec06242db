//! The failures that the service reports, and what a client is told of each.

use crate::decimal::{decimal, lemma_written_is_read_back, parse_u32, parsed_u32, u64_to_string};
use crate::views::option_view;
use vstd::prelude::*;
use vstd::string::*;

verus! {

/// Status of a request that was understood but cannot be carried out.
pub const UNPROCESSABLE_ENTITY: u16 = 422;

/// Status of a request that the cross-origin policy forbids.
pub const FORBIDDEN: u16 = 403;

/// Status of a failure on the service's own side.
pub const INTERNAL_SERVER_ERROR: u16 = 500;

/// Status of a request whose credentials were not accepted.
pub const UNAUTHORIZED: u16 = 401;

/// Status of a request that nothing in the service answers.
pub const NOT_FOUND: u16 = 404;

/// Code by which the database reports that a uniqueness constraint was violated.
pub const DUPLICATE_KEY: u32 = 23505;

/// What a downstream HTTP service answered when it reported a failure.
#[derive(Debug, Clone)]
pub struct APILayerError {
    pub status: u16,
    pub message: String,
}

/// An [`APILayerError`] as a mathematical value.
pub struct APILayerErrorView {
    pub status: nat,
    pub message: Seq<char>,
}

impl View for APILayerError {
    type V = APILayerErrorView;

    open spec fn view(&self) -> APILayerErrorView {
        APILayerErrorView { status: self.status as nat, message: self.message@ }
    }
}

impl APILayerErrorView {
    /// The text of the failure: status and message, each under its label.
    pub open spec fn text(self) -> Seq<char> {
        "Status: "@ + decimal(self.status) + ", Message: "@ + self.message
    }
}

impl APILayerError {
    /// Renders the failure as text.
    pub fn to_string(&self) -> (s: String)
        ensures
            s@ == self@.text(),
    {
        let status = u64_to_string(self.status as u64);
        String::from_str("Status: ").concat(status.as_str()).concat(", Message: ").concat(
            self.message.as_str(),
        )
    }
}

/// Every failure that a request handler can report.
///
/// A variant that stands for a failure of another component carries, as plain
/// values, what this library reads of that failure: the text that describes it,
/// or the code that the database gave.
#[derive(Debug, Clone)]
pub enum Error {
    /// A parameter could not be read as a number; the text says why.
    ParseError(String),
    /// A parameter that the request needs is absent.
    MissingParameters,
    /// The question that the request names does not exist.
    QuestionNotFound,
    /// The database refused or failed a query; the code is the one that the
    /// database gave, where it gave one.
    DatabaseQueryError(Option<String>),
    /// The call to a downstream service could not be completed.
    ReqwestAPIError(String),
    /// A downstream service answered with a client error.
    ClientError(APILayerError),
    /// A downstream service answered with a server error.
    ServerError(APILayerError),
    /// The call to a downstream service failed on its way through the middleware.
    MiddlewareReqwestAPIError(String),
    /// The password does not belong to the account.
    WrongPassword,
    /// The password hashing library failed; the text says how.
    ArgonLibraryError(String),
}

/// An [`Error`] as a mathematical value.
pub enum ErrorView {
    ParseError(Seq<char>),
    MissingParameters,
    QuestionNotFound,
    DatabaseQueryError(Option<Seq<char>>),
    ReqwestAPIError(Seq<char>),
    ClientError(APILayerErrorView),
    ServerError(APILayerErrorView),
    MiddlewareReqwestAPIError(Seq<char>),
    WrongPassword,
    ArgonLibraryError(Seq<char>),
}

impl View for Error {
    type V = ErrorView;

    open spec fn view(&self) -> ErrorView {
        match self {
            Error::ParseError(detail) => ErrorView::ParseError(detail@),
            Error::MissingParameters => ErrorView::MissingParameters,
            Error::QuestionNotFound => ErrorView::QuestionNotFound,
            Error::DatabaseQueryError(code) => ErrorView::DatabaseQueryError(option_view(*code)),
            Error::ReqwestAPIError(detail) => ErrorView::ReqwestAPIError(detail@),
            Error::ClientError(answer) => ErrorView::ClientError(answer@),
            Error::ServerError(answer) => ErrorView::ServerError(answer@),
            Error::MiddlewareReqwestAPIError(detail) => ErrorView::MiddlewareReqwestAPIError(
                detail@,
            ),
            Error::WrongPassword => ErrorView::WrongPassword,
            Error::ArgonLibraryError(detail) => ErrorView::ArgonLibraryError(detail@),
        }
    }
}

impl ErrorView {
    /// The text that describes the failure.
    pub open spec fn message(self) -> Seq<char> {
        match self {
            ErrorView::ParseError(detail) => "Cannot parse parameter: "@ + detail,
            ErrorView::MissingParameters => "Missing parameter"@,
            ErrorView::QuestionNotFound => "Question not found"@,
            ErrorView::DatabaseQueryError(_) => "Cannot update, invalid data."@,
            ErrorView::ReqwestAPIError(detail) => "External API error: "@ + detail,
            ErrorView::ClientError(answer) => "External client error: "@ + answer.text(),
            ErrorView::ServerError(answer) => "External server error: "@ + answer.text(),
            ErrorView::MiddlewareReqwestAPIError(detail) => "External API error: "@ + detail,
            ErrorView::WrongPassword => "Wrong password"@,
            ErrorView::ArgonLibraryError(detail) => "Argon library error: "@ + detail,
        }
    }

    /// Whether the failure is a query that the database refused or failed.
    pub open spec fn is_storage_failure(self) -> bool {
        self is DatabaseQueryError
    }

    /// Whether the failure is a call that never reached a downstream service.
    pub open spec fn is_transport_failure(self) -> bool {
        self is ReqwestAPIError || self is MiddlewareReqwestAPIError
    }

    /// Whether the failure is one of credentials: a wrong password, or a
    /// failure of the hashing library.
    pub open spec fn is_credential_failure(self) -> bool {
        self is WrongPassword || self is ArgonLibraryError
    }

    /// Whether the failure is one that no rule of its own speaks of.
    pub open spec fn is_generic(self) -> bool {
        !self.is_storage_failure() && !self.is_transport_failure()
            && !self.is_credential_failure()
    }
}

impl Error {
    /// Renders the failure as text.
    pub fn to_string(&self) -> (s: String)
        ensures
            s@ == self@.message(),
    {
        match self {
            Error::ParseError(detail) => String::from_str("Cannot parse parameter: ").concat(
                detail.as_str(),
            ),
            Error::MissingParameters => String::from_str("Missing parameter"),
            Error::QuestionNotFound => String::from_str("Question not found"),
            Error::DatabaseQueryError(_) => String::from_str("Cannot update, invalid data."),
            Error::ReqwestAPIError(detail) => String::from_str("External API error: ").concat(
                detail.as_str(),
            ),
            Error::ClientError(answer) => String::from_str("External client error: ").concat(
                answer.to_string().as_str(),
            ),
            Error::ServerError(answer) => String::from_str("External server error: ").concat(
                answer.to_string().as_str(),
            ),
            Error::MiddlewareReqwestAPIError(detail) => String::from_str(
                "External API error: ",
            ).concat(detail.as_str()),
            Error::WrongPassword => String::from_str("Wrong password"),
            Error::ArgonLibraryError(detail) => String::from_str("Argon library error: ").concat(
                detail.as_str(),
            ),
        }
    }
}

/// Why a request was turned away before or while it was handled.
#[derive(Debug, Clone)]
pub enum Rejection {
    /// A handler reported a failure of its own.
    Application(Error),
    /// The cross-origin policy forbids the request; the text is the policy's own.
    CorsForbidden(String),
    /// The request body could not be read; the text is the reader's own.
    MalformedBody(String),
    /// Nothing in the service recognises the request.
    Unrecognized,
}

/// A [`Rejection`] as a mathematical value.
pub enum RejectionView {
    Application(ErrorView),
    CorsForbidden(Seq<char>),
    MalformedBody(Seq<char>),
    Unrecognized,
}

impl View for Rejection {
    type V = RejectionView;

    open spec fn view(&self) -> RejectionView {
        match self {
            Rejection::Application(error) => RejectionView::Application(error@),
            Rejection::CorsForbidden(text) => RejectionView::CorsForbidden(text@),
            Rejection::MalformedBody(text) => RejectionView::MalformedBody(text@),
            Rejection::Unrecognized => RejectionView::Unrecognized,
        }
    }
}

impl Rejection {
    /// Makes a rejection of what was found when a turned-away request was
    /// searched for a failure of the application, for a violation of the
    /// cross-origin policy and for an unreadable body. Where more than one was
    /// found, the failure of the application counts before the violation, and the
    /// violation before the unreadable body.
    pub fn from_causes(
        application: Option<Error>,
        cors: Option<String>,
        body: Option<String>,
    ) -> (r: Rejection)
        ensures
            r == match (application, cors, body) {
                (Some(error), _, _) => Rejection::Application(error),
                (None, Some(text), _) => Rejection::CorsForbidden(text),
                (None, None, Some(text)) => Rejection::MalformedBody(text),
                (None, None, None) => Rejection::Unrecognized,
            },
    {
        match application {
            Some(error) => Rejection::Application(error),
            None => match cors {
                Some(text) => Rejection::CorsForbidden(text),
                None => match body {
                    Some(text) => Rejection::MalformedBody(text),
                    None => Rejection::Unrecognized,
                },
            },
        }
    }
}

/// Whether `code` is the database's code for a violated uniqueness constraint.
pub open spec fn is_duplicate_key(code: Option<Seq<char>>) -> bool {
    code matches Some(text) && parsed_u32(text) == Some(DUPLICATE_KEY)
}

impl RejectionView {
    /// What the rule on failures of the application gives: a failure that a
    /// handler reports and that no rule of its own speaks of is unprocessable,
    /// with the failure's own text.
    pub open spec fn application_error(self) -> Option<(u16, Seq<char>)> {
        match self {
            RejectionView::Application(error) if error.is_generic() => Some(
                (UNPROCESSABLE_ENTITY, error.message()),
            ),
            _ => None,
        }
    }

    /// What the rule on failed queries gives: a violated uniqueness constraint
    /// means that the account exists, any other failure that the data cannot be
    /// updated.
    pub open spec fn storage_failure(self) -> Option<(u16, Seq<char>)> {
        match self {
            RejectionView::Application(ErrorView::DatabaseQueryError(code)) => Some(
                (
                    UNPROCESSABLE_ENTITY,
                    if is_duplicate_key(code) {
                        "Account already exists"@
                    } else {
                        "Cannot update data"@
                    },
                ),
            ),
            _ => None,
        }
    }

    /// What the rule on the cross-origin policy gives: the policy's own text.
    pub open spec fn cors_forbidden(self) -> Option<(u16, Seq<char>)> {
        match self {
            RejectionView::CorsForbidden(text) => Some((FORBIDDEN, text)),
            _ => None,
        }
    }

    /// What the rule on unreadable request bodies gives: the reader's own text.
    pub open spec fn malformed_body(self) -> Option<(u16, Seq<char>)> {
        match self {
            RejectionView::MalformedBody(text) => Some((UNPROCESSABLE_ENTITY, text)),
            _ => None,
        }
    }

    /// What the rule on calls that never reached a downstream service gives: a
    /// fixed text that says nothing of the cause.
    pub open spec fn upstream_transport_failure(self) -> Option<(u16, Seq<char>)> {
        match self {
            RejectionView::Application(ErrorView::ReqwestAPIError(_))
            | RejectionView::Application(ErrorView::MiddlewareReqwestAPIError(_)) => Some(
                (INTERNAL_SERVER_ERROR, "Internal server error"@),
            ),
            _ => None,
        }
    }

    /// What the rule on credentials gives: one fixed text, whether the password
    /// was wrong or the hashing library failed.
    pub open spec fn invalid_credentials(self) -> Option<(u16, Seq<char>)> {
        match self {
            RejectionView::Application(ErrorView::WrongPassword)
            | RejectionView::Application(ErrorView::ArgonLibraryError(_)) => Some(
                (UNAUTHORIZED, "Wrong E-mail/Password combination"@),
            ),
            _ => None,
        }
    }

    /// The status and the text that a client is given.
    ///
    /// The rules are tried in a fixed order and the first that applies decides;
    /// where none applies the request counts as one for an unknown route. A
    /// failed query, a call that never reached a downstream service and a
    /// failure of credentials each have a rule of their own, and that rule
    /// decides on them; every other failure of the application falls under the
    /// first rule.
    pub open spec fn classification(self) -> (u16, Seq<char>) {
        if let Some(reply) = self.application_error() {
            reply
        } else if let Some(reply) = self.storage_failure() {
            reply
        } else if let Some(reply) = self.cors_forbidden() {
            reply
        } else if let Some(reply) = self.malformed_body() {
            reply
        } else if let Some(reply) = self.upstream_transport_failure() {
            reply
        } else if let Some(reply) = self.invalid_credentials() {
            reply
        } else {
            (NOT_FOUND, "Route not found"@)
        }
    }
}

/// Whether the database's code says that a uniqueness constraint was violated.
pub fn duplicate_key(code: &Option<String>) -> (b: bool)
    ensures
        b == is_duplicate_key(option_view(*code)),
{
    match code {
        Some(code) => match parse_u32(code.as_str()) {
            Some(number) => number == DUPLICATE_KEY,
            None => false,
        },
        None => false,
    }
}

/// The rule on failures of the application.
pub fn application_error(r: &Rejection) -> (reply: Option<(u16, String)>)
    ensures
        option_view(reply) == r@.application_error(),
{
    match r {
        Rejection::Application(Error::DatabaseQueryError(_))
        | Rejection::Application(Error::ReqwestAPIError(_))
        | Rejection::Application(Error::MiddlewareReqwestAPIError(_))
        | Rejection::Application(Error::WrongPassword)
        | Rejection::Application(Error::ArgonLibraryError(_)) => None,
        Rejection::Application(error) => Some((UNPROCESSABLE_ENTITY, error.to_string())),
        _ => None,
    }
}

/// The rule on failed queries.
pub fn storage_failure(r: &Rejection) -> (reply: Option<(u16, String)>)
    ensures
        option_view(reply) == r@.storage_failure(),
{
    match r {
        Rejection::Application(Error::DatabaseQueryError(code)) => {
            if duplicate_key(code) {
                Some((UNPROCESSABLE_ENTITY, String::from_str("Account already exists")))
            } else {
                Some((UNPROCESSABLE_ENTITY, String::from_str("Cannot update data")))
            }
        },
        _ => None,
    }
}

/// The rule on the cross-origin policy.
pub fn cors_forbidden(r: &Rejection) -> (reply: Option<(u16, String)>)
    ensures
        option_view(reply) == r@.cors_forbidden(),
{
    match r {
        Rejection::CorsForbidden(text) => Some((FORBIDDEN, text.clone())),
        _ => None,
    }
}

/// The rule on unreadable request bodies.
pub fn malformed_body(r: &Rejection) -> (reply: Option<(u16, String)>)
    ensures
        option_view(reply) == r@.malformed_body(),
{
    match r {
        Rejection::MalformedBody(text) => Some((UNPROCESSABLE_ENTITY, text.clone())),
        _ => None,
    }
}

/// The rule on calls that never reached a downstream service.
pub fn upstream_transport_failure(r: &Rejection) -> (reply: Option<(u16, String)>)
    ensures
        option_view(reply) == r@.upstream_transport_failure(),
{
    match r {
        Rejection::Application(Error::ReqwestAPIError(_))
        | Rejection::Application(Error::MiddlewareReqwestAPIError(_)) => Some(
            (INTERNAL_SERVER_ERROR, String::from_str("Internal server error")),
        ),
        _ => None,
    }
}

/// The rule on credentials.
pub fn invalid_credentials(r: &Rejection) -> (reply: Option<(u16, String)>)
    ensures
        option_view(reply) == r@.invalid_credentials(),
{
    match r {
        Rejection::Application(Error::WrongPassword)
        | Rejection::Application(Error::ArgonLibraryError(_)) => Some(
            (UNAUTHORIZED, String::from_str("Wrong E-mail/Password combination")),
        ),
        _ => None,
    }
}

/// Decides what a client is told of a rejected request: the status code and the
/// text of the answer.
pub fn return_error(r: Rejection) -> (reply: (u16, String))
    ensures
        reply@ == r@.classification(),
        reply@ == match r@ {
            RejectionView::Application(ErrorView::DatabaseQueryError(code)) => (
                UNPROCESSABLE_ENTITY,
                if is_duplicate_key(code) {
                    "Account already exists"@
                } else {
                    "Cannot update data"@
                },
            ),
            RejectionView::Application(ErrorView::ReqwestAPIError(_))
            | RejectionView::Application(ErrorView::MiddlewareReqwestAPIError(_)) => (
                INTERNAL_SERVER_ERROR,
                "Internal server error"@,
            ),
            RejectionView::Application(ErrorView::WrongPassword)
            | RejectionView::Application(ErrorView::ArgonLibraryError(_)) => (
                UNAUTHORIZED,
                "Wrong E-mail/Password combination"@,
            ),
            RejectionView::Application(error) => (UNPROCESSABLE_ENTITY, error.message()),
            RejectionView::CorsForbidden(text) => (FORBIDDEN, text),
            RejectionView::MalformedBody(text) => (UNPROCESSABLE_ENTITY, text),
            RejectionView::Unrecognized => (NOT_FOUND, "Route not found"@),
        },
{
    if let Some(reply) = application_error(&r) {
        reply
    } else if let Some(reply) = storage_failure(&r) {
        reply
    } else if let Some(reply) = cors_forbidden(&r) {
        reply
    } else if let Some(reply) = malformed_body(&r) {
        reply
    } else if let Some(reply) = upstream_transport_failure(&r) {
        reply
    } else if let Some(reply) = invalid_credentials(&r) {
        reply
    } else {
        (NOT_FOUND, String::from_str("Route not found"))
    }
}

/// A failure of the application that no rule of its own speaks of is answered
/// with the status "unprocessable" and the failure's own text.
pub proof fn lemma_generic_failure_is_unprocessable(error: ErrorView)
    requires
        error.is_generic(),
    ensures
        RejectionView::Application(error).classification() == (
            UNPROCESSABLE_ENTITY,
            error.message(),
        ),
{
}

/// A failed query is answered with the status "unprocessable": by saying that
/// the account exists where the database gave the code of a violated uniqueness
/// constraint, as that code is written in decimal notation among others, and by
/// saying that the data cannot be updated where it gave another code or none.
pub proof fn lemma_storage_failure_tells_duplicates(code: Option<Seq<char>>)
    ensures
        RejectionView::Application(ErrorView::DatabaseQueryError(code)).classification() == (
            UNPROCESSABLE_ENTITY,
            if is_duplicate_key(code) {
                "Account already exists"@
            } else {
                "Cannot update data"@
            },
        ),
        is_duplicate_key(Some(decimal(DUPLICATE_KEY as nat))),
        !is_duplicate_key(None),
{
    lemma_written_is_read_back(DUPLICATE_KEY as nat);
}

/// A call that never reached a downstream service is answered with the status
/// of a failure on the service's own side and a fixed text, whatever the cause
/// and whichever way the call went.
pub proof fn lemma_transport_failure_hides_cause(cause: Seq<char>)
    ensures
        RejectionView::Application(ErrorView::ReqwestAPIError(cause)).classification() == (
            INTERNAL_SERVER_ERROR,
            "Internal server error"@,
        ),
        RejectionView::Application(ErrorView::MiddlewareReqwestAPIError(cause)).classification()
            == (INTERNAL_SERVER_ERROR, "Internal server error"@),
{
}

/// A wrong password and a failure of the hashing library are answered alike,
/// with the status "unauthorized" and one fixed text, so that the answer tells
/// neither which of the two occurred nor how the library failed.
pub proof fn lemma_credential_failure_hides_cause(failure: Seq<char>)
    ensures
        RejectionView::Application(ErrorView::WrongPassword).classification() == (
            UNAUTHORIZED,
            "Wrong E-mail/Password combination"@,
        ),
        RejectionView::Application(ErrorView::ArgonLibraryError(failure)).classification()
            == RejectionView::Application(ErrorView::WrongPassword).classification(),
{
}

/// A request that no rule recognises is answered as one for an unknown route.
pub proof fn lemma_unrecognized_is_not_found()
    ensures
        RejectionView::Unrecognized.classification() == (NOT_FOUND, "Route not found"@),
{
}

/// What a client is told depends on nothing but the rejection: two rejections
/// that are the same value are answered alike.
pub proof fn lemma_same_rejection_same_reply(a: Rejection, b: Rejection)
    requires
        a@ == b@,
    ensures
        a@.classification() == b@.classification(),
{
}

} // verus!
