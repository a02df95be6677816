//! What a checkpoint decides: to let a request continue, or to deny it with
//! a status and a GraphQL error.

use vstd::prelude::*;
use vstd::string::*;

verus! {

/// The `extensions.code` of a denial.
#[derive(Clone, Copy, Debug, PartialEq, Eq, Structural)]
pub enum ErrorCode {
    /// The request carried no `Authorization` header.
    AuthError,
    /// The `Authorization` header is not text.
    BadClientId,
    /// The sidecar could not be reached.
    ServiceError,
    /// The sidecar answered with a status other than 200.
    UnauthorizedRequest,
}

impl ErrorCode {
    /// The code as it stands in the response body.
    pub open spec fn text(self) -> Seq<char> {
        match self {
            ErrorCode::AuthError => "AUTH_ERROR"@,
            ErrorCode::BadClientId => "BAD_CLIENT_ID"@,
            ErrorCode::ServiceError => "SERVICE_ERROR"@,
            ErrorCode::UnauthorizedRequest => "UNAUTHORIZED_REQUEST"@,
        }
    }

    /// The message that goes with the code.
    pub open spec fn message_text(self) -> Seq<char> {
        match self {
            ErrorCode::AuthError => "Missing 'Authorization' header"@,
            ErrorCode::BadClientId => "'Authorization' value is not a string"@,
            ErrorCode::ServiceError => "Auth sidecar is unreachable"@,
            ErrorCode::UnauthorizedRequest => "Request is not allowed"@,
        }
    }

    /// The code as text.
    pub fn as_str(&self) -> (s: &'static str)
        ensures
            s@ == self.text(),
    {
        match self {
            ErrorCode::AuthError => "AUTH_ERROR",
            ErrorCode::BadClientId => "BAD_CLIENT_ID",
            ErrorCode::ServiceError => "SERVICE_ERROR",
            ErrorCode::UnauthorizedRequest => "UNAUTHORIZED_REQUEST",
        }
    }

    /// The message of an error with this code.
    pub fn message(&self) -> (s: &'static str)
        ensures
            s@ == self.message_text(),
    {
        match self {
            ErrorCode::AuthError => "Missing 'Authorization' header",
            ErrorCode::BadClientId => "'Authorization' value is not a string",
            ErrorCode::ServiceError => "Auth sidecar is unreachable",
            ErrorCode::UnauthorizedRequest => "Request is not allowed",
        }
    }
}

/// The body of a denial: a GraphQL response with no data and one error.
pub open spec fn error_body(message: Seq<char>, code: Seq<char>) -> Seq<char> {
    "{\"data\":null,\"errors\":[{\"message\":\""@ + message
        + "\",\"extensions\":{\"code\":\""@ + code + "\"}}]}"@
}

/// A denied request: the HTTP status of the response and the code of its
/// one GraphQL error.
#[derive(Clone, Copy, Debug, PartialEq, Eq, Structural)]
pub struct Denial {
    pub status: u16,
    pub code: ErrorCode,
}

impl Denial {
    /// A denial is well formed when its status is the one its code stands
    /// for. A refusal by the sidecar carries the sidecar's own status, which
    /// is never 200.
    pub open spec fn wf(self) -> bool {
        match self.code {
            ErrorCode::AuthError => self.status == 401,
            ErrorCode::BadClientId => self.status == 400,
            ErrorCode::ServiceError => self.status == 503,
            ErrorCode::UnauthorizedRequest => self.status != 200,
        }
    }

    /// The request had no `Authorization` header.
    pub fn missing_header() -> (d: Denial)
        ensures
            d == (Denial { status: 401, code: ErrorCode::AuthError }),
            d.wf(),
    {
        Denial { status: 401, code: ErrorCode::AuthError }
    }

    /// The `Authorization` header was not text.
    pub fn not_text() -> (d: Denial)
        ensures
            d == (Denial { status: 400, code: ErrorCode::BadClientId }),
            d.wf(),
    {
        Denial { status: 400, code: ErrorCode::BadClientId }
    }

    /// The sidecar gave no answer.
    pub fn unreachable() -> (d: Denial)
        ensures
            d == (Denial { status: 503, code: ErrorCode::ServiceError }),
            d.wf(),
    {
        Denial { status: 503, code: ErrorCode::ServiceError }
    }

    /// The sidecar answered with `status`, which the denial passes on.
    pub fn refused(status: u16) -> (d: Denial)
        ensures
            d == (Denial { status, code: ErrorCode::UnauthorizedRequest }),
            d.wf() <==> status != 200,
    {
        Denial { status, code: ErrorCode::UnauthorizedRequest }
    }

    /// The message of the denial's one error.
    pub fn message(&self) -> (s: &'static str)
        ensures
            s@ == self.code.message_text(),
    {
        self.code.message()
    }

    /// The JSON text of the response body.
    pub open spec fn body_text(self) -> Seq<char> {
        error_body(self.code.message_text(), self.code.text())
    }

    /// Renders the response body. It holds the message and the code and
    /// nothing of the request.
    pub fn body(&self) -> (s: String)
        ensures
            s@ == self.body_text(),
    {
        let mut s = String::from_str("{\"data\":null,\"errors\":[{\"message\":\"");
        s.append(self.code.message());
        s.append("\",\"extensions\":{\"code\":\"");
        s.append(self.code.as_str());
        s.append("\"}}]}");
        s
    }
}

/// The outcome of a checkpoint.
#[derive(Clone, Copy, Debug, PartialEq, Eq, Structural)]
pub enum Decision {
    /// The request goes on, unchanged.
    Continue,
    /// The request ends here, with this denial.
    Deny(Denial),
}

impl Decision {
    /// Whether the request reaches the service behind the checkpoint.
    pub open spec fn forwards(self) -> bool {
        self is Continue
    }

    /// Whether the decision is to let the request continue.
    pub fn is_continue(&self) -> (b: bool)
        ensures
            b == self.forwards(),
    {
        match self {
            Decision::Continue => true,
            Decision::Deny(_) => false,
        }
    }
}

} // verus!
