//! The gateway's side of the checkpoint.
//!
//! A request passes through two steps. [`begin`] reads the `Authorization`
//! header and either denies the request or asks for a call to the sidecar.
//! The caller makes that call and hands the reply to
//! [`PendingCall::conclude`], which lets the request continue or denies it.
//! Neither step keeps state between requests, and nothing is tried twice.

use crate::decision::{Decision, Denial, ErrorCode};
use std::str::FromStr;
use vstd::prelude::*;
use vstd::string::*;
use vstd::utf8::*;

verus! {

/// How many checkpoints may be in flight at once unless the caller chooses
/// otherwise. Further requests wait; none is let through unchecked.
pub const DEFAULT_CAPACITY: usize = 20_000;

/// The name of the form field that carries the credential to the sidecar.
pub const TOKEN_FIELD: &'static str = "token";

/// The name of the header that carries the credential.
pub const CREDENTIAL_HEADER: &'static str = "Authorization";

/// The normal form of `addr` as a URL, or `None` where `addr` is no URL.
pub uninterp spec fn parsed_url(addr: Seq<char>) -> Option<Seq<char>>;

/// Parses `addr` with `reqwest::Url::from_str` and serialises the URL again.
/// The contract only names the outcome: it is the same for the same text.
#[verifier::external_body]
fn parse_url(addr: &str) -> (r: Option<String>)
    ensures
        match r {
            Some(url) => parsed_url(addr@) == Some(url@),
            None => parsed_url(addr@) is None,
        },
{
    match reqwest::Url::from_str(addr) {
        Ok(url) => Some(String::from(url)),
        Err(_) => None,
    }
}

/// Decodes `bytes` with `core::str::from_utf8`: the text is there exactly
/// when the bytes are valid UTF-8, and it then encodes to those bytes.
#[verifier::external_body]
fn utf8_text(bytes: &[u8]) -> (r: Option<&str>)
    ensures
        r is Some <==> valid_utf8(bytes@),
        r matches Some(s) ==> s.spec_bytes() == bytes@,
{
    core::str::from_utf8(bytes).ok()
}

/// Why an interceptor could not be set up.
#[derive(Clone, Copy, Debug, PartialEq, Eq, Structural)]
pub enum ConfigError {
    /// The sidecar's address is not a URL.
    InvalidUrl,
}

/// The configuration of an interceptor: the URL of the sidecar's endpoint.
pub struct InterceptorConfig {
    addr: String,
}

impl View for InterceptorConfig {
    type V = Seq<char>;

    /// The sidecar's URL, in normal form.
    closed spec fn view(&self) -> Seq<char> {
        self.addr@
    }
}

impl InterceptorConfig {
    /// Builds the configuration from the outcome of parsing an address.
    pub fn from_parsed(parsed: Option<String>) -> (r: Result<InterceptorConfig, ConfigError>)
        ensures
            match parsed {
                Some(url) => r matches Ok(config) && config@ == url@,
                None => r == Err::<InterceptorConfig, ConfigError>(ConfigError::InvalidUrl),
            },
    {
        match parsed {
            Some(url) => Ok(InterceptorConfig { addr: url }),
            None => Err(ConfigError::InvalidUrl),
        }
    }

    /// Accepts `addr` exactly when it is a URL, and keeps its normal form.
    pub fn new(addr: &str) -> (r: Result<InterceptorConfig, ConfigError>)
        ensures
            match parsed_url(addr@) {
                Some(url) => r matches Ok(config) && config@ == url,
                None => r == Err::<InterceptorConfig, ConfigError>(ConfigError::InvalidUrl),
            },
    {
        InterceptorConfig::from_parsed(parse_url(addr))
    }

    /// The sidecar's URL.
    pub fn addr(&self) -> (s: &str)
        ensures
            s@ == self@,
    {
        self.addr.as_str()
    }
}

/// What came back from the call to the sidecar.
#[derive(Clone, Copy, Debug, PartialEq, Eq, Structural)]
pub enum SidecarReply {
    /// The sidecar answered with this HTTP status.
    Status(u16),
    /// No answer came: the call failed in transport.
    Unreachable,
}

/// A request whose credential has been read and whose sidecar call is due.
/// Only [`begin`] makes one, so a request can continue only after its
/// header has been found and read.
pub struct PendingCall {
    credential: String,
}

impl View for PendingCall {
    type V = Seq<char>;

    /// The credential: the header's value as text, with nothing removed.
    closed spec fn view(&self) -> Seq<char> {
        self.credential@
    }
}

/// What the caller does after the first step.
pub enum Step {
    /// Post the credential to the sidecar, then conclude with its reply.
    CallSidecar(PendingCall),
    /// Answer with this denial; the sidecar is not called.
    Respond(Denial),
}

/// The bytes of an optional header value.
pub open spec fn header_bytes(header: Option<&[u8]>) -> Option<Seq<u8>> {
    match header {
        Some(bytes) => Some(bytes@),
        None => None,
    }
}

/// The credential of a request, or the denial that its header earns: 401
/// where the header is absent, 400 where its value is not UTF-8. A present
/// value is taken whole, an empty one too.
pub open spec fn credential_of(header: Option<Seq<u8>>) -> Result<Seq<char>, Denial> {
    match header {
        None => Err(Denial { status: 401, code: ErrorCode::AuthError }),
        Some(bytes) => if valid_utf8(bytes) {
            Ok(decode_utf8(bytes))
        } else {
            Err(Denial { status: 400, code: ErrorCode::BadClientId })
        },
    }
}

/// The decision that a reply of the sidecar earns: 200 lets the request
/// continue, any other status is passed on, and no reply at all is a 503.
pub open spec fn decision_for(reply: SidecarReply) -> Decision {
    match reply {
        SidecarReply::Status(status) => if status == 200 {
            Decision::Continue
        } else {
            Decision::Deny(Denial { status, code: ErrorCode::UnauthorizedRequest })
        },
        SidecarReply::Unreachable => Decision::Deny(
            Denial { status: 503, code: ErrorCode::ServiceError },
        ),
    }
}

/// The whole checkpoint: the decision for a request with this header when
/// the sidecar, if it is called, replies with `reply`.
pub open spec fn checkpoint(header: Option<Seq<u8>>, reply: SidecarReply) -> Decision {
    match credential_of(header) {
        Ok(_) => decision_for(reply),
        Err(denial) => Decision::Deny(denial),
    }
}

/// The first step: reads the value of the `Authorization` header, `None`
/// where the request has no such header.
pub fn begin(header: Option<&[u8]>) -> (step: Step)
    ensures
        match credential_of(header_bytes(header)) {
            Ok(credential) => step matches Step::CallSidecar(call) && call@ == credential,
            Err(denial) => step == Step::Respond(denial),
        },
{
    match header {
        None => Step::Respond(Denial::missing_header()),
        Some(bytes) => match utf8_text(bytes) {
            Some(text) => {
                proof {
                    encode_utf8_decode_utf8(text@);
                }
                Step::CallSidecar(PendingCall { credential: text.to_owned() })
            },
            None => Step::Respond(Denial::not_text()),
        },
    }
}

impl PendingCall {
    /// The credential to post to the sidecar, as the value of
    /// [`TOKEN_FIELD`].
    pub fn credential(&self) -> (s: &str)
        ensures
            s@ == self@,
    {
        self.credential.as_str()
    }

    /// The second step: the decision, given the sidecar's reply.
    pub fn conclude(self, reply: SidecarReply) -> (decision: Decision)
        ensures
            decision == decision_for(reply),
            decision matches Decision::Deny(denial) ==> denial.wf(),
    {
        match reply {
            SidecarReply::Status(status) => if status == 200 {
                Decision::Continue
            } else {
                Decision::Deny(Denial::refused(status))
            },
            SidecarReply::Unreachable => Decision::Deny(Denial::unreachable()),
        }
    }
}

/// A request without an `Authorization` header is denied with 401 and
/// `AUTH_ERROR`, whatever the sidecar would have said, and goes no further.
pub proof fn missing_header_is_denied(reply: SidecarReply)
    ensures
        checkpoint(None, reply) == Decision::Deny(
            Denial { status: 401, code: ErrorCode::AuthError },
        ),
        !checkpoint(None, reply).forwards(),
{
}

/// A request whose header is text continues when the sidecar answers 200.
pub proof fn ok_reply_continues(header: Seq<u8>)
    requires
        valid_utf8(header),
    ensures
        checkpoint(Some(header), SidecarReply::Status(200)) == Decision::Continue,
        checkpoint(Some(header), SidecarReply::Status(200)).forwards(),
{
}

/// Any other status of the sidecar reaches the client unchanged, as an
/// `UNAUTHORIZED_REQUEST`, and the request goes no further.
pub proof fn other_status_is_passed_on(header: Seq<u8>, status: u16)
    requires
        valid_utf8(header),
        status != 200,
    ensures
        checkpoint(Some(header), SidecarReply::Status(status)) == Decision::Deny(
            Denial { status, code: ErrorCode::UnauthorizedRequest },
        ),
        !checkpoint(Some(header), SidecarReply::Status(status)).forwards(),
{
}

/// The checkpoint fails closed: a request continues only if its header is
/// present and is text and the sidecar answered 200. Every other request is
/// denied with a well-formed denial.
pub proof fn continues_only_after_full_check(header: Option<Seq<u8>>, reply: SidecarReply)
    ensures
        checkpoint(header, reply).forwards() <==> (header matches Some(bytes) && valid_utf8(bytes)
            && reply == SidecarReply::Status(200)),
        checkpoint(header, reply) matches Decision::Deny(denial) ==> denial.wf(),
{
}

} // verus!
