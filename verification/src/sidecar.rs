//! The sidecar's side of the checkpoint.
//!
//! A request to the sidecar carries a form, and the answer is a status and
//! nothing else: 401 where the form has no token, 403 where the token is not
//! accepted, 429 where its subject has used up its quota, and 200 otherwise.
//! The quota is touched only for a token that was accepted, and once for
//! each such request.

use crate::limiter::{check_subject, new_limiter, quota_per_minute, SubjectLimiter};
use crate::token::{Claims, ClaimsView, VerifyError, Verifier, judgement_view};
use vstd::prelude::*;

verus! {

/// The largest request body, in bytes, that the sidecar reads.
pub const BODY_LIMIT: u64 = 32 * 1024;

/// The port the sidecar listens on.
pub const PORT: u16 = 8080;

/// What the sidecar says to a `GET`.
pub const HELP: &'static str = "Post form-data to / with token=J.W.T\n";

/// The sidecar's answer to a request.
#[derive(Clone, Copy, Debug, PartialEq, Eq, Structural)]
pub enum Verdict {
    /// The token was accepted and its subject is within its quota.
    Allowed,
    /// The form has no token.
    MissingToken,
    /// The token was not accepted.
    Forbidden,
    /// The subject has used up its quota.
    TooManyRequests,
}

impl Verdict {
    /// The HTTP status that carries the verdict.
    pub open spec fn status_code(self) -> u16 {
        match self {
            Verdict::Allowed => 200,
            Verdict::MissingToken => 401,
            Verdict::Forbidden => 403,
            Verdict::TooManyRequests => 429,
        }
    }

    /// The status to answer with.
    pub fn status(&self) -> (code: u16)
        ensures
            code == self.status_code(),
    {
        match self {
            Verdict::Allowed => 200,
            Verdict::MissingToken => 401,
            Verdict::Forbidden => 403,
            Verdict::TooManyRequests => 429,
        }
    }
}

/// Where a request stands once its token has been looked at.
pub enum Screening {
    /// The request is answered at once, and no quota is touched.
    Reject(Verdict),
    /// The token was accepted: the quota of its subject decides.
    Consult(Claims),
}

/// A screening as mathematical values: the verdict, or the subject whose
/// quota is to be asked.
pub ghost enum Plan {
    Reject(Verdict),
    Consult(Seq<char>),
}

impl View for Screening {
    type V = Plan;

    open spec fn view(&self) -> Plan {
        match self {
            Screening::Reject(verdict) => Plan::Reject(*verdict),
            Screening::Consult(claims) => Plan::Consult(claims.sub@),
        }
    }
}

/// The plan for a request, given the judgement on its token, `None` where
/// the form has no token.
pub open spec fn plan(judged: Option<Result<ClaimsView, VerifyError>>) -> Plan {
    match judged {
        None => Plan::Reject(Verdict::MissingToken),
        Some(Err(_)) => Plan::Reject(Verdict::Forbidden),
        Some(Ok(claims)) => Plan::Consult(claims.sub),
    }
}

/// The verdict that a plan comes to, `admitted` being the answer of the
/// subject's quota where it is asked.
pub open spec fn verdict(plan: Plan, admitted: bool) -> Verdict {
    match plan {
        Plan::Reject(verdict) => verdict,
        Plan::Consult(_) => if admitted {
            Verdict::Allowed
        } else {
            Verdict::TooManyRequests
        },
    }
}

/// The view of an optional judgement.
pub open spec fn judged_view(judged: Option<Result<Claims, VerifyError>>) -> Option<
    Result<ClaimsView, VerifyError>,
> {
    match judged {
        Some(r) => Some(judgement_view(r)),
        None => None,
    }
}

/// Screens a request whose token has been judged; see [`plan`].
pub fn screen_judged(judged: Option<Result<Claims, VerifyError>>) -> (screening: Screening)
    ensures
        screening@ == plan(judged_view(judged)),
{
    match judged {
        None => Screening::Reject(Verdict::MissingToken),
        Some(Err(_)) => Screening::Reject(Verdict::Forbidden),
        Some(Ok(claims)) => Screening::Consult(claims),
    }
}

/// The verdict on a request whose subject's quota was asked; see
/// [`verdict`].
pub fn settle(admitted: bool) -> (v: Verdict)
    ensures
        v == (if admitted {
            Verdict::Allowed
        } else {
            Verdict::TooManyRequests
        }),
{
    if admitted {
        Verdict::Allowed
    } else {
        Verdict::TooManyRequests
    }
}

/// Why a sidecar could not be set up.
#[derive(Clone, Copy, Debug, PartialEq, Eq, Structural)]
pub enum SidecarError {
    /// A quota of no requests at all was asked for.
    ZeroQuota,
}

/// A sidecar: the verifier of tokens and the quotas of their subjects.
pub struct Sidecar {
    tokens: Verifier,
    limiter: SubjectLimiter,
}

impl Sidecar {
    /// The verifier that tokens are checked with.
    pub closed spec fn token_verifier(&self) -> Verifier {
        self.tokens
    }

    /// The number of requests that a subject is allowed per minute.
    pub closed spec fn quota(&self) -> u32 {
        quota_per_minute(self.limiter)
    }

    /// Sets up a sidecar that checks tokens against `key` and `audience` and
    /// allows each subject `per_minute` requests a minute.
    pub fn new(key: Vec<u8>, audience: String, per_minute: u32) -> (r: Result<
        Sidecar,
        SidecarError,
    >)
        ensures
            per_minute == 0 ==> r == Err::<Sidecar, SidecarError>(SidecarError::ZeroQuota),
            per_minute > 0 ==> (r matches Ok(sidecar) && sidecar.token_verifier().key() == key@
                && sidecar.token_verifier().audience() == audience@ && sidecar.quota()
                == per_minute),
    {
        if per_minute == 0 {
            Err(SidecarError::ZeroQuota)
        } else {
            Ok(Sidecar { tokens: Verifier::new(key, audience), limiter: new_limiter(per_minute) })
        }
    }

    /// The judgement on the token of a request at the time `now`, `None`
    /// where the form has no token.
    pub open spec fn judged(&self, token: Option<&str>, now: u64) -> Option<
        Result<ClaimsView, VerifyError>,
    > {
        match token {
            Some(token) => Some(self.token_verifier().judgement(token@, now)),
            None => None,
        }
    }

    /// Looks at the token of a request, without touching any quota. `token`
    /// is the form's `token` field, `now` the time in seconds since the
    /// epoch.
    pub fn screen(&self, token: Option<&str>, now: u64) -> (screening: Screening)
        ensures
            screening@ == plan(self.judged(token, now)),
    {
        match token {
            Some(token) => screen_judged(Some(self.tokens.verify(token, now))),
            None => screen_judged(None),
        }
    }

    /// Answers a request. Where the token is accepted, the quota of its
    /// subject is asked once, and the verdict is `Allowed` or
    /// `TooManyRequests` as the quota says.
    pub fn handle(&self, token: Option<&str>, now: u64) -> (v: Verdict)
        ensures
            v == verdict(plan(self.judged(token, now)), true) || v == verdict(
                plan(self.judged(token, now)),
                false,
            ),
    {
        match self.screen(token, now) {
            Screening::Reject(verdict) => verdict,
            Screening::Consult(claims) => settle(check_subject(&self.limiter, &claims.sub)),
        }
    }
}

/// A request is allowed only if its form has a token, the token is accepted
/// and the quota admits it: whatever else happens, the request is refused.
/// The quota that is asked about an allowed request is that of the token's
/// subject.
pub proof fn allowed_only_when_verified_and_admitted(
    judged: Option<Result<ClaimsView, VerifyError>>,
    admitted: bool,
)
    ensures
        verdict(plan(judged), admitted) == Verdict::Allowed <==> (judged matches Some(Ok(_))
            && admitted),
        verdict(plan(judged), admitted) == Verdict::Allowed ==> (judged matches Some(Ok(claims))
            && plan(judged) == Plan::Consult(claims.sub)),
{
}

/// The status tells the faults apart: 401 says that the token is missing,
/// 403 that it was not accepted, 429 that the quota is used up.
pub proof fn status_tells_the_fault(
    judged: Option<Result<ClaimsView, VerifyError>>,
    admitted: bool,
)
    ensures
        verdict(plan(judged), admitted).status_code() == 401 <==> judged is None,
        verdict(plan(judged), admitted).status_code() == 403 <==> judged matches Some(Err(_)),
        verdict(plan(judged), admitted).status_code() == 429 <==> (judged matches Some(Ok(_))
            && !admitted),
        verdict(plan(judged), admitted).status_code() == 200 <==> (judged matches Some(Ok(_))
            && admitted),
{
}

/// Nothing is remembered between requests: of two requests whose tokens
/// are accepted for one subject, each is sent to that subject's quota.
pub proof fn every_accepted_request_asks_the_quota(
    first: Result<ClaimsView, VerifyError>,
    second: Result<ClaimsView, VerifyError>,
)
    requires
        first matches Ok(a) && second matches Ok(b) && a.sub == b.sub,
    ensures
        plan(Some(first)) == Plan::Consult(first->Ok_0.sub),
        plan(Some(second)) == plan(Some(first)),
{
}

} // verus!
