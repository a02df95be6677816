//! The two halves together: what becomes of a request when the gateway's
//! checkpoint asks this crate's sidecar.

use crate::decision::{Decision, Denial, ErrorCode};
use crate::interceptor::{checkpoint, credential_of, SidecarReply};
use crate::sidecar::{plan, verdict, Verdict};
use crate::token::Verifier;
use vstd::prelude::*;
use vstd::utf8::*;

verus! {

/// The reply that carries a verdict of the sidecar to the gateway.
pub open spec fn reply_of(v: Verdict) -> SidecarReply {
    SidecarReply::Status(v.status_code())
}

/// The decision on a request with this header, when the sidecar checks
/// tokens with `tokens` at the time `now` and the quota of the token's
/// subject, if it is asked, answers `admitted`. The credential travels as
/// the form's token, so the sidecar never finds the token missing.
pub open spec fn end_to_end(
    header: Option<Seq<u8>>,
    tokens: Verifier,
    now: u64,
    admitted: bool,
) -> Decision {
    match credential_of(header) {
        Ok(credential) => checkpoint(
            header,
            reply_of(verdict(plan(Some(tokens.judgement(credential, now))), admitted)),
        ),
        Err(denial) => Decision::Deny(denial),
    }
}

/// The gateway lets a request continue exactly when the sidecar allowed it,
/// and otherwise passes the sidecar's status on.
pub proof fn gateway_follows_the_sidecar(header: Seq<u8>, v: Verdict)
    requires
        valid_utf8(header),
    ensures
        checkpoint(Some(header), reply_of(v)).forwards() <==> v == Verdict::Allowed,
        v != Verdict::Allowed ==> checkpoint(Some(header), reply_of(v)) == Decision::Deny(
            Denial { status: v.status_code(), code: ErrorCode::UnauthorizedRequest },
        ),
{
}

/// A request reaches the service behind the gateway only if its header is
/// present and is text, the header's value is a token that the sidecar
/// accepts, and the quota of the token's subject admits the request.
pub proof fn forwarded_requests_carry_an_accepted_token(
    header: Option<Seq<u8>>,
    tokens: Verifier,
    now: u64,
    admitted: bool,
)
    ensures
        end_to_end(header, tokens, now, admitted).forwards() <==> (header matches Some(bytes)
            && valid_utf8(bytes) && tokens.judgement(decode_utf8(bytes), now) is Ok && admitted),
{
}

/// Every request that does not continue is denied with one of four
/// statuses, and the status tells why.
pub proof fn denied_requests_say_why(
    header: Option<Seq<u8>>,
    tokens: Verifier,
    now: u64,
    admitted: bool,
)
    ensures
        match end_to_end(header, tokens, now, admitted) {
            Decision::Continue => true,
            Decision::Deny(denial) => {
                &&& denial.wf()
                &&& denial.status == 401 <==> header is None
                &&& denial.status == 400 <==> (header matches Some(bytes) && !valid_utf8(bytes))
                &&& denial.status == 403 <==> (header matches Some(bytes) && valid_utf8(bytes)
                    && tokens.judgement(decode_utf8(bytes), now) is Err)
                &&& denial.status == 429 <==> (header matches Some(bytes) && valid_utf8(bytes)
                    && tokens.judgement(decode_utf8(bytes), now) is Ok && !admitted)
                &&& denial.status == 401 || denial.status == 400 || denial.status == 403
                    || denial.status == 429
            },
        },
{
}

} // verus!
