//! Verification of a credential as a signed token.
//!
//! A token is a JWT signed with HMAC-SHA-256. The signature and the shape of
//! the token are checked by the `jwt` crate; which claims a token must carry,
//! and with what values, is decided here.

use hmac::Hmac;
use hmac::Mac;
use jwt::RegisteredClaims;
use jwt::VerifyWithKey;
use sha2::Sha256;
use vstd::prelude::*;

verus! {

/// The claims of an accepted token.
pub struct Claims {
    /// The audience the token was issued for.
    pub aud: String,
    /// The subject: whom the token speaks for.
    pub sub: String,
    /// The expiry, in seconds since the epoch.
    pub exp: u64,
}

/// The claims of a token as mathematical values.
pub ghost struct ClaimsView {
    pub aud: Seq<char>,
    pub sub: Seq<char>,
    pub exp: u64,
}

impl View for Claims {
    type V = ClaimsView;

    open spec fn view(&self) -> ClaimsView {
        ClaimsView { aud: self.aud@, sub: self.sub@, exp: self.exp }
    }
}

/// The three claims that matter here as they were found in a token whose
/// signature is good. Each may be missing.
pub struct DecodedClaims {
    pub aud: Option<String>,
    pub sub: Option<String>,
    pub exp: Option<u64>,
}

/// What a decoded token holds: the audience, the subject and the expiry.
pub type Decoded = (Option<Seq<char>>, Option<Seq<char>>, Option<u64>);

/// The text of an optional string.
pub open spec fn text_of(s: Option<String>) -> Option<Seq<char>> {
    match s {
        Some(s) => Some(s@),
        None => None,
    }
}

impl View for DecodedClaims {
    type V = Decoded;

    open spec fn view(&self) -> Decoded {
        (text_of(self.aud), text_of(self.sub), self.exp)
    }
}

/// The view of an optional decoding.
pub open spec fn decoded_view(decoded: Option<DecodedClaims>) -> Option<Decoded> {
    match decoded {
        Some(claims) => Some(claims@),
        None => None,
    }
}

/// What the `jwt` crate finds in `token` under `key`: the registered claims
/// `aud`, `sub` and `exp` of a JWT whose shape and HMAC-SHA-256 signature it
/// accepts, and `None` for a token that it refuses.
pub uninterp spec fn signed_claims(token: Seq<char>, key: Seq<u8>) -> Option<
    (Option<Seq<char>>, Option<Seq<char>>, Option<u64>),
>;

/// Checks `token` against `key` with `jwt::VerifyWithKey::verify_with_key`,
/// the key being made by `hmac::Mac::new_from_slice`, and hands out the
/// registered claims `aud`, `sub` and `exp` of a token that passed. The
/// contract only names the outcome: it is the same for the same token and
/// key.
#[verifier::external_body]
fn decode_signed(token: &str, key: &[u8]) -> (decoded: Option<DecodedClaims>)
    ensures
        decoded_view(decoded) == signed_claims(token@, key@),
{
    let mac: Hmac<Sha256> = Hmac::new_from_slice(key).ok()?;
    let claims: RegisteredClaims = token.verify_with_key(&mac).ok()?;
    Some(DecodedClaims { aud: claims.audience, sub: claims.subject, exp: claims.expiration })
}

/// Why a token was not accepted.
#[derive(Clone, Copy, Debug, PartialEq, Eq, Structural)]
pub enum VerifyError {
    /// The token is malformed or its signature is not good.
    BadToken,
    /// One of `aud`, `sub` and `exp` is missing.
    MissingClaim,
    /// The token was issued for another audience.
    WrongAudience,
    /// The token has expired.
    Expired,
}

/// The judgement on a decoded token at the time `now`, for a verifier that
/// serves `audience`. A token is accepted when it carries all three claims,
/// names this audience and expires after `now`. The first fault found, in
/// that order, is the error.
pub open spec fn judge(decoded: Option<Decoded>, audience: Seq<char>, now: u64) -> Result<
    ClaimsView,
    VerifyError,
> {
    match decoded {
        None => Err(VerifyError::BadToken),
        Some((Some(aud), Some(sub), Some(exp))) => if aud != audience {
            Err(VerifyError::WrongAudience)
        } else if exp <= now {
            Err(VerifyError::Expired)
        } else {
            Ok(ClaimsView { aud, sub, exp })
        },
        Some(_) => Err(VerifyError::MissingClaim),
    }
}

/// The view of a judgement.
pub open spec fn judgement_view(r: Result<Claims, VerifyError>) -> Result<ClaimsView, VerifyError> {
    match r {
        Ok(claims) => Ok(claims@),
        Err(e) => Err(e),
    }
}

/// Judges the claims of a decoded token; see [`judge`].
pub fn check_claims(decoded: Option<DecodedClaims>, audience: &String, now: u64) -> (r: Result<
    Claims,
    VerifyError,
>)
    ensures
        judgement_view(r) == judge(decoded_view(decoded), audience@, now),
{
    match decoded {
        None => Err(VerifyError::BadToken),
        Some(DecodedClaims { aud: Some(aud), sub: Some(sub), exp: Some(exp) }) => {
            if aud != *audience {
                Err(VerifyError::WrongAudience)
            } else if exp <= now {
                Err(VerifyError::Expired)
            } else {
                Ok(Claims { aud, sub, exp })
            }
        },
        Some(_) => Err(VerifyError::MissingClaim),
    }
}

/// The key and the audience that tokens are verified against.
pub struct Verifier {
    key: Vec<u8>,
    audience: String,
}

impl Verifier {
    /// The bytes of the signing key.
    pub closed spec fn key(&self) -> Seq<u8> {
        self.key@
    }

    /// The audience that accepted tokens name.
    pub closed spec fn audience(&self) -> Seq<char> {
        self.audience@
    }

    /// A verifier for tokens signed with `key` and issued for `audience`.
    pub fn new(key: Vec<u8>, audience: String) -> (v: Verifier)
        ensures
            v.key() == key@,
            v.audience() == audience@,
    {
        Verifier { key, audience }
    }

    /// The judgement on `token` at the time `now`.
    pub open spec fn judgement(&self, token: Seq<char>, now: u64) -> Result<
        ClaimsView,
        VerifyError,
    > {
        judge(signed_claims(token, self.key()), self.audience(), now)
    }

    /// Verifies `token` at the time `now`, in seconds since the epoch.
    pub fn verify(&self, token: &str, now: u64) -> (r: Result<Claims, VerifyError>)
        ensures
            judgement_view(r) == self.judgement(token@, now),
    {
        check_claims(decode_signed(token, self.key.as_slice()), &self.audience, now)
    }
}

} // verus!
