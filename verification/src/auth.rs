//! Dual-mode bearer-token verification.
//!
//! A token arrives in an `Authorization` header and is validated against one
//! of two trust anchors, selected once at startup: a shared HMAC secret, or
//! a remotely hosted key set addressed by the `kid` of the token's header.
//! Fetching the key set is outside work; callers run
//! [`JwtConfig::verify_start`], perform the fetch a returned
//! [`VerifyStep::NeedKeySet`] asks for, and hand the result to
//! [`verify_finish`]. Every failure keeps its specific reason in
//! [`AuthError`]; collapsing them to one uniform unauthenticated response is
//! the caller's duty at the boundary.

use vstd::prelude::*;
use vstd::string::StrSliceExecFns;
use vstd::string::StringExecFns;
use vstd::string::StringSliceAdditionalSpecFns;

use crate::strutil::find_sub;
use crate::strutil::matches_at;
use crate::strutil::opt_view;
use crate::strutil::spec_find;
use crate::strutil::spec_trim_trailing;
use crate::strutil::starts_with;
use crate::strutil::str_eq;
use crate::strutil::trim_ends;
use crate::strutil::trim_of;
use crate::strutil::trim_trailing_slashes;

verus! {

/// View of an optional borrowed string as an optional character sequence.
pub open spec fn opt_ref_view(o: Option<&str>) -> Option<Seq<char>> {
    match o {
        Some(s) => Some(s@),
        None => None,
    }
}

/// The verified output of token verification.
#[derive(Debug, Clone, PartialEq, Eq)]
pub struct Identity {
    /// The subject claim, parsed as a UUID and held as its 128-bit value.
    pub user_id: u128,
    /// The email claim, when the token carries one.
    pub email: Option<String>,
}

/// Mathematical view of an [`Identity`].
pub ghost struct IdentityView {
    pub user_id: u128,
    pub email: Option<Seq<char>>,
}

impl View for Identity {
    type V = IdentityView;

    open spec fn view(&self) -> IdentityView {
        IdentityView { user_id: self.user_id, email: opt_view(self.email) }
    }
}

/// Why a token was rejected. Kept distinguishable for diagnostics and tests;
/// the boundary answers every one of these with the same unauthenticated
/// response.
#[derive(Debug, Clone, Copy, PartialEq, Eq, Structural)]
pub enum AuthError {
    /// The header is absent or does not begin with the `"Bearer "` scheme.
    MissingOrMalformedHeader,
    /// The token's header part could not be decoded.
    MalformedToken,
    /// The token failed signature verification or could not be decoded.
    BadSignature,
    /// The expiry claim is absent from validation or not in the future.
    Expired,
    /// The issuer claim does not equal the configured issuer.
    WrongIssuer,
    /// An audience is configured and the token's normalized audience
    /// differs.
    WrongAudience,
    /// Remote-key-set mode: the token's header carries no key id.
    MissingKeyId,
    /// Remote-key-set mode: the key set could not be fetched or parsed.
    KeyFetchFailed,
    /// Remote-key-set mode: no key in the fetched set matches the token's
    /// key id.
    UnknownKeyId,
    /// Remote-key-set mode: the matching key could not be turned into a
    /// verification key.
    UnusableKey,
    /// The subject claim does not parse as a UUID.
    SubjectNotUuid,
}

/// An audience claim as a token carries it: a single string, or a list of
/// strings.
pub enum AudienceClaim {
    One(String),
    Many(Vec<String>),
}

/// Mathematical view of an [`AudienceClaim`].
pub ghost enum AudienceClaimView {
    One(Seq<char>),
    Many(Seq<Seq<char>>),
}

impl View for AudienceClaim {
    type V = AudienceClaimView;

    open spec fn view(&self) -> AudienceClaimView {
        match self {
            AudienceClaim::One(s) => AudienceClaimView::One(s@),
            AudienceClaim::Many(l) => AudienceClaimView::Many(l.deep_view()),
        }
    }
}

/// View of an optional audience claim.
pub open spec fn opt_aud_view(o: Option<AudienceClaim>) -> Option<AudienceClaimView> {
    match o {
        Some(a) => Some(a@),
        None => None,
    }
}

/// The audience an audience claim denotes: a single string stands for
/// itself, a list for its first element, and an empty list for no audience
/// at all.
pub open spec fn spec_normalized_audience(a: Option<AudienceClaimView>) -> Option<Seq<char>> {
    match a {
        None => None,
        Some(AudienceClaimView::One(s)) => Some(s),
        Some(AudienceClaimView::Many(l)) => if l.len() == 0 {
            None
        } else {
            Some(l[0])
        },
    }
}

/// Normalize an audience claim to the one audience string that counts.
pub fn normalized_audience(a: &Option<AudienceClaim>) -> (r: Option<&String>)
    ensures
        match r {
            Some(s) => spec_normalized_audience(opt_aud_view(*a)) == Some(s@),
            None => spec_normalized_audience(opt_aud_view(*a)) is None,
        },
{
    match a {
        None => None,
        Some(AudienceClaim::One(s)) => Some(s),
        Some(AudienceClaim::Many(l)) => {
            if l.len() == 0 {
                None
            } else {
                proof {
                    assert(l.deep_view()[0] == l@[0]@);
                }
                Some(&l[0])
            }
        },
    }
}

/// The claims this service consumes, as plain values. Transient: exists only
/// for the duration of one verification.
pub struct Claims {
    /// Subject; expected to be a UUID in textual form.
    pub sub: String,
    /// Expiry, in seconds of UTC unix time.
    pub exp: i64,
    /// Optional email.
    pub email: Option<String>,
    /// Optional audience, as the token carries it.
    pub aud: Option<AudienceClaim>,
    /// Optional issuer.
    pub iss: Option<String>,
}

/// Mathematical view of [`Claims`].
pub ghost struct ClaimsView {
    pub sub: Seq<char>,
    pub exp: int,
    pub email: Option<Seq<char>>,
    pub aud: Option<AudienceClaimView>,
    pub iss: Option<Seq<char>>,
}

impl View for Claims {
    type V = ClaimsView;

    open spec fn view(&self) -> ClaimsView {
        ClaimsView {
            sub: self.sub@,
            exp: self.exp as int,
            email: opt_view(self.email),
            aud: opt_aud_view(self.aud),
            iss: opt_view(self.iss),
        }
    }
}

// ---------------------------------------------------------------------------
// Trusted view of the jsonwebtoken and uuid crates.
// ---------------------------------------------------------------------------

#[verifier::external_type_specification]
#[verifier::external_body]
pub struct ExAlgorithm(jsonwebtoken::Algorithm);

#[verifier::external_type_specification]
#[verifier::external_body]
pub struct ExDecodingKey(jsonwebtoken::DecodingKey);

#[verifier::external_type_specification]
#[verifier::external_body]
pub struct ExJwk(jsonwebtoken::jwk::Jwk);

#[verifier::external_type_specification]
#[verifier::external_body]
pub struct ExJwkSet(jsonwebtoken::jwk::JwkSet);

#[verifier::external_type_specification]
#[verifier::external_body]
pub struct ExValue(serde_json::Value);

/// The claims that an HMAC-SHA256 verification of `token` under `secret`
/// yields: `Some` exactly when the token is a structurally valid JWT whose
/// header declares HS256, whose signature verifies under the secret, and
/// whose payload carries the registered claims in the shapes the library
/// reads. The result depends on the two arguments alone.
pub uninterp spec fn hs_claims_of(token: Seq<char>, secret: Seq<u8>) -> Option<ClaimsView>;

/// The key id of the token's unverified header: `None` when the header part
/// does not decode, else the optional `kid` field. Depends on the token
/// alone.
pub uninterp spec fn jwt_header_kid(token: Seq<char>) -> Option<Option<Seq<char>>>;

/// The key ids present in a fetched key set.
pub uninterp spec fn jwks_kids(keys: jsonwebtoken::jwk::JwkSet) -> Set<Seq<char>>;

/// The entry a key set yields for a key id: what `JwkSet::find` returns,
/// which is `Some` exactly when the id is among [`jwks_kids`]. Depends on the
/// set and the id alone.
pub uninterp spec fn jwk_found_of(
    keys: jsonwebtoken::jwk::JwkSet,
    kid: Seq<char>,
) -> Option<jsonwebtoken::jwk::Jwk>;

/// The verification key a key-set entry yields, or `None` when the entry is
/// malformed or unsupported. Depends on the entry alone.
pub uninterp spec fn key_of(jwk: jsonwebtoken::jwk::Jwk) -> Option<jsonwebtoken::DecodingKey>;

/// The claims that verifying `token` under `key` with the declared algorithm
/// yields: `Some` exactly when the signature verifies and the payload
/// carries the registered claims in the shapes the library reads. The
/// verification reads no clock; the result depends on the three arguments
/// alone.
pub uninterp spec fn key_claims_of(
    token: Seq<char>,
    key: jsonwebtoken::DecodingKey,
    alg: jsonwebtoken::Algorithm,
) -> Option<ClaimsView>;

/// The UUID a string denotes, as its 128-bit value, or `None` when the
/// string is not a textual UUID. Depends on the string alone.
pub uninterp spec fn uuid_of(s: Seq<char>) -> Option<u128>;

/// Relies on serde_json::Value accessors: reads an `aud` claim as the token
/// carries it — a single string, or a list whose entries that are not
/// strings are taken as empty.
#[verifier::external_body]
fn audience_from_value(a: &serde_json::Value) -> (r: Option<AudienceClaim>) {
    match a.as_str() {
        Some(s) => Some(AudienceClaim::One(s.to_string())),
        None => a.as_array().map(
            |l| AudienceClaim::Many(
                l.iter().map(|x| x.as_str().unwrap_or("").to_string()).collect(),
            ),
        ),
    }
}

/// Relies on serde_json::Value accessors: moves the registered claims out of
/// a decoded payload, requiring `sub` (a string) and `exp` (an integer); the
/// audience is handed out as the token carries it, normalization being the
/// library's own work.
#[verifier::external_body]
fn claims_from_payload(v: serde_json::Value) -> (r: Option<Claims>) {
    let sub = v.get("sub")?.as_str()?.to_string();
    let exp = v.get("exp")?.as_i64()?;
    let email = v.get("email").and_then(|x| x.as_str()).map(String::from);
    let iss = v.get("iss").and_then(|x| x.as_str()).map(String::from);
    let aud = v.get("aud").and_then(audience_from_value);
    Some(Claims { sub, exp, email, aud, iss })
}

/// Relies on jsonwebtoken::decode with the HS256 algorithm: succeeds exactly
/// when the signature verifies under `secret` and the payload carries the
/// claims the library reads; expiry, issuer and audience are not judged
/// here.
#[verifier::external_body]
fn decode_hs256(token: &str, secret: &[u8]) -> (r: Option<Claims>)
    ensures
        match r {
            Some(c) => hs_claims_of(token@, secret@) == Some(c@),
            None => hs_claims_of(token@, secret@) is None,
        },
{
    let mut validation = jsonwebtoken::Validation::new(jsonwebtoken::Algorithm::HS256);
    validation.validate_exp = false;
    validation.validate_aud = false;
    let key = jsonwebtoken::DecodingKey::from_secret(secret);
    let data = match jsonwebtoken::decode::<serde_json::Value>(token, &key, &validation) {
        Ok(d) => d,
        Err(_) => return None,
    };
    claims_from_payload(data.claims)
}

/// Relies on jsonwebtoken::decode: verifies the token's signature with `key`
/// under the algorithm the token's own header declares, and yields the
/// payload's claims; expiry, issuer and audience are not judged here.
#[verifier::external_body]
fn decode_with_key(
    token: &str,
    key: &jsonwebtoken::DecodingKey,
    alg: jsonwebtoken::Algorithm,
) -> (r: Option<Claims>)
    ensures
        match r {
            Some(c) => key_claims_of(token@, *key, alg) == Some(c@),
            None => key_claims_of(token@, *key, alg) is None,
        },
{
    let mut validation = jsonwebtoken::Validation::new(alg);
    validation.validate_exp = false;
    validation.validate_aud = false;
    let data = match jsonwebtoken::decode::<serde_json::Value>(token, key, &validation) {
        Ok(d) => d,
        Err(_) => return None,
    };
    claims_from_payload(data.claims)
}

/// Relies on jsonwebtoken::decode_header: decodes the unverified header part
/// of the token, yielding the declared algorithm and the optional key id.
#[verifier::external_body]
fn decode_token_header(token: &str) -> (r: Option<(jsonwebtoken::Algorithm, Option<String>)>)
    ensures
        match r {
            Some(p) => jwt_header_kid(token@) == Some(opt_view(p.1)),
            None => jwt_header_kid(token@) is None,
        },
{
    match jsonwebtoken::decode_header(token) {
        Ok(h) => Some((h.alg, h.kid)),
        Err(_) => None,
    }
}

/// Relies on jsonwebtoken::jwk::JwkSet::find: yields the entry of the set
/// the key id names, and finds one exactly when some key carries that id.
#[verifier::external_body]
fn jwks_find<'a>(keys: &'a jsonwebtoken::jwk::JwkSet, kid: &str) -> (r: Option<
    &'a jsonwebtoken::jwk::Jwk,
>)
    ensures
        r is Some <==> jwks_kids(*keys).contains(kid@),
        match r {
            Some(jwk) => jwk_found_of(*keys, kid@) == Some(*jwk),
            None => jwk_found_of(*keys, kid@) is None,
        },
{
    keys.find(kid)
}

/// Relies on jsonwebtoken::DecodingKey::from_jwk: builds a verification key
/// from one key-set entry, failing on malformed or unsupported entries.
#[verifier::external_body]
fn key_from_jwk(jwk: &jsonwebtoken::jwk::Jwk) -> (r: Option<jsonwebtoken::DecodingKey>)
    ensures
        r == key_of(*jwk),
{
    jsonwebtoken::DecodingKey::from_jwk(jwk).ok()
}

/// Relies on uuid::Uuid::parse_str: parses the textual forms of a UUID,
/// yielding its 128-bit value.
#[verifier::external_body]
fn parse_uuid(s: &str) -> (r: Option<u128>)
    ensures
        r == uuid_of(s@),
{
    match uuid::Uuid::parse_str(s) {
        Ok(u) => Some(u.as_u128()),
        Err(_) => None,
    }
}

// ---------------------------------------------------------------------------
// Claim validation, shared by both trust-anchor modes.
// ---------------------------------------------------------------------------

/// What claim validation returns: expiry must be in the future, the issuer
/// and audience must match whenever one is required, and the subject must be
/// a UUID, judged in that order.
pub open spec fn spec_validate_claims(
    c: ClaimsView,
    required_issuer: Option<Seq<char>>,
    required_audience: Option<Seq<char>>,
    now: int,
) -> Result<IdentityView, AuthError> {
    if c.exp <= now {
        Err(AuthError::Expired)
    } else if required_issuer matches Some(i) && c.iss != Some(i) {
        Err(AuthError::WrongIssuer)
    } else if required_audience matches Some(a) && spec_normalized_audience(c.aud) != Some(a) {
        Err(AuthError::WrongAudience)
    } else {
        match uuid_of(c.sub) {
            None => Err(AuthError::SubjectNotUuid),
            Some(u) => Ok(IdentityView { user_id: u, email: c.email }),
        }
    }
}

/// An executable result agrees with a specified one: same constructor, and
/// the identity or error agrees by view.
pub open spec fn res_agrees(r: Result<Identity, AuthError>, s: Result<IdentityView, AuthError>) -> bool {
    match (r, s) {
        (Ok(id), Ok(iv)) => id@ == iv,
        (Err(e1), Err(e2)) => e1 == e2,
        _ => false,
    }
}

/// What remote-key-set verification returns for a bare token once the key
/// set is at hand: the key id must name an entry of the set, that entry must
/// yield a verification key, the signature must verify under it with the
/// algorithm the token's own header declares, and the claims then pass
/// validation with the issuer required.
pub open spec fn spec_verify_remote(
    token: Seq<char>,
    alg: jsonwebtoken::Algorithm,
    kid: Seq<char>,
    keys: jsonwebtoken::jwk::JwkSet,
    issuer: Seq<char>,
    audience: Option<Seq<char>>,
    now: int,
) -> Result<IdentityView, AuthError> {
    match jwk_found_of(keys, kid) {
        None => Err(AuthError::UnknownKeyId),
        Some(jwk) => match key_of(jwk) {
            None => Err(AuthError::UnusableKey),
            Some(key) => match key_claims_of(token, key, alg) {
                None => Err(AuthError::BadSignature),
                Some(c) => spec_validate_claims(c, Some(issuer), audience, now),
            },
        },
    }
}

fn clone_opt_string(o: &Option<String>) -> (r: Option<String>)
    ensures
        r == *o,
{
    match o {
        Some(s) => Some(s.clone()),
        None => None,
    }
}

/// Validate the claims a signature check yielded: the expiry must be after
/// `now`, the issuer and audience must match whenever one is required, and
/// the subject must parse as a UUID, which becomes the identity.
pub fn validate_claims(
    claims: &Claims,
    required_issuer: Option<&str>,
    required_audience: &Option<String>,
    now: i64,
) -> (r: Result<Identity, AuthError>)
    ensures
        res_agrees(
            r,
            spec_validate_claims(
                claims@,
                opt_ref_view(required_issuer),
                opt_view(*required_audience),
                now as int,
            ),
        ),
{
    if claims.exp <= now {
        return Err(AuthError::Expired);
    }
    if let Some(iss) = required_issuer {
        match &claims.iss {
            Some(ci) => {
                if !str_eq(ci.as_str(), iss) {
                    return Err(AuthError::WrongIssuer);
                }
            },
            None => {
                return Err(AuthError::WrongIssuer);
            },
        }
    }
    if let Some(aud) = required_audience {
        match normalized_audience(&claims.aud) {
            Some(ca) => {
                if !str_eq(ca.as_str(), aud.as_str()) {
                    return Err(AuthError::WrongAudience);
                }
            },
            None => {
                return Err(AuthError::WrongAudience);
            },
        }
    }
    match parse_uuid(claims.sub.as_str()) {
        None => Err(AuthError::SubjectNotUuid),
        Some(u) => Ok(Identity { user_id: u, email: clone_opt_string(&claims.email) }),
    }
}

// ---------------------------------------------------------------------------
// The two verification modes.
// ---------------------------------------------------------------------------

/// What legacy-mode verification returns for a bare token: the claims the
/// HMAC check yields, passed through claim validation; no issuer is
/// required in this mode.
pub open spec fn spec_verify_legacy(
    token: Seq<char>,
    secret: Seq<u8>,
    audience: Option<Seq<char>>,
    now: int,
) -> Result<IdentityView, AuthError> {
    match hs_claims_of(token, secret) {
        None => Err(AuthError::BadSignature),
        Some(c) => spec_validate_claims(c, None, audience, now),
    }
}

/// Law: a token the shared secret accepts, whose expiry lies after `now`,
/// whose audience satisfies the configuration, and whose subject is a UUID,
/// verifies to exactly the identity carrying that UUID and the token's
/// email.
pub proof fn lemma_valid_token_yields_subject_identity(
    token: Seq<char>,
    secret: Seq<u8>,
    audience: Option<Seq<char>>,
    now: int,
    c: ClaimsView,
    u: u128,
)
    requires
        hs_claims_of(token, secret) == Some(c),
        c.exp > now,
        audience is Some ==> spec_normalized_audience(c.aud) == audience,
        uuid_of(c.sub) == Some(u),
    ensures
        spec_verify_legacy(token, secret, audience, now) == Ok::<IdentityView, AuthError>(
            IdentityView { user_id: u, email: c.email },
        ),
{
}

/// Law: a token the shared secret accepts — the signature is valid — whose
/// other claims pass but whose subject is no UUID is rejected with
/// [`AuthError::SubjectNotUuid`].
pub proof fn lemma_non_uuid_subject_rejected(
    token: Seq<char>,
    secret: Seq<u8>,
    audience: Option<Seq<char>>,
    now: int,
    c: ClaimsView,
)
    requires
        hs_claims_of(token, secret) == Some(c),
        c.exp > now,
        audience is Some ==> spec_normalized_audience(c.aud) == audience,
        uuid_of(c.sub) is None,
    ensures
        spec_verify_legacy(token, secret, audience, now) == Err::<IdentityView, AuthError>(
            AuthError::SubjectNotUuid,
        ),
{
}

/// Verify a bare token against the shared HMAC secret and validate its
/// claims.
pub fn verify_legacy_token(
    token: &str,
    secret: &[u8],
    audience: &Option<String>,
    now: i64,
) -> (r: Result<Identity, AuthError>)
    ensures
        res_agrees(r, spec_verify_legacy(token@, secret@, opt_view(*audience), now as int)),
{
    match decode_hs256(token, secret) {
        None => Err(AuthError::BadSignature),
        Some(c) => validate_claims(&c, None, audience, now),
    }
}

/// Verify a bare token against a fetched key set: the key id must name a
/// key of the set, the signature must verify under that key with the
/// algorithm of the token's own header, and the claims must pass validation
/// with the configured issuer required.
pub fn verify_remote_token(
    token: &str,
    alg: jsonwebtoken::Algorithm,
    kid: &str,
    keys: &jsonwebtoken::jwk::JwkSet,
    issuer: &str,
    audience: &Option<String>,
    now: i64,
) -> (r: Result<Identity, AuthError>)
    ensures
        res_agrees(
            r,
            spec_verify_remote(token@, alg, kid@, *keys, issuer@, opt_view(*audience), now as int),
        ),
        (r == Err::<Identity, AuthError>(AuthError::UnknownKeyId)) <==> !jwks_kids(
            *keys,
        ).contains(kid@),
{
    match jwks_find(keys, kid) {
        None => Err(AuthError::UnknownKeyId),
        Some(jwk) => match key_from_jwk(jwk) {
            None => Err(AuthError::UnusableKey),
            Some(key) => match decode_with_key(token, &key, alg) {
                None => Err(AuthError::BadSignature),
                Some(claims) => validate_claims(&claims, Some(issuer), audience, now),
            },
        },
    }
}

/// Law: a remote-mode token that is validly signed — the key set yields an
/// entry for its key id, the entry yields a verification key, and the
/// signature verifies under it — and unexpired, but whose issuer claim
/// differs from the configured issuer, is rejected.
pub proof fn lemma_remote_mismatched_issuer_rejected(
    token: Seq<char>,
    alg: jsonwebtoken::Algorithm,
    kid: Seq<char>,
    keys: jsonwebtoken::jwk::JwkSet,
    issuer: Seq<char>,
    audience: Option<Seq<char>>,
    now: int,
    jwk: jsonwebtoken::jwk::Jwk,
    key: jsonwebtoken::DecodingKey,
    c: ClaimsView,
)
    requires
        jwk_found_of(keys, kid) == Some(jwk),
        key_of(jwk) == Some(key),
        key_claims_of(token, key, alg) == Some(c),
        c.exp > now,
        c.iss != Some(issuer),
    ensures
        spec_verify_remote(token, alg, kid, keys, issuer, audience, now) == Err::<
            IdentityView,
            AuthError,
        >(AuthError::WrongIssuer),
{
}

/// Law: a remote-mode token that is validly signed under the key its key id
/// names, unexpired, issuer- and audience-conforming, and whose subject is a
/// UUID, verifies to exactly the identity carrying that UUID and the token's
/// email.
pub proof fn lemma_valid_remote_token_yields_subject_identity(
    token: Seq<char>,
    alg: jsonwebtoken::Algorithm,
    kid: Seq<char>,
    keys: jsonwebtoken::jwk::JwkSet,
    issuer: Seq<char>,
    audience: Option<Seq<char>>,
    now: int,
    jwk: jsonwebtoken::jwk::Jwk,
    key: jsonwebtoken::DecodingKey,
    c: ClaimsView,
    u: u128,
)
    requires
        jwk_found_of(keys, kid) == Some(jwk),
        key_of(jwk) == Some(key),
        key_claims_of(token, key, alg) == Some(c),
        c.exp > now,
        c.iss == Some(issuer),
        audience is Some ==> spec_normalized_audience(c.aud) == audience,
        uuid_of(c.sub) == Some(u),
    ensures
        spec_verify_remote(token, alg, kid, keys, issuer, audience, now) == Ok::<
            IdentityView,
            AuthError,
        >(IdentityView { user_id: u, email: c.email }),
{
}

// ---------------------------------------------------------------------------
// Header handling and the two-step entry points.
// ---------------------------------------------------------------------------

/// The bare token of an `Authorization` header value: present exactly when
/// the header exists and begins with the `"Bearer "` scheme, and then the
/// remainder trimmed of surrounding whitespace.
pub open spec fn spec_bearer_token(header: Option<Seq<char>>) -> Option<Seq<char>> {
    match header {
        None => None,
        Some(h) => if h.len() >= 7 && h.subrange(0, 7) == "Bearer "@ {
            Some(trim_of(h.skip(7)))
        } else {
            None
        },
    }
}

/// Take the bare token out of an `Authorization` header value; any header
/// that does not carry the `"Bearer "` scheme is rejected without any
/// decoding.
pub fn extract_bearer_token(header: Option<&str>) -> (r: Result<String, AuthError>)
    ensures
        match spec_bearer_token(opt_ref_view(header)) {
            Some(t) => r matches Ok(s) && s@ == t,
            None => r matches Err(e) && e == AuthError::MissingOrMalformedHeader,
        },
{
    match header {
        None => Err(AuthError::MissingOrMalformedHeader),
        Some(h) => {
            proof {
                reveal_strlit("Bearer ");
            }
            if starts_with(h, "Bearer ") {
                let len = h.unicode_len();
                let rest = h.substring_char(7, len);
                let trimmed = trim_ends(rest);
                proof {
                    assert(rest@ =~= h@.skip(7));
                }
                Ok(trimmed.to_owned())
            } else {
                Err(AuthError::MissingOrMalformedHeader)
            }
        },
    }
}

/// The trust anchor: key material and validation parameters, constructed
/// once at startup and shared read-only by every verification.
pub enum JwtConfig {
    /// A shared HMAC secret, with an optional required audience.
    LegacySecret { secret: Vec<u8>, audience: Option<String> },
    /// A remotely hosted key set, with the required issuer and an optional
    /// required audience.
    Jwks { jwks_url: String, issuer: String, audience: Option<String> },
}

/// Everything remote-mode verification needs once the key set arrives.
pub struct PendingRemote {
    /// Where the key set lives; the caller fetches this URL.
    pub jwks_url: String,
    /// The bare token.
    pub token: String,
    /// The algorithm the token's header declares.
    pub alg: jsonwebtoken::Algorithm,
    /// The key id the token's header names.
    pub kid: String,
    /// The issuer the configuration requires.
    pub issuer: String,
    /// The audience the configuration requires, if any.
    pub audience: Option<String>,
}

/// Either a finished verification, or the request to fetch the key set and
/// resume with [`verify_finish`].
pub enum VerifyStep {
    /// Verification finished without outside work.
    Done(Result<Identity, AuthError>),
    /// The key set at `jwks_url` is needed; every verification re-fetches
    /// it.
    NeedKeySet(PendingRemote),
}

/// What `verify_start` must return.
pub open spec fn spec_start_result(
    header: Option<Seq<char>>,
    config: JwtConfig,
    now: int,
    s: VerifyStep,
) -> bool {
    match spec_bearer_token(header) {
        None => s matches VerifyStep::Done(r) && r == Err::<Identity, AuthError>(
            AuthError::MissingOrMalformedHeader,
        ),
        Some(t) => match config {
            JwtConfig::LegacySecret { secret, audience } => s matches VerifyStep::Done(r)
                && res_agrees(r, spec_verify_legacy(t, secret@, opt_view(audience), now)),
            JwtConfig::Jwks { jwks_url, issuer, audience } => match jwt_header_kid(t) {
                None => s matches VerifyStep::Done(r) && r == Err::<Identity, AuthError>(
                    AuthError::MalformedToken,
                ),
                Some(None) => s matches VerifyStep::Done(r) && r == Err::<Identity, AuthError>(
                    AuthError::MissingKeyId,
                ),
                Some(Some(k)) => s matches VerifyStep::NeedKeySet(p) && p.jwks_url@ == jwks_url@
                    && p.token@ == t && p.kid@ == k && p.issuer@ == issuer@ && opt_view(p.audience)
                    == opt_view(audience),
            },
        },
    }
}

impl JwtConfig {
    /// Build the trust anchor from configuration values: a non-empty legacy
    /// secret wins; otherwise a non-empty service URL, or one derived from
    /// the database URL, names the key-set endpoint and issuer by their
    /// well-known suffixes.
    pub fn from_env(
        jwt_secret: Option<&str>,
        audience: Option<String>,
        database_url: Option<&str>,
        supabase_url: Option<&str>,
    ) -> (r: Result<JwtConfig, String>)
        ensures
            match jwt_secret {
                Some(s) => if s@.len() > 0 {
                    r matches Ok(c) && (c matches JwtConfig::LegacySecret { secret, audience: a }
                        && secret@ == s.spec_bytes() && a == audience)
                } else {
                    spec_jwks_config_result(
                        opt_ref_view(supabase_url),
                        opt_ref_view(database_url),
                        audience,
                        r,
                    )
                },
                None => spec_jwks_config_result(
                    opt_ref_view(supabase_url),
                    opt_ref_view(database_url),
                    audience,
                    r,
                ),
            },
    {
        if let Some(s) = jwt_secret {
            if !s.is_empty() {
                return Ok(JwtConfig::LegacySecret { secret: s.as_bytes_vec(), audience });
            }
        }
        let mut base: Option<String> = None;
        match supabase_url {
            Some(u) => {
                if !u.is_empty() {
                    base = Some(u.to_owned());
                }
            },
            None => {},
        }
        if base.is_none() {
            match database_url {
                Some(d) => {
                    base = supabase_url_from_database_url(d);
                },
                None => {},
            }
        }
        match base {
            Some(u) => {
                let trimmed = trim_trailing_slashes(u.as_str());
                let mut jwks_url = trimmed.clone();
                jwks_url.append("/auth/v1/.well-known/jwks.json");
                let mut issuer = trimmed;
                issuer.append("/auth/v1");
                Ok(JwtConfig::Jwks { jwks_url, issuer, audience })
            },
            None => Err(
                String::from_str(
                    "Set SUPABASE_JWT_SECRET (legacy), or SUPABASE_URL, or a Supabase DATABASE_URL for JWT signing keys",
                ),
            ),
        }
    }

    /// Begin one verification at time `now` (seconds of UTC unix time).
    /// Legacy mode finishes at once; remote-key-set mode either fails on the
    /// token's header or asks the caller to fetch the key set.
    pub fn verify_start(&self, header: Option<&str>, now: i64) -> (s: VerifyStep)
        ensures
            spec_start_result(opt_ref_view(header), *self, now as int, s),
            (spec_bearer_token(opt_ref_view(header)) is None) <==> (s matches VerifyStep::Done(r)
                && r == Err::<Identity, AuthError>(AuthError::MissingOrMalformedHeader)),
    {
        let token = match extract_bearer_token(header) {
            Err(e) => {
                return VerifyStep::Done(Err(e));
            },
            Ok(t) => t,
        };
        match self {
            JwtConfig::LegacySecret { secret, audience } => VerifyStep::Done(
                verify_legacy_token(token.as_str(), secret.as_slice(), audience, now),
            ),
            JwtConfig::Jwks { jwks_url, issuer, audience } => {
                match decode_token_header(token.as_str()) {
                    None => VerifyStep::Done(Err(AuthError::MalformedToken)),
                    Some((alg, kid_opt)) => match kid_opt {
                        None => VerifyStep::Done(Err(AuthError::MissingKeyId)),
                        Some(kid) => VerifyStep::NeedKeySet(
                            PendingRemote {
                                jwks_url: jwks_url.clone(),
                                token,
                                alg,
                                kid,
                                issuer: issuer.clone(),
                                audience: clone_opt_string(audience),
                            },
                        ),
                    },
                }
            },
        }
    }
}

/// Finish a remote-key-set verification with the fetched key set, or record
/// that the fetch failed.
pub fn verify_finish(
    pending: PendingRemote,
    keys: Option<&jsonwebtoken::jwk::JwkSet>,
    now: i64,
) -> (r: Result<Identity, AuthError>)
    ensures
        keys is None ==> r == Err::<Identity, AuthError>(AuthError::KeyFetchFailed),
        keys matches Some(ks) ==> res_agrees(
            r,
            spec_verify_remote(
                pending.token@,
                pending.alg,
                pending.kid@,
                *ks,
                pending.issuer@,
                opt_view(pending.audience),
                now as int,
            ),
        ),
        keys matches Some(ks) ==> ((r == Err::<Identity, AuthError>(AuthError::UnknownKeyId))
            <==> !jwks_kids(*ks).contains(pending.kid@)),
{
    let PendingRemote { jwks_url: _, token, alg, kid, issuer, audience } = pending;
    match keys {
        None => Err(AuthError::KeyFetchFailed),
        Some(ks) => verify_remote_token(
            token.as_str(),
            alg,
            kid.as_str(),
            ks,
            issuer.as_str(),
            &audience,
            now,
        ),
    }
}

// ---------------------------------------------------------------------------
// Deriving the key-set endpoint and issuer from configuration.
// ---------------------------------------------------------------------------

/// The service URL a database URL implies: the project reference between
/// `"@db."` and `".supabase.co"`, when both occur and the reference is
/// non-empty, placed under `https://`.
pub open spec fn spec_supabase_url(db: Seq<char>) -> Option<Seq<char>> {
    match spec_find(db, "@db."@) {
        None => None,
        Some(i) => {
            let rest = db.subrange(i + 4, db.len() as int);
            match spec_find(rest, ".supabase.co"@) {
                None => None,
                Some(j) => if j == 0 {
                    None
                } else {
                    Some("https://"@ + rest.subrange(0, j) + ".supabase.co"@)
                },
            }
        },
    }
}

/// What building a remote-key-set configuration must return: the derived
/// endpoint and issuer when a base URL is available, else the error that
/// names the missing configuration.
pub open spec fn spec_jwks_config_result(
    supabase_url: Option<Seq<char>>,
    database_url: Option<Seq<char>>,
    audience: Option<String>,
    r: Result<JwtConfig, String>,
) -> bool {
    match spec_base_url(supabase_url, database_url) {
        Some(u) => r matches Ok(c) && (c matches JwtConfig::Jwks { jwks_url, issuer, audience: a }
            && jwks_url@ == spec_trim_trailing(u, '/') + "/auth/v1/.well-known/jwks.json"@
            && issuer@ == spec_trim_trailing(u, '/') + "/auth/v1"@ && a == audience),
        None => r matches Err(m) && m@
            == "Set SUPABASE_JWT_SECRET (legacy), or SUPABASE_URL, or a Supabase DATABASE_URL for JWT signing keys"@,
    }
}

/// The base service URL configuration implies: a non-empty explicit service
/// URL wins; otherwise the database URL is consulted.
pub open spec fn spec_base_url(
    supabase_url: Option<Seq<char>>,
    database_url: Option<Seq<char>>,
) -> Option<Seq<char>> {
    if supabase_url matches Some(u) && u.len() > 0 {
        supabase_url
    } else {
        match database_url {
            Some(d) => spec_supabase_url(d),
            None => None,
        }
    }
}

/// Derive the service URL from a database URL of the hosted service
/// (`postgresql://...@db.PROJECT_REF.supabase.co:5432/postgres` becomes
/// `https://PROJECT_REF.supabase.co`).
pub fn supabase_url_from_database_url(database_url: &str) -> (r: Option<String>)
    ensures
        match spec_supabase_url(database_url@) {
            Some(u) => r matches Some(s) && s@ == u,
            None => r is None,
        },
{
    proof {
        reveal_strlit("@db.");
        reveal_strlit(".supabase.co");
        reveal_strlit("https://");
    }
    let at = match find_sub(database_url, "@db.") {
        None => {
            return None;
        },
        Some(i) => i,
    };
    let len = database_url.unicode_len();
    let rest = database_url.substring_char(at + 4, len);
    let end = match find_sub(rest, ".supabase.co") {
        None => {
            return None;
        },
        Some(j) => j,
    };
    if end == 0 {
        return None;
    }
    let project_ref = rest.substring_char(0, end);
    let mut url = String::from_str("https://");
    url.append(project_ref);
    url.append(".supabase.co");
    proof {
        assert(url@ =~= "https://"@ + rest@.subrange(0, end as int) + ".supabase.co"@);
    }
    Some(url)
}

} // verus!


