use vstd::prelude::*;

use crate::claim::Claims;
use crate::google::GoogleId;

verus! {

/// Number of seconds a freshly minted session stays valid.
pub const SESSION_TTL_SECONDS: u64 = 60;

/// The token text that HS256 signing produces for this secret, expiry and
/// email. Writing it out would take the whole JWS construction, so it is left
/// a name; `session_claims` below ties it to what validation reads back.
pub uninterp spec fn session_token(secret: Seq<u8>, exp: u64, email: Seq<char>) -> Seq<char>;

/// What opening a token with this secret yields: the embedded expiry and
/// email if the text is a well-formed token carrying this secret's HS256
/// signature, `None` otherwise. A function of the secret and the token text
/// alone; the expiry is not compared to any clock here.
pub uninterp spec fn session_claims(secret: Seq<u8>, token: Seq<char>) -> Option<(u64, Seq<char>)>;

/// The session validation outcome as a function of the secret, the token
/// text and the clock: the embedded claims iff the token opens under this
/// secret and its expiry has not passed.
pub open spec fn spec_validate(secret: Seq<u8>, token: Seq<char>, now: u64) -> Option<(
    u64,
    Seq<char>,
)> {
    match session_claims(secret, token) {
        Some((exp, email)) => if now <= exp {
            Some((exp, email))
        } else {
            None
        },
        None => None,
    }
}

/// Relies on jsonwebtoken::encode with the default (HS256) header and a
/// secret key: its source cannot err for that pairing (a string-keyed map
/// always serializes and HMAC signing is infallible), and jsonwebtoken::decode
/// under the same secret reads back exactly the claims that were put in. The
/// claims are handed over in a serde_json::Map, which serializes its keys in
/// sorted order, so the token text is a function of the secret, the expiry
/// and the email alone and the `session_token` name is deterministic.
#[verifier::external_body]
fn hs256_sign(secret: &[u8], exp: u64, email: &str) -> (r: String)
    ensures
        r@ == session_token(secret@, exp, email@),
        session_claims(secret@, r@) == Some((exp, email@)),
{
    let mut claims = serde_json::Map::new();
    claims.insert("exp".to_string(), serde_json::Value::from(exp));
    claims.insert("email".to_string(), serde_json::Value::from(email));
    let key = jsonwebtoken::EncodingKey::from_secret(secret);
    jsonwebtoken::encode(&jsonwebtoken::Header::default(), &claims, &key).unwrap()
}

/// Relies on jsonwebtoken::decode with an HS256 secret key and expiry
/// validation switched off: the outcome is then a function of the secret and
/// the token text alone (the caller compares the expiry to its own clock),
/// and any malformed, differently-signed or claim-deficient token comes back
/// as an error rather than a panic. jsonwebtoken consults the system clock
/// even with expiry validation off and would panic on a clock that reads
/// before the Unix epoch; that is a property of the environment, not of any
/// input.
#[verifier::external_body]
fn hs256_open(secret: &[u8], token: &str) -> (r: Option<(u64, String)>)
    ensures
        match r {
            Some((exp, email)) => session_claims(secret@, token@) == Some((exp, email@)),
            None => session_claims(secret@, token@) is None,
        },
{
    let mut validation = jsonwebtoken::Validation::default();
    validation.validate_exp = false;
    let key = jsonwebtoken::DecodingKey::from_secret(secret);
    let data = jsonwebtoken::decode::<std::collections::HashMap<String, serde_json::Value>>(
        token, &key, &validation,
    ).ok()?;
    let exp = data.claims.get("exp")?.as_u64()?;
    let email = data.claims.get("email")?.as_str()?.to_string();
    Some((exp, email))
}

/// Mints a first-party session token: expiry = now + the fixed TTL, identity
/// embedded, signed with the first-party secret. Always succeeds.
///
/// The last two clauses are the session laws: a fresh token validates back to
/// the same identity at every instant up to its expiry (round trip), and
/// fails validation at every instant past it (expiry).
pub fn issue(secret: &[u8], email: &str, now: u64) -> (r: String)
    requires
        now + SESSION_TTL_SECONDS <= u64::MAX,
    ensures
        r@ == session_token(secret@, (now + SESSION_TTL_SECONDS) as u64, email@),
        forall|t: u64|
            t <= now + SESSION_TTL_SECONDS ==> spec_validate(secret@, r@, t) == Some(
                ((now + SESSION_TTL_SECONDS) as u64, email@),
            ),
        forall|t: u64| t > now + SESSION_TTL_SECONDS ==> spec_validate(secret@, r@, t) is None,
{
    hs256_sign(secret, now + SESSION_TTL_SECONDS, email)
}

/// Validates a presented session token against the clock: the embedded
/// claims come back iff the token is well formed, carries this secret's
/// signature, and is not yet expired. Expired, tampered and malformed tokens
/// are indistinguishable in the result, on purpose.
pub fn validate(secret: &[u8], token: &str, now: u64) -> (r: Option<Claims>)
    ensures
        match r {
            Some(c) => spec_validate(secret@, token@, now) == Some((c.exp, c.id.email@)),
            None => spec_validate(secret@, token@, now) is None,
        },
{
    match hs256_open(secret, token) {
        Some((exp, email)) => {
            if now <= exp {
                Some(Claims { exp, id: GoogleId { email } })
            } else {
                None
            }
        },
        None => None,
    }
}

} // verus!
