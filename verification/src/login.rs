use vstd::prelude::*;

use crate::claim::Claims;
use crate::configuration::AuthSettings;
use crate::google;
use crate::google::JWK;
use crate::google::spec_decode;
use crate::session;
use crate::session::SESSION_TTL_SECONDS;
use crate::session::session_token;
use crate::session::spec_validate;

verus! {

/// Name of the cookie the session credential travels in.
pub const COOKIE_KEY: &'static str = "login_token";

/// The form field the login endpoint reads the third-party token from.
pub struct LoginRequest {
    pub credential: String,
}

/// Outcome classes of the login path.
#[derive(Debug, Clone, Copy, PartialEq, Eq, Structural)]
pub enum LoginError {
    /// Third-party verification failed: authentication failure.
    AuthError,
    /// The identity verified but is not on the allow-list: access forbidden.
    Forbidden,
    /// Infrastructure trouble, not a caller mistake.
    InternalError,
}

impl LoginError {
    /// The response class each error maps to.
    pub open spec fn spec_status_code(&self) -> u16 {
        match self {
            LoginError::AuthError => 401,
            LoginError::Forbidden => 403,
            LoginError::InternalError => 500,
        }
    }

    /// 401 for failed authentication, 403 for a verified identity that is not
    /// allow-listed, 500 for internal trouble.
    pub fn status_code(&self) -> (r: u16)
        ensures
            r == self.spec_status_code(),
    {
        match self {
            LoginError::AuthError => 401,
            LoginError::Forbidden => 403,
            LoginError::InternalError => 500,
        }
    }
}

/// The login path of the authorization gate: verify the third-party token
/// against the fetched key set, check the verified email against the
/// allow-list, and mint the session credential bound to that email. The
/// error says which gate refused: failed verification is an authentication
/// error, a verified but unlisted identity is forbidden.
pub fn login_endpoint(auth: &AuthSettings, keys: &Vec<JWK>, credential: &str, now: u64) -> (r:
    Result<String, LoginError>)
    requires
        now + SESSION_TTL_SECONDS <= u64::MAX,
    ensures
        match r {
            Ok(token) => (spec_decode(keys@, credential@, now) matches Ok(email)
                && auth.admin_google_emails.spec_contains(email) && token@ == session_token(
                auth.secret@,
                (now + SESSION_TTL_SECONDS) as u64,
                email,
            ) && spec_validate(auth.secret@, token@, now) == Some(
                ((now + SESSION_TTL_SECONDS) as u64, email),
            )),
            Err(LoginError::AuthError) => spec_decode(keys@, credential@, now) is Err,
            Err(LoginError::Forbidden) => (spec_decode(keys@, credential@, now) matches Ok(email)
                && !auth.admin_google_emails.spec_contains(email)),
            Err(LoginError::InternalError) => false,
        },
{
    let id = match google::decode(keys, credential, now) {
        Ok(id) => id,
        Err(_) => {
            return Err(LoginError::AuthError);
        },
    };
    if !auth.admin_google_emails.contains(id.email.as_str()) {
        return Err(LoginError::Forbidden);
    }
    Ok(session::issue(auth.secret.as_slice(), id.email.as_str(), now))
}

/// The protected path's gate: an absent cookie, a tampered or malformed
/// token and an expired session all yield the same authentication error;
/// the session's claims come back iff the presented credential validates.
pub fn check_login(auth: &AuthSettings, cookie: Option<&str>, now: u64) -> (r: Result<
    Claims,
    LoginError,
>)
    ensures
        match r {
            Ok(c) => (cookie matches Some(t) && spec_validate(auth.secret@, t@, now) == Some(
                (c.exp, c.id.email@),
            )),
            Err(LoginError::AuthError) => cookie is None || (cookie matches Some(t)
                && spec_validate(auth.secret@, t@, now) is None),
            _ => false,
        },
{
    let token = match cookie {
        Some(t) => t,
        None => {
            return Err(LoginError::AuthError);
        },
    };
    match session::validate(auth.secret.as_slice(), token, now) {
        Some(c) => Ok(c),
        None => Err(LoginError::AuthError),
    }
}

} // verus!
