use vstd::prelude::*;

use crate::configuration::AuthSettings;
use crate::login;
use crate::session::spec_validate;

verus! {

/// Outcome classes of the protected-resource path.
#[derive(Debug, Clone, Copy, PartialEq, Eq, Structural)]
pub enum SecretError {
    /// No valid session credential was presented.
    AuthError,
    /// Reserved for a credential that is valid but unauthorized.
    Forbidden,
}

impl SecretError {
    /// The response class each error maps to.
    pub open spec fn spec_status_code(&self) -> u16 {
        match self {
            SecretError::AuthError => 401,
            SecretError::Forbidden => 403,
        }
    }

    /// 401 for a missing or invalid credential, 403 for a valid but
    /// unauthorized one.
    pub fn status_code(&self) -> (r: u16)
        ensures
            r == self.spec_status_code(),
    {
        match self {
            SecretError::AuthError => 401,
            SecretError::Forbidden => 403,
        }
    }
}

/// Relies on std's String::push_str: appends exactly the given text.
#[verifier::external_body]
fn push_str(s: &mut String, suffix: &str)
    ensures
        final(s)@ == old(s)@ + suffix@,
{
    s.push_str(suffix);
}

/// The protected resource: validates the presented session cookie and, for a
/// live session, serves the body naming the session's identity. An absent,
/// invalid or expired credential is one and the same authentication error.
pub fn secret(auth: &AuthSettings, cookie: Option<&str>, now: u64) -> (r: Result<
    String,
    SecretError,
>)
    ensures
        match r {
            Ok(body) => (cookie matches Some(t) && spec_validate(auth.secret@, t@, now) matches Some(
                (exp, email),
            ) && body@ == email + " got secret"@),
            Err(SecretError::AuthError) => cookie is None || (cookie matches Some(t)
                && spec_validate(auth.secret@, t@, now) is None),
            Err(SecretError::Forbidden) => false,
        },
{
    let claims = match login::check_login(auth, cookie, now) {
        Ok(claims) => claims,
        Err(_) => {
            return Err(SecretError::AuthError);
        },
    };
    let mut body = claims.id.email.clone();
    push_str(&mut body, " got secret");
    Ok(body)
}

} // verus!
