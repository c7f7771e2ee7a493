use vstd::prelude::*;

use crate::google::GoogleId;

verus! {

/// First-party session claims: an absolute expiry (unix seconds) and the
/// identity the session is bound to. A value of this type is only meaningful
/// when it came out of a successful session validation.
#[derive(Debug, PartialEq, Eq)]
pub struct Claims {
    pub exp: u64,
    pub id: GoogleId,
}

} // verus!
