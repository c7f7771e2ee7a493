use vstd::prelude::*;

verus! {

/// Where the application listens.
pub struct ApplicationSettings {
    pub port: u16,
    pub host: String,
}

/// The allow-list: the set of email addresses permitted to reach the
/// protected resource. Loaded once at startup, immutable afterwards.
pub struct AdminEmails(pub Vec<String>);

impl AdminEmails {
    /// Membership in the allow-list.
    pub open spec fn spec_contains(&self, email: Seq<char>) -> bool {
        exists|i: int| 0 <= i < self.0@.len() && (#[trigger] self.0@[i])@ == email
    }

    pub fn contains(&self, x: &str) -> (r: bool)
        ensures
            r == self.spec_contains(x@),
    {
        let target = x.to_owned();
        let mut i: usize = 0;
        while i < self.0.len()
            invariant
                i <= self.0@.len(),
                target@ == x@,
                forall|j: int| 0 <= j < i ==> (#[trigger] self.0@[j])@ != x@,
            decreases self.0@.len() - i,
        {
            if self.0[i] == target {
                return true;
            }
            i = i + 1;
        }
        false
    }
}

/// First-party authentication settings: the allow-list and the secret that
/// signs and verifies session tokens. One shared symmetric secret serves for
/// both directions; its bytes are held here.
pub struct AuthSettings {
    pub admin_google_emails: AdminEmails,
    pub secret: Vec<u8>,
}

/// Process-wide settings.
pub struct Settings {
    pub application: ApplicationSettings,
    pub auth: AuthSettings,
}

} // verus!
