use study_google_auth::session::{issue, validate, SESSION_TTL_SECONDS};

const SECRET: &[u8] = b"first-party-signing-secret";

#[test]
fn session_round_trip() {
    let t0: u64 = 1000;
    let token = issue(SECRET, "admin@example.com", t0);
    let claims = validate(SECRET, &token, t0).expect("fresh session must validate");
    assert_eq!(claims.id.email, "admin@example.com");
    assert_eq!(claims.exp, t0 + SESSION_TTL_SECONDS);
}

#[test]
fn issue_is_deterministic() {
    // The token text is a function of the secret, the expiry and the email
    // alone: two mints with the same arguments agree to the letter.
    let a = issue(SECRET, "admin@example.com", 1000);
    let b = issue(SECRET, "admin@example.com", 1000);
    assert_eq!(a, b);
}

#[test]
fn session_still_valid_at_expiry_instant() {
    let t0: u64 = 1000;
    let token = issue(SECRET, "admin@example.com", t0);
    assert!(validate(SECRET, &token, t0 + SESSION_TTL_SECONDS).is_some());
}

#[test]
fn session_expired_past_ttl() {
    let t0: u64 = 1000;
    let token = issue(SECRET, "admin@example.com", t0);
    assert!(validate(SECRET, &token, t0 + SESSION_TTL_SECONDS + 1).is_none());
}

#[test]
fn session_rejects_other_secret() {
    let token = issue(SECRET, "admin@example.com", 1000);
    assert!(validate(b"some-other-secret", &token, 1000).is_none());
}

#[test]
fn session_rejects_garbage() {
    assert!(validate(SECRET, "not-a-token", 0).is_none());
    assert!(validate(SECRET, "", 0).is_none());
    assert!(validate(SECRET, "a.b.c", 0).is_none());
}

#[test]
fn tampered_signature_always_fails() {
    let t0: u64 = 1000;
    let token = issue(SECRET, "admin@example.com", t0);
    let sig_start = token.rfind('.').expect("token has a signature segment") + 1;
    assert!(sig_start < token.len());

    for i in sig_start..token.len() {
        for bit in 0..8u8 {
            let mut bytes = token.as_bytes().to_vec();
            bytes[i] ^= 1 << bit;
            let Ok(mutated) = String::from_utf8(bytes) else {
                // A flip that leaves no well-formed text cannot even be
                // presented as a token.
                continue;
            };
            assert!(
                validate(SECRET, &mutated, t0).is_none(),
                "bit {} of signature byte {} flipped and still validated",
                bit,
                i
            );
        }
    }
}
