use std::str::FromStr;

use vstd::prelude::*;

use crate::cache::Cache;

verus! {

/// The identity attributes this system trusts out of a verified third-party
/// token: the account's email address.
#[derive(Debug, PartialEq, Eq)]
pub struct GoogleId {
    pub email: String,
}

/// One public key out of the issuer's published key set.
#[derive(Debug, PartialEq, Eq)]
pub struct JWK {
    pub kid: String,
    pub n: String,
    pub e: String,
    pub alg: String,
    pub kty: String,
}

impl Clone for JWK {
    fn clone(&self) -> (r: Self)
        ensures
            r == *self,
    {
        JWK {
            kid: self.kid.clone(),
            n: self.n.clone(),
            e: self.e.clone(),
            alg: self.alg.clone(),
            kty: self.kty.clone(),
        }
    }
}

/// The single signature algorithm this system accepts on issuer keys. Keys
/// naming any other algorithm are rejected even when their key id matches:
/// that is a downgrade-attack defense.
pub open spec fn pinned_algorithm() -> Seq<char> {
    "RS256"@
}

/// Why resolving a key out of the key set failed.
#[derive(Debug, Clone, Copy, PartialEq, Eq, Structural)]
pub enum KeyError {
    /// No entry in the key set carries the requested key id.
    NotFound,
    /// The first entry carrying the requested key id names an algorithm other
    /// than the pinned one.
    UnexpectedAlgorithm,
}

/// The first entry of the key set whose key id matches, if any: the linear
/// scan's outcome.
pub open spec fn first_key_match(keys: Seq<JWK>, kid: Seq<char>) -> Option<JWK>
    decreases keys.len(),
{
    if keys.len() == 0 {
        None
    } else if keys[0].kid@ == kid {
        Some(keys[0])
    } else {
        first_key_match(keys.drop_first(), kid)
    }
}

/// Resolves the signing key for a key id out of a fetched key set: the first
/// entry whose key id matches, required to name the pinned algorithm. No
/// fallback key is ever substituted.
pub fn get_key(keys: &Vec<JWK>, kid: &str) -> (r: Result<JWK, KeyError>)
    ensures
        match r {
            Ok(k) => first_key_match(keys@, kid@) == Some(k) && k.alg@ == pinned_algorithm(),
            Err(KeyError::NotFound) => first_key_match(keys@, kid@) is None,
            Err(KeyError::UnexpectedAlgorithm) => (first_key_match(keys@, kid@) matches Some(k)
                && k.alg@ != pinned_algorithm()),
        },
{
    let kid_owned = kid.to_owned();
    let rs256 = "RS256".to_owned();
    let mut i: usize = 0;
    assert(keys@.skip(0) =~= keys@);
    while i < keys.len()
        invariant
            i <= keys.len(),
            kid_owned@ == kid@,
            rs256@ == pinned_algorithm(),
            first_key_match(keys@, kid@) == first_key_match(keys@.skip(i as int), kid@),
        decreases keys.len() - i,
    {
        let x = &keys[i];
        assert(keys@.skip(i as int)[0] == keys@[i as int]);
        if x.kid == kid_owned {
            if x.alg == rs256 {
                return Ok(x.clone());
            } else {
                return Err(KeyError::UnexpectedAlgorithm);
            }
        }
        assert(keys@.skip(i as int).drop_first() =~= keys@.skip(i as int + 1));
        i = i + 1;
    }
    assert(keys@.skip(keys@.len() as int) =~= Seq::<JWK>::empty());
    Err(KeyError::NotFound)
}

/// The key id named in a token's unsigned header, if the header part decodes
/// and carries one. A function of the token text alone: nothing about the
/// token is verified at this stage.
pub uninterp spec fn token_kid(token: Seq<char>) -> Option<Seq<char>>;

/// Relies on jsonwebtoken::decode_header: it reads the token's unsigned
/// header without verifying anything, so the key id is a function of the
/// token text alone; a malformed header and a header without a key id both
/// come back as `None`.
#[verifier::external_body]
fn decode_kid(token: &str) -> (r: Option<String>)
    ensures
        match r {
            Some(kid) => token_kid(token@) == Some(kid@),
            None => token_kid(token@) is None,
        },
{
    match jsonwebtoken::decode_header(token) {
        Ok(header) => header.kid,
        Err(_) => None,
    }
}

/// What verifying a token against an RSA public key given as (n, e)
/// components yields, expiry aside: the token's expiry and email claims when
/// the algorithm name is a known one, the signature checks out under that
/// algorithm, and the payload carries both claims; `None` otherwise.
pub uninterp spec fn rsa_claims(n: Seq<char>, e: Seq<char>, alg: Seq<char>, token: Seq<char>) -> Option<
    (u64, Seq<char>),
>;

/// Relies on jsonwebtoken::decode with an RSA public key built by
/// DecodingKey::from_rsa_components and expiry validation switched off: the
/// outcome is then a function of the key components, the algorithm name and
/// the token text alone, and every failure (unknown algorithm name, bad key
/// material, bad signature, malformed payload, missing claims) comes back as
/// an error rather than a panic. The caller compares the expiry claim to its
/// own clock. jsonwebtoken consults the system clock even with expiry
/// validation off and would panic on a clock that reads before the Unix
/// epoch; that is a property of the environment, not of any input.
#[verifier::external_body]
fn rsa_open(n: &str, e: &str, alg: &str, token: &str) -> (r: Option<(u64, String)>)
    ensures
        match r {
            Some((exp, email)) => rsa_claims(n@, e@, alg@, token@) == Some((exp, email@)),
            None => rsa_claims(n@, e@, alg@, token@) is None,
        },
{
    let algorithm = jsonwebtoken::Algorithm::from_str(alg).ok()?;
    let mut validation = jsonwebtoken::Validation::new(algorithm);
    validation.validate_exp = false;
    let key = jsonwebtoken::DecodingKey::from_rsa_components(n, e);
    let data = jsonwebtoken::decode::<std::collections::HashMap<String, serde_json::Value>>(
        token, &key, &validation,
    ).ok()?;
    let exp = data.claims.get("exp")?.as_u64()?;
    let email = data.claims.get("email")?.as_str()?.to_string();
    Some((exp, email))
}

/// Which stage of third-party verification failed. All of these surface to a
/// caller as one authentication failure; the stages are kept apart for
/// logging, never for the response.
#[derive(Debug, Clone, Copy, PartialEq, Eq, Structural)]
pub enum GoogleDecodeError {
    /// The token's header did not decode or names no key id.
    Header,
    /// The header's key id is absent from the key set.
    KeyNotFound,
    /// The key-set entry for the header's key id names an algorithm other
    /// than the pinned one.
    UnexpectedAlgorithm,
    /// The signature or the standard claims did not verify, or the token is
    /// expired.
    Verification,
}

/// Third-party verification as a function of the key set, the token text and
/// the clock: header decode, key resolution under the pinned algorithm,
/// signature and claims verification, expiry check.
pub open spec fn spec_decode(keys: Seq<JWK>, token: Seq<char>, now: u64) -> Result<
    Seq<char>,
    GoogleDecodeError,
> {
    match token_kid(token) {
        None => Err(GoogleDecodeError::Header),
        Some(kid) => match first_key_match(keys, kid) {
            None => Err(GoogleDecodeError::KeyNotFound),
            Some(k) => if k.alg@ != pinned_algorithm() {
                Err(GoogleDecodeError::UnexpectedAlgorithm)
            } else {
                match rsa_claims(k.n@, k.e@, k.alg@, token) {
                    None => Err(GoogleDecodeError::Verification),
                    Some((exp, email)) => if now <= exp {
                        Ok(email)
                    } else {
                        Err(GoogleDecodeError::Verification)
                    },
                }
            },
        },
    }
}

/// Decodes and verifies a third-party token against the fetched key set:
/// resolves the header's key id, pins the algorithm, verifies signature and
/// claims, and rejects an expired token. No partial trust: the identity comes
/// back only when every stage passed.
pub fn decode(keys: &Vec<JWK>, token: &str, now: u64) -> (r: Result<GoogleId, GoogleDecodeError>)
    ensures
        match r {
            Ok(id) => spec_decode(keys@, token@, now) == Ok::<_, GoogleDecodeError>(id.email@),
            Err(e) => spec_decode(keys@, token@, now) == Err::<Seq<char>, _>(e),
        },
{
    let kid = match decode_kid(token) {
        Some(kid) => kid,
        None => {
            return Err(GoogleDecodeError::Header);
        },
    };
    let key = match get_key(keys, kid.as_str()) {
        Ok(key) => key,
        Err(KeyError::NotFound) => {
            return Err(GoogleDecodeError::KeyNotFound);
        },
        Err(KeyError::UnexpectedAlgorithm) => {
            return Err(GoogleDecodeError::UnexpectedAlgorithm);
        },
    };
    match rsa_open(key.n.as_str(), key.e.as_str(), key.alg.as_str(), token) {
        Some((exp, email)) => {
            if now <= exp {
                Ok(GoogleId { email })
            } else {
                Err(GoogleDecodeError::Verification)
            }
        },
        None => Err(GoogleDecodeError::Verification),
    }
}

/// Why extracting the freshness window out of a Cache-Control header value
/// failed.
#[derive(Debug, Clone, Copy, PartialEq, Eq, Structural)]
pub enum MaxAgeError {
    /// No directive of the header starts with "max-age=".
    NoMaxAge,
    /// The first "max-age=" directive's value is empty, not all digits, or
    /// does not fit in 64 bits.
    BadNumber,
}

/// Position of the first ", " directive separator at or after `from`.
pub open spec fn first_sep_from(s: Seq<u8>, from: int) -> Option<int>
    decreases s.len() - from,
{
    if from + 2 > s.len() {
        None
    } else if s[from] == 44 && s[from + 1] == 32 {
        Some(from)
    } else {
        first_sep_from(s, from + 1)
    }
}

proof fn lemma_first_sep_from_bounds(s: Seq<u8>, from: int, i: int)
    requires
        first_sep_from(s, from) == Some(i),
    ensures
        from <= i && i + 2 <= s.len(),
    decreases s.len() - from,
{
    if from + 2 > s.len() {
    } else if s[from] == 44 && s[from + 1] == 32 {
    } else {
        lemma_first_sep_from_bounds(s, from + 1, i);
    }
}

/// Where the directive that starts at `from` ends: at the next ", "
/// separator, or at the end of the text when none follows.
pub open spec fn directive_end(s: Seq<u8>, from: int) -> int {
    match first_sep_from(s, from) {
        Some(i) => i,
        None => s.len() as int,
    }
}

/// Does the directive text start with "max-age="?
pub open spec fn has_max_age_prefix(d: Seq<u8>) -> bool {
    &&& d.len() >= 8
    &&& d[0] == 109
    &&& d[1] == 97
    &&& d[2] == 120
    &&& d[3] == 45
    &&& d[4] == 97
    &&& d[5] == 103
    &&& d[6] == 101
    &&& d[7] == 61
}

/// Is every byte a decimal digit?
pub open spec fn all_digits(s: Seq<u8>) -> bool {
    forall|i: int| 0 <= i < s.len() ==> 48 <= #[trigger] s[i] <= 57
}

/// The numeric value a decimal digit string denotes.
pub open spec fn dec_value(s: Seq<u8>) -> int
    decreases s.len(),
{
    if s.len() == 0 {
        0
    } else {
        dec_value(s.drop_last()) * 10 + (s.last() - 48)
    }
}

/// What parsing a directive value as an unsigned 64-bit number yields: the
/// number iff the text is nonempty, all digits, and the value fits.
pub open spec fn spec_parse_u64(s: Seq<u8>) -> Result<u64, MaxAgeError> {
    if s.len() > 0 && all_digits(s) && dec_value(s) <= u64::MAX {
        Ok(dec_value(s) as u64)
    } else {
        Err(MaxAgeError::BadNumber)
    }
}

/// The freshness window a Cache-Control header value advertises, reading the
/// text as directives separated by ", ": the parsed value of the first
/// directive that starts with "max-age=". Directives that start before
/// `from` are already ruled out.
pub open spec fn spec_max_age_from(s: Seq<u8>, from: int) -> Result<u64, MaxAgeError>
    decreases s.len() - from via spec_max_age_from_decreases
{
    if has_max_age_prefix(s.subrange(from, directive_end(s, from))) {
        spec_parse_u64(s.subrange(from + 8, directive_end(s, from)))
    } else if first_sep_from(s, from) is Some {
        spec_max_age_from(s, directive_end(s, from) + 2)
    } else {
        Err(MaxAgeError::NoMaxAge)
    }
}

#[via_fn]
proof fn spec_max_age_from_decreases(s: Seq<u8>, from: int) {
    match first_sep_from(s, from) {
        Some(i) => lemma_first_sep_from_bounds(s, from, i),
        None => (),
    }
}

proof fn lemma_all_digits_prefix(s: Seq<u8>, i: int)
    requires
        0 <= i <= s.len(),
        all_digits(s),
    ensures
        all_digits(s.take(i)),
{
    assert forall|j: int| 0 <= j < s.take(i).len() implies 48 <= #[trigger] s.take(i)[j] <= 57 by {
        assert(s.take(i)[j] == s[j]);
    }
}

proof fn lemma_dec_value_nonneg(s: Seq<u8>)
    requires
        all_digits(s),
    ensures
        dec_value(s) >= 0,
    decreases s.len(),
{
    if s.len() > 0 {
        lemma_all_digits_prefix(s, s.len() - 1);
        assert(s.drop_last() =~= s.take(s.len() - 1));
        lemma_dec_value_nonneg(s.drop_last());
    }
}

/// Reading further digits never shrinks the value: the whole string denotes
/// at least as much as any of its prefixes.
proof fn lemma_dec_value_grows(s: Seq<u8>, i: int)
    requires
        0 <= i <= s.len(),
        all_digits(s),
    ensures
        dec_value(s.take(i)) <= dec_value(s),
    decreases s.len() - i,
{
    if i == s.len() {
        assert(s.take(i) =~= s);
    } else {
        lemma_dec_value_grows(s, i + 1);
        assert(s.take(i + 1).drop_last() =~= s.take(i));
        assert(s.take(i + 1).last() == s[i]);
        lemma_all_digits_prefix(s, i);
        lemma_dec_value_nonneg(s.take(i));
    }
}

/// Scans for the first ", " separator at or after `from`.
fn find_sep_from(s: &[u8], from: usize) -> (r: Option<usize>)
    requires
        from <= s@.len(),
    ensures
        match r {
            Some(i) => first_sep_from(s@, from as int) == Some(i as int),
            None => first_sep_from(s@, from as int) is None,
        },
{
    let mut i = from;
    while i < s.len() && i + 1 < s.len()
        invariant
            from <= i <= s@.len(),
            first_sep_from(s@, from as int) == first_sep_from(s@, i as int),
        decreases s@.len() - i,
    {
        if s[i] == 44 && s[i + 1] == 32 {
            return Some(i);
        }
        i = i + 1;
    }
    None
}

/// Parses the decimal digits of s[from..to] as an unsigned 64-bit number.
fn parse_u64_range(s: &[u8], from: usize, to: usize) -> (r: Result<u64, MaxAgeError>)
    requires
        from <= to <= s@.len(),
    ensures
        r == spec_parse_u64(s@.subrange(from as int, to as int)),
{
    let ghost d = s@.subrange(from as int, to as int);
    if from == to {
        return Err(MaxAgeError::BadNumber);
    }
    let mut acc: u64 = 0;
    let mut i = from;
    while i < to
        invariant
            from <= i <= to <= s@.len(),
            from < to,
            d == s@.subrange(from as int, to as int),
            all_digits(d.take(i - from)),
            acc == dec_value(d.take(i - from)),
        decreases to - i,
    {
        let c = s[i];
        proof {
            assert(d[i - from] == s@[i as int]);
        }
        if c < 48 || c > 57 {
            proof {
                assert(!all_digits(d));
            }
            return Err(MaxAgeError::BadNumber);
        }
        let digit = (c - 48) as u64;
        proof {
            assert(d.take(i - from + 1).drop_last() =~= d.take(i - from));
            assert(d.take(i - from + 1).last() == d[i - from]);
        }
        if acc > 1844674407370955161u64 || (acc == 1844674407370955161u64 && digit > 5) {
            proof {
                if all_digits(d) {
                    lemma_dec_value_grows(d, i - from + 1);
                }
            }
            return Err(MaxAgeError::BadNumber);
        }
        acc = acc * 10 + digit;
        i = i + 1;
    }
    proof {
        assert(d.take(to - from) =~= d);
    }
    Ok(acc)
}

/// Does s[from..end] start with the eight bytes of "max-age="?
fn has_prefix_at(s: &[u8], from: usize, end: usize) -> (r: bool)
    requires
        from <= end <= s@.len(),
    ensures
        r == has_max_age_prefix(s@.subrange(from as int, end as int)),
{
    let ghost d = s@.subrange(from as int, end as int);
    if end - from < 8 {
        return false;
    }
    proof {
        assert(d[0] == s@[from as int]);
        assert(d[1] == s@[from as int + 1]);
        assert(d[2] == s@[from as int + 2]);
        assert(d[3] == s@[from as int + 3]);
        assert(d[4] == s@[from as int + 4]);
        assert(d[5] == s@[from as int + 5]);
        assert(d[6] == s@[from as int + 6]);
        assert(d[7] == s@[from as int + 7]);
    }
    s[from] == 109 && s[from + 1] == 97 && s[from + 2] == 120 && s[from + 3] == 45 && s[from + 4]
        == 97 && s[from + 5] == 103 && s[from + 6] == 101 && s[from + 7] == 61
}

/// Extracts the freshness window out of a Cache-Control header value: the
/// value, in seconds, of the first "max-age=" directive, with the text read
/// as directives separated by ", ". A header without such a directive, or
/// with a malformed or oversized value on it, is an error: the fetched key
/// set is then never cached optimistically.
pub fn max_age(header: &[u8]) -> (r: Result<u64, MaxAgeError>)
    ensures
        r == spec_max_age_from(header@, 0),
{
    let mut start: usize = 0;
    loop
        invariant
            start <= header@.len(),
            spec_max_age_from(header@, 0) == spec_max_age_from(header@, start as int),
        decreases header@.len() - start,
    {
        let sep = find_sep_from(header, start);
        let len = header.len();
        let end = match sep {
            Some(i) => i,
            None => len,
        };
        proof {
            match sep {
                Some(i) => lemma_first_sep_from_bounds(header@, start as int, i as int),
                None => (),
            }
        }
        if has_prefix_at(header, start, end) {
            return parse_u64_range(header, start + 8, end);
        }
        match sep {
            Some(_) => {
                start = end + 2;
            },
            None => {
                return Err(MaxAgeError::NoMaxAge);
            },
        }
    }
}

/// The issuer's published key set, as fetched from its key-set endpoint.
pub struct GoogleJWKS {
    pub keys: Vec<JWK>,
}

impl Clone for GoogleJWKS {
    fn clone(&self) -> (r: Self)
        ensures
            r.keys@ == self.keys@,
    {
        let mut keys: Vec<JWK> = Vec::new();
        let mut i: usize = 0;
        while i < self.keys.len()
            invariant
                i <= self.keys@.len(),
                keys@ =~= self.keys@.take(i as int),
            decreases self.keys@.len() - i,
        {
            keys.push(self.keys[i].clone());
            i = i + 1;
        }
        proof {
            assert(self.keys@.take(self.keys@.len() as int) =~= self.keys@);
        }
        GoogleJWKS { keys }
    }
}

impl GoogleJWKS {
    /// Stores a freshly fetched key set in the shared cache: its expiry is
    /// the fetch time plus the freshness window the issuer advertised.
    pub fn refresh(cache: &mut Cache<GoogleJWKS>, fetched: GoogleJWKS, now: u64, max_age_seconds: u64)
        requires
            now + max_age_seconds <= u64::MAX,
        ensures
            final(cache).entry() == Some((fetched, (now + max_age_seconds) as u64)),
    {
        cache.set(fetched, now + max_age_seconds);
    }
}

/// Third-party verification rejects a token whose header names a key id that
/// is absent from the fetched key set.
pub proof fn lemma_rejects_unknown_kid(keys: Seq<JWK>, token: Seq<char>, now: u64)
    requires
        token_kid(token) matches Some(kid) && first_key_match(keys, kid) is None,
    ensures
        spec_decode(keys, token, now) == Err::<Seq<char>, _>(GoogleDecodeError::KeyNotFound),
{
}

/// Third-party verification rejects a token whose key-set entry names an
/// algorithm other than the pinned one, even when the key id matches.
pub proof fn lemma_rejects_unpinned_algorithm(keys: Seq<JWK>, token: Seq<char>, now: u64)
    requires
        token_kid(token) matches Some(kid) && (first_key_match(keys, kid) matches Some(k)
            && k.alg@ != pinned_algorithm()),
    ensures
        spec_decode(keys, token, now) == Err::<Seq<char>, _>(
            GoogleDecodeError::UnexpectedAlgorithm,
        ),
{
}

} // verus!
