//! Google sign-in: which tokens, keys and users are trusted.
use vstd::prelude::*;
use crate::media::opt_string_view;
use crate::text::{
    chars_of, chars_have_prefix_at, str_concat, ends_with, owned, parse_u64, parse_u64_chars, slice_chars,
    starts_with, str_ends_with, str_equal, trim, trimmed_bounds,
};

verus! {

/// Where Google publishes the keys that sign its ID tokens.
pub const GOOGLE_CERTS_URL: &'static str = "https://www.googleapis.com/oauth2/v3/certs";

/// The issuers accepted in a Google ID token.
pub fn google_issuers() -> (v: Vec<&'static str>)
    ensures
        v@.len() == 2,
        v@[0]@ == "https://accounts.google.com"@,
        v@[1]@ == "accounts.google.com"@,
{
    let mut v: Vec<&'static str> = Vec::new();
    v.push("https://accounts.google.com");
    v.push("accounts.google.com");
    v
}

/// Why a Google sign-in was refused.
#[derive(Debug)]
pub enum GoogleAuthError {
    InvalidToken(String),
    CsrfMismatch,
    MissingCsrfCookie,
    KeyFetchError(String),
    KeyNotFound(String),
    GoogleNotAuthoritative,
}

/// The text of an error, as it is reported.
pub open spec fn google_auth_error_message(e: GoogleAuthError) -> Seq<char> {
    match e {
        GoogleAuthError::InvalidToken(s) => "Invalid ID token: "@ + s@,
        GoogleAuthError::CsrfMismatch => "CSRF token mismatch"@,
        GoogleAuthError::MissingCsrfCookie => "Missing CSRF cookie"@,
        GoogleAuthError::KeyFetchError(s) => "Failed to fetch Google keys: "@ + s@,
        GoogleAuthError::KeyNotFound(s) => "Key not found for kid: "@ + s@,
        GoogleAuthError::GoogleNotAuthoritative => "Google is not authoritative for this user"@,
    }
}

impl GoogleAuthError {
    /// The text of this error, as it is reported.
    pub fn message(&self) -> (s: String)
        ensures
            s@ == google_auth_error_message(*self),
    {
        match self {
            GoogleAuthError::InvalidToken(s) => str_concat("Invalid ID token: ", s.as_str()),
            GoogleAuthError::CsrfMismatch => owned("CSRF token mismatch"),
            GoogleAuthError::MissingCsrfCookie => owned("Missing CSRF cookie"),
            GoogleAuthError::KeyFetchError(s) => str_concat("Failed to fetch Google keys: ", s.as_str()),
            GoogleAuthError::KeyNotFound(s) => str_concat("Key not found for kid: ", s.as_str()),
            GoogleAuthError::GoogleNotAuthoritative => owned(
                "Google is not authoritative for this user",
            ),
        }
    }
}

/// A user whose Google ID token was verified.
#[derive(Debug)]
pub struct VerifiedUser {
    pub sub: String,
    pub email: Option<String>,
    pub email_verified: Option<bool>,
    pub name: Option<String>,
    pub picture: Option<String>,
    pub hosted_domain: Option<String>,
}

/// The suffix of a Gmail address.
pub open spec fn gmail_suffix() -> Seq<char> {
    "@gmail.com"@
}

/// Google is authoritative for a user when the email is a Gmail address, or when the
/// email is verified and a hosted (Workspace) domain is set.
pub open spec fn google_authoritative(
    email: Option<Seq<char>>,
    email_verified: Option<bool>,
    hosted_domain_set: bool,
) -> bool {
    match email {
        None => false,
        Some(e) => ends_with(e, gmail_suffix()) || (email_verified == Some(true)
            && hosted_domain_set),
    }
}

/// Google is authoritative for every Gmail address, whatever its length and whatever the
/// verification flag and hosted domain say; for another address exactly when it is verified
/// and a hosted domain is set; and never without an address.
pub proof fn law_google_authoritative_for_gmail_and_workspace(
    e: Seq<char>,
    email_verified: Option<bool>,
    hosted_domain_set: bool,
)
    ensures
        e.len() >= "@gmail.com"@.len() && e.subrange(e.len() - "@gmail.com"@.len(), e.len() as int)
            == "@gmail.com"@ ==> google_authoritative(Some(e), email_verified, hosted_domain_set),
        email_verified == Some(true) && hosted_domain_set ==> google_authoritative(
            Some(e),
            email_verified,
            hosted_domain_set,
        ),
        !(e.len() >= "@gmail.com"@.len() && e.subrange(e.len() - "@gmail.com"@.len(), e.len() as int)
            == "@gmail.com"@) && !(email_verified == Some(true) && hosted_domain_set)
            ==> !google_authoritative(Some(e), email_verified, hosted_domain_set),
        !google_authoritative(None, email_verified, hosted_domain_set),
{
}

impl VerifiedUser {
    /// Returns true if Google is authoritative for this user's email, so that the email
    /// can be trusted without further verification.
    pub fn is_google_authoritative(&self) -> (b: bool)
        ensures
            b == google_authoritative(
                opt_string_view(self.email),
                self.email_verified,
                self.hosted_domain is Some,
            ),
            b <==> (self.email matches Some(e) && ((e@.len() >= "@gmail.com"@.len() && e@.subrange(
                e@.len() - "@gmail.com"@.len(),
                e@.len() as int,
            ) == "@gmail.com"@) || (self.email_verified == Some(true) && self.hosted_domain is Some))),
    {
        let email = match &self.email {
            Some(e) => e,
            None => return false,
        };
        if str_ends_with(email.as_str(), "@gmail.com") {
            return true;
        }
        if self.email_verified == Some(true) && self.hosted_domain.is_some() {
            return true;
        }
        false
    }
}

/// The claims of a Google ID token whose signature, audience, issuer and expiry were checked.
#[derive(Debug)]
pub struct IdTokenClaims {
    pub iss: String,
    pub sub: String,
    pub aud: String,
    pub exp: u64,
    pub iat: u64,
    pub email: Option<String>,
    pub email_verified: Option<bool>,
    pub name: Option<String>,
    pub picture: Option<String>,
    pub hd: Option<String>,
}

/// The user named by checked claims, accepted only where Google is authoritative for them.
pub fn user_from_claims(claims: IdTokenClaims) -> (r: Result<VerifiedUser, GoogleAuthError>)
    ensures
        google_authoritative(opt_string_view(claims.email), claims.email_verified, claims.hd is Some)
            ==> (r matches Ok(u) && u.sub == claims.sub && u.email == claims.email
            && u.email_verified == claims.email_verified && u.name == claims.name && u.picture
            == claims.picture && u.hosted_domain == claims.hd),
        !google_authoritative(opt_string_view(claims.email), claims.email_verified, claims.hd is Some)
            ==> r matches Err(GoogleAuthError::GoogleNotAuthoritative),
{
    let user = VerifiedUser {
        sub: claims.sub,
        email: claims.email,
        email_verified: claims.email_verified,
        name: claims.name,
        picture: claims.picture,
        hosted_domain: claims.hd,
    };
    if user.is_google_authoritative() {
        Ok(user)
    } else {
        Err(GoogleAuthError::GoogleNotAuthoritative)
    }
}

/// The error for a token that failed validation, with the validator's reason.
pub fn token_validation_failed(reason: &str) -> (e: GoogleAuthError)
    ensures
        e matches GoogleAuthError::InvalidToken(s) && s@ == "Token validation failed: "@ + reason@,
{
    GoogleAuthError::InvalidToken(str_concat("Token validation failed: ", reason))
}

/// The `kid` of the header of the JWT `token`: `Ok(None)` where the header has none, and the
/// error's text where the header cannot be decoded.
pub uninterp spec fn jwt_header_kid_result(token: Seq<char>) -> Result<Option<Seq<char>>, Seq<char>>;

/// `jsonwebtoken::decode_header`, keeping the header's `kid` and the error's text.
/// The contract names the result; it does not describe JWT decoding.
#[verifier::external_body]
pub(crate) fn decode_header_kid(token: &str) -> (r: Result<Option<String>, String>)
    ensures
        match r {
            Ok(Some(k)) => jwt_header_kid_result(token@) == Ok::<Option<Seq<char>>, Seq<char>>(
                Some(k@),
            ),
            Ok(None) => jwt_header_kid_result(token@) == Ok::<Option<Seq<char>>, Seq<char>>(None),
            Err(e) => jwt_header_kid_result(token@) == Err::<Option<Seq<char>>, Seq<char>>(e@),
        },
{
    match jsonwebtoken::decode_header(token) {
        Ok(header) => Ok(header.kid),
        Err(e) => Err(e.to_string()),
    }
}

/// The key id to look up for a decoded header: the header's `kid`, or why there is none.
pub fn key_id_from_header(header: Result<Option<String>, String>) -> (r: Result<
    String,
    GoogleAuthError,
>)
    ensures
        match header {
            Ok(Some(k)) => r matches Ok(x) && x@ == k@,
            Ok(None) => r matches Err(GoogleAuthError::InvalidToken(s)) && s@
                == "Missing kid in header"@,
            Err(e) => r matches Err(GoogleAuthError::InvalidToken(s)) && s@ == "Invalid header: "@
                + e@,
        },
{
    match header {
        Ok(Some(k)) => Ok(k),
        Ok(None) => Err(GoogleAuthError::InvalidToken(owned("Missing kid in header"))),
        Err(e) => Err(GoogleAuthError::InvalidToken(str_concat("Invalid header: ", e.as_str()))),
    }
}

/// The key id that a token's header names, or why the token is refused.
pub fn token_key_id(id_token: &str) -> (r: Result<String, GoogleAuthError>)
    ensures
        match jwt_header_kid_result(id_token@) {
            Ok(Some(k)) => r matches Ok(x) && x@ == k,
            Ok(None) => r matches Err(GoogleAuthError::InvalidToken(s)) && s@
                == "Missing kid in header"@,
            Err(e) => r matches Err(GoogleAuthError::InvalidToken(s)) && s@ == "Invalid header: "@
                + e,
        },
{
    key_id_from_header(decode_header_kid(id_token))
}

/// The pieces of `s` between commas, as `str::split(',')` gives them (always at least one).
pub open spec fn split_commas(s: Seq<char>) -> Seq<Seq<char>>
    decreases s.len(),
{
    if s.len() == 0 {
        seq![Seq::<char>::empty()]
    } else {
        let init = split_commas(s.drop_last());
        if s.last() == ',' {
            init.push(Seq::<char>::empty())
        } else {
            init.update(init.len() - 1, init.last().push(s.last()))
        }
    }
}

/// The directive prefix that carries a cache lifetime.
pub open spec fn max_age_prefix() -> Seq<char> {
    "max-age="@
}

/// The value of the first trimmed piece that starts with `max-age=`, read as a `u64`
/// (`None` where that value does not parse or no piece starts so).
pub open spec fn max_age_in(pieces: Seq<Seq<char>>) -> Option<u64>
    decreases pieces.len(),
{
    if pieces.len() == 0 {
        None
    } else if starts_with(trim(pieces[0]), max_age_prefix()) {
        parse_u64(trim(pieces[0]).skip(max_age_prefix().len() as int))
    } else {
        max_age_in(pieces.drop_first())
    }
}

/// The `max-age` of a `Cache-Control` header value.
pub open spec fn spec_parse_max_age(cache_control: Seq<char>) -> Option<u64> {
    max_age_in(split_commas(cache_control))
}

/// Parses the max-age value from a `Cache-Control` header value, e.g.
/// "public, max-age=19591, must-revalidate, no-transform" gives `Some(19591)`.
pub fn parse_max_age(cache_control: &str) -> (r: Option<u64>)
    ensures
        r == spec_parse_max_age(cache_control@),
{
    let c = chars_of(cache_control);
    let ghost cs = cache_control@;
    let mut pieces: Vec<Vec<char>> = Vec::new();
    pieces.push(Vec::new());
    let mut i: usize = 0;
    proof {
        assert(cs.take(0) =~= Seq::<char>::empty());
        assert(pieces@.len() == 1 && pieces@[0]@ =~= Seq::<char>::empty());
    }
    while i < c.len()
        invariant
            c@ == cs,
            i <= cs.len(),
            pieces@.len() == split_commas(cs.take(i as int)).len(),
            pieces@.len() >= 1,
            forall|j: int|
                0 <= j < pieces@.len() ==> #[trigger] pieces@[j]@ == split_commas(
                    cs.take(i as int),
                )[j],
        decreases cs.len() - i,
    {
        let ghost before = split_commas(cs.take(i as int));
        let ch = c[i];
        proof {
            assert(cs.take(i + 1).drop_last() =~= cs.take(i as int));
            assert(cs.take(i + 1).last() == ch);
        }
        if ch == ',' {
            pieces.push(Vec::new());
            assert(pieces@[pieces@.len() - 1]@ =~= Seq::<char>::empty());
        } else {
            let ghost pv = pieces@;
            let mut last = pieces.pop().unwrap();
            last.push(ch);
            pieces.push(last);
            proof {
                let after = split_commas(cs.take(i + 1));
                assert(after == before.update(before.len() - 1, before.last().push(ch)));
                assert forall|j: int| 0 <= j < pieces@.len() implies #[trigger] pieces@[j]@
                    == after[j] by {
                    if j < pieces@.len() - 1 {
                        assert(pieces@[j] == pv[j]);
                    }
                }
            }
        }
        i = i + 1;
    }
    assert(cs.take(cs.len() as int) =~= cs);
    let ghost all = split_commas(cs);
    let prefix: Vec<char> = chars_of("max-age=");
    proof {
        reveal_strlit("max-age=");
        assert(max_age_prefix().len() == 8);
    }
    let mut k: usize = 0;
    assert(all.skip(0) =~= all);
    while k < pieces.len()
        invariant
            pieces@.len() == all.len(),
            forall|j: int| 0 <= j < pieces@.len() ==> #[trigger] pieces@[j]@ == all[j],
            k <= all.len(),
            prefix@ == max_age_prefix(),
            max_age_prefix().len() == 8,
            all == split_commas(cache_control@),
            max_age_in(all) == max_age_in(all.skip(k as int)),
        decreases all.len() - k,
    {
        let piece = &pieces[k];
        let (lo, hi) = trimmed_bounds(piece.as_slice(), 0, piece.len());
        assert(piece@.subrange(0, piece@.len() as int) =~= piece@);
        let t = slice_chars(piece.as_slice(), lo, hi);
        assert(t@ == trim(all[k as int]));
        assert(all.skip(k as int)[0] == all[k as int]);
        assert(t@.subrange(0, t@.len() as int) =~= t@);
        if chars_have_prefix_at(t.as_slice(), 0, prefix.as_slice()) {
            let rest = slice_chars(t.as_slice(), 8, t.len());
            assert(rest@ =~= t@.skip(8));
            let ghost sk = all.skip(k as int);
            assert(sk.len() > 0);
            assert(sk[0] == all[k as int]);
            assert(starts_with(trim(sk[0]), max_age_prefix()));
            assert(max_age_in(sk) == parse_u64(trim(sk[0]).skip(8)));
            return parse_u64_chars(rest.as_slice());
        }
        assert(all.skip(k as int).drop_first() =~= all.skip(k + 1));
        k = k + 1;
    }
    None
}

/// What a Google ID token is checked against besides its signature: the signing
/// algorithm, the accepted audiences and issuers, and whether its expiry (`exp`) and start
/// (`nbf`) times are enforced.
#[derive(Debug)]
pub struct TokenValidation {
    pub algorithm: &'static str,
    pub audience: Vec<String>,
    pub issuers: Vec<&'static str>,
    pub validate_exp: bool,
    pub validate_nbf: bool,
}

/// Checks Google ID tokens issued for one OAuth client.
pub struct GoogleAuthService {
    client_id: String,
}

impl GoogleAuthService {
    /// The OAuth client id of this service.
    pub closed spec fn spec_client_id(&self) -> Seq<char> {
        self.client_id@
    }

    /// A service for the OAuth client `client_id`.
    pub fn new(client_id: String) -> (s: Self)
        ensures
            s.spec_client_id() == client_id@,
    {
        GoogleAuthService { client_id }
    }

    /// The OAuth client id that tokens must be issued for (their audience).
    pub fn client_id(&self) -> (s: &str)
        ensures
            s@ == self.spec_client_id(),
    {
        self.client_id.as_str()
    }

    /// Checks the double-submit CSRF token: the cookie must be present and equal the token
    /// sent in the request body.
    pub fn verify_csrf(&self, cookie_token: Option<&str>, body_token: &str) -> (r: Result<
        (),
        GoogleAuthError,
    >)
        ensures
            match cookie_token {
                None => r matches Err(GoogleAuthError::MissingCsrfCookie),
                Some(c) => if c@ == body_token@ {
                    r is Ok
                } else {
                    r matches Err(GoogleAuthError::CsrfMismatch)
                },
            },
    {
        let cookie_token = match cookie_token {
            Some(c) => c,
            None => return Err(GoogleAuthError::MissingCsrfCookie),
        };
        if !str_equal(cookie_token, body_token) {
            return Err(GoogleAuthError::CsrfMismatch);
        }
        Ok(())
    }

    /// The checks for tokens of this client: RS256 signatures, this client as the only
    /// audience, Google's issuers, and enforced expiry and start times.
    pub fn token_validation(&self) -> (v: TokenValidation)
        ensures
            v.algorithm@ == "RS256"@,
            v.audience@.len() == 1,
            v.audience@[0]@ == self.spec_client_id(),
            v.issuers@.len() == 2,
            v.issuers@[0]@ == "https://accounts.google.com"@,
            v.issuers@[1]@ == "accounts.google.com"@,
            v.validate_exp,
            v.validate_nbf,
    {
        let mut audience: Vec<String> = Vec::new();
        audience.push(owned(self.client_id()));
        TokenValidation {
            algorithm: "RS256",
            audience,
            issuers: google_issuers(),
            validate_exp: true,
            validate_nbf: true,
        }
    }
}

/// A JSON Web Key as Google publishes it.
#[derive(Debug)]
pub struct GoogleKey {
    pub kid: String,
    pub n: String,
    pub e: String,
    pub alg: String,
}

/// `jsonwebtoken::DecodingKey`, carried through the key cache without being looked into.
#[verifier::external_type_specification]
#[verifier::external_body]
pub struct ExDecodingKey(jsonwebtoken::DecodingKey);

/// The key that RSA components `n` and `e` (base64url, unpadded) give, or the text of the
/// error where they do not decode.
pub uninterp spec fn rsa_key_result(n: Seq<char>, e: Seq<char>) -> Result<jsonwebtoken::DecodingKey, Seq<char>>;

/// `DecodingKey::from_rsa_components`. The contract names the result: equal components give
/// an equal key or an equal error text.
#[verifier::external_body]
pub(crate) fn decoding_key_from_rsa(n: &str, e: &str) -> (r: Result<jsonwebtoken::DecodingKey, String>)
    ensures
        match r {
            Ok(k) => rsa_key_result(n@, e@) == Ok::<jsonwebtoken::DecodingKey, Seq<char>>(k),
            Err(m) => rsa_key_result(n@, e@) == Err::<jsonwebtoken::DecodingKey, Seq<char>>(m@),
        },
{
    match jsonwebtoken::DecodingKey::from_rsa_components(n, e) {
        Ok(k) => Ok(k),
        Err(err) => Err(err.to_string()),
    }
}

/// `Clone` for `DecodingKey` (derived): the copy is the same key.
#[verifier::external_body]
pub(crate) fn clone_key(k: &jsonwebtoken::DecodingKey) -> (r: jsonwebtoken::DecodingKey)
    ensures
        r == *k,
{
    k.clone()
}

/// The map from key id to key that a list of cached entries stands for; a later entry
/// replaces an earlier one with the same key id.
pub open spec fn entries_map(s: Seq<(String, jsonwebtoken::DecodingKey)>) -> Map<
    Seq<char>,
    jsonwebtoken::DecodingKey,
>
    decreases s.len(),
{
    if s.len() == 0 {
        Map::empty()
    } else {
        entries_map(s.drop_last()).insert(s.last().0@, s.last().1)
    }
}

/// Installs the RS256 keys of `keys`, in order, into `m`: the resulting map, and the text of
/// the first key-format error, which stops the installation.
pub open spec fn install_keys(m: Map<Seq<char>, jsonwebtoken::DecodingKey>, keys: Seq<GoogleKey>) -> (
    Map<Seq<char>, jsonwebtoken::DecodingKey>,
    Option<Seq<char>>,
)
    decreases keys.len(),
{
    if keys.len() == 0 {
        (m, None)
    } else if keys[0].alg@ != "RS256"@ {
        install_keys(m, keys.drop_first())
    } else {
        match rsa_key_result(keys[0].n@, keys[0].e@) {
            Err(msg) => (m, Some("Invalid key format: "@ + msg)),
            Ok(k) => install_keys(m.insert(keys[0].kid@, k), keys.drop_first()),
        }
    }
}

/// The nanosecond count of one second.
pub open spec fn nanos_per_sec() -> int {
    1_000_000_000
}

/// When keys fetched at `now` (nanoseconds on a monotonic clock) with the given `max-age`
/// (seconds) expire; `None` where no lifetime was given.
pub open spec fn expiry(max_age: Option<u64>, now: u128) -> Option<int> {
    match max_age {
        Some(secs) => Some(now + secs * nanos_per_sec()),
        None => None,
    }
}

/// Clock readings small enough that any `max-age` can be added to them.
pub open spec fn clock_in_range(now: u128) -> bool {
    now + u64::MAX * nanos_per_sec() <= u128::MAX
}

/// Google's signing keys, cached with the time at which they go stale.
pub struct CachedKeys {
    keys: Vec<(String, jsonwebtoken::DecodingKey)>,
    expires_at: Option<u128>,
}

impl CachedKeys {
    /// The cached keys by key id.
    pub closed spec fn key_map(&self) -> Map<Seq<char>, jsonwebtoken::DecodingKey> {
        entries_map(self.keys@)
    }

    /// When the cached keys go stale (`None`: they are stale).
    pub closed spec fn spec_expires_at(&self) -> Option<int> {
        match self.expires_at {
            Some(e) => Some(e as int),
            None => None,
        }
    }

    /// Whether the cache is stale at `now`.
    pub open spec fn expired_at(&self, now: u128) -> bool {
        match self.spec_expires_at() {
            Some(e) => now >= e,
            None => true,
        }
    }

    /// An empty cache, stale from the start.
    pub fn new() -> (c: Self)
        ensures
            c.key_map() == Map::<Seq<char>, jsonwebtoken::DecodingKey>::empty(),
            c.spec_expires_at() is None,
    {
        CachedKeys { keys: Vec::new(), expires_at: None }
    }

    /// Whether the cache is stale at `now`.
    pub fn is_expired(&self, now: u128) -> (b: bool)
        ensures
            b == self.expired_at(now),
    {
        match self.expires_at {
            Some(e) => now >= e,
            None => true,
        }
    }

    /// The cached key for `kid`, if there is one.
    pub fn get(&self, kid: &str) -> (r: Option<jsonwebtoken::DecodingKey>)
        ensures
            match r {
                Some(k) => self.key_map().contains_key(kid@) && self.key_map()[kid@] == k,
                None => !self.key_map().contains_key(kid@),
            },
    {
        let mut i = self.keys.len();
        while i > 0
            invariant
                i <= self.keys@.len(),
                forall|j: int| i <= j < self.keys@.len() ==> (#[trigger] self.keys@[j]).0@ != kid@,
            decreases i,
        {
            if str_equal(self.keys[i - 1].0.as_str(), kid) {
                proof {
                    lemma_entries_map_suffix(self.keys@, i as int, kid@);
                    assert(self.keys@.take(i as int).drop_last() =~= self.keys@.take(i - 1));
                }
                return Some(clone_key(&self.keys[i - 1].1));
            }
            i = i - 1;
        }
        proof {
            lemma_entries_map_suffix(self.keys@, 0, kid@);
        }
        None
    }

    /// The cached key for `kid` while the cache is fresh at `now`.
    pub fn fresh_key(&self, kid: &str, now: u128) -> (r: Option<jsonwebtoken::DecodingKey>)
        ensures
            match r {
                Some(k) => !self.expired_at(now) && self.key_map().contains_key(kid@)
                    && self.key_map()[kid@] == k,
                None => self.expired_at(now) || !self.key_map().contains_key(kid@),
            },
    {
        if self.is_expired(now) {
            return None;
        }
        self.get(kid)
    }

    /// The cached key for `kid`, or `KeyNotFound` naming it.
    pub fn key(&self, kid: &str) -> (r: Result<jsonwebtoken::DecodingKey, GoogleAuthError>)
        ensures
            match r {
                Ok(k) => self.key_map().contains_key(kid@) && self.key_map()[kid@] == k,
                Err(e) => !self.key_map().contains_key(kid@) && (e matches GoogleAuthError::KeyNotFound(s)
                    && s@ == kid@),
            },
    {
        match self.get(kid) {
            Some(k) => Ok(k),
            None => Err(GoogleAuthError::KeyNotFound(owned(kid))),
        }
    }

    /// Replaces the cache with the RS256 keys of a freshly fetched key set: the cache is
    /// cleared, its expiry set from `max_age`, and the keys installed in order until one
    /// does not decode, which fails the refresh with `KeyFetchError`.
    pub fn refresh(&mut self, keys: Vec<GoogleKey>, max_age: Option<u64>, now: u128) -> (r: Result<
        (),
        GoogleAuthError,
    >)
        requires
            clock_in_range(now),
        ensures
            final(self).key_map() == install_keys(Map::empty(), keys@).0,
            final(self).spec_expires_at() == expiry(max_age, now),
            match install_keys(Map::empty(), keys@).1 {
                None => r is Ok,
                Some(msg) => r matches Err(GoogleAuthError::KeyFetchError(s)) && s@ == msg,
            },
    {
        self.keys = Vec::new();
        self.expires_at = match max_age {
            Some(secs) => Some(now + (secs as u128) * 1_000_000_000),
            None => None,
        };
        proof {
            reveal_strlit("RS256");
            assert(keys@.skip(0) =~= keys@);
        }
        let mut i: usize = 0;
        while i < keys.len()
            invariant
                i <= keys@.len(),
                self.spec_expires_at() == expiry(max_age, now),
                install_keys(Map::empty(), keys@) == install_keys(entries_map(self.keys@), keys@.skip(i as int)),
            decreases keys@.len() - i,
        {
            let key = &keys[i];
            let ghost rest = keys@.skip(i as int);
            assert(rest[0] == keys@[i as int]);
            assert(rest.drop_first() =~= keys@.skip(i + 1));
            if !str_equal(key.alg.as_str(), "RS256") {
                i = i + 1;
                continue;
            }
            match decoding_key_from_rsa(key.n.as_str(), key.e.as_str()) {
                Err(m) => {
                    return Err(GoogleAuthError::KeyFetchError(str_concat("Invalid key format: ", m.as_str())));
                },
                Ok(k) => {
                    let ghost before = self.keys@;
                    self.keys.push((key.kid.clone(), k));
                    assert(self.keys@.drop_last() =~= before);
                },
            }
            i = i + 1;
        }
        Ok(())
    }
}

/// With no entry for `kid` from position `i` on, the entries agree with their first `i`
/// on `kid`.
pub proof fn lemma_entries_map_suffix(s: Seq<(String, jsonwebtoken::DecodingKey)>, i: int, kid: Seq<char>)
    requires
        0 <= i <= s.len(),
        forall|j: int| i <= j < s.len() ==> (#[trigger] s[j]).0@ != kid,
    ensures
        entries_map(s).contains_key(kid) == entries_map(s.take(i)).contains_key(kid),
        entries_map(s).contains_key(kid) ==> entries_map(s)[kid] == entries_map(s.take(i))[kid],
    decreases s.len() - i,
{
    if i < s.len() {
        let t = s.drop_last();
        assert forall|j: int| i <= j < t.len() implies (#[trigger] t[j]).0@ != kid by {
            assert(t[j] == s[j]);
        }
        lemma_entries_map_suffix(t, i, kid);
        assert(t.take(i) =~= s.take(i));
    } else {
        assert(s.take(i) =~= s);
    }
}

/// Whether `keys` holds an RS256 key with key id `kid`.
pub open spec fn has_rs256_key(keys: Seq<GoogleKey>, kid: Seq<char>) -> bool {
    exists|i: int| 0 <= i < keys.len() && (#[trigger] keys[i]).alg@ == "RS256"@ && keys[i].kid@ == kid
}

/// Installing keys that all decode adds exactly the RS256 keys to the map, each mapped to
/// the key decoded from a published RS256 entry with its id; other ids keep their keys.
pub proof fn lemma_install_keys(m: Map<Seq<char>, jsonwebtoken::DecodingKey>, keys: Seq<GoogleKey>, kid: Seq<char>)
    requires
        install_keys(m, keys).1 is None,
    ensures
        install_keys(m, keys).0.contains_key(kid) <==> (m.contains_key(kid) || has_rs256_key(keys, kid)),
        install_keys(m, keys).0.contains_key(kid) && !has_rs256_key(keys, kid) ==> install_keys(m, keys).0[kid] == m[kid],
        has_rs256_key(keys, kid) ==> exists|i: int|
            0 <= i < keys.len() && (#[trigger] keys[i]).alg@ == "RS256"@ && keys[i].kid@ == kid
                && rsa_key_result(keys[i].n@, keys[i].e@) == Ok::<jsonwebtoken::DecodingKey, Seq<char>>(
                install_keys(m, keys).0[kid],
            ),
    decreases keys.len(),
{
    if keys.len() > 0 {
        let rest = keys.drop_first();
        let k = keys[0];
        assert forall|i: int| 0 <= i < rest.len() implies #[trigger] rest[i] == keys[i + 1] by {}
        if k.alg@ != "RS256"@ {
            lemma_install_keys(m, rest, kid);
            if has_rs256_key(keys, kid) {
                let i = choose|i: int| 0 <= i < keys.len() && (#[trigger] keys[i]).alg@ == "RS256"@ && keys[i].kid@ == kid;
                assert(i > 0);
                assert(rest[i - 1] == keys[i]);
                assert(has_rs256_key(rest, kid));
                let j = choose|j: int|
                    0 <= j < rest.len() && (#[trigger] rest[j]).alg@ == "RS256"@ && rest[j].kid@ == kid
                        && rsa_key_result(rest[j].n@, rest[j].e@) == Ok::<jsonwebtoken::DecodingKey, Seq<char>>(
                        install_keys(m, rest).0[kid],
                    );
                assert(keys[j + 1] == rest[j]);
            }
            if has_rs256_key(rest, kid) {
                let j = choose|j: int| 0 <= j < rest.len() && (#[trigger] rest[j]).alg@ == "RS256"@ && rest[j].kid@ == kid;
                assert(keys[j + 1] == rest[j]);
            }
        } else {
            match rsa_key_result(k.n@, k.e@) {
                Err(_) => {},
                Ok(dk) => {
                    let m2 = m.insert(k.kid@, dk);
                    lemma_install_keys(m2, rest, kid);
                    if has_rs256_key(rest, kid) {
                        let j = choose|j: int|
                            0 <= j < rest.len() && (#[trigger] rest[j]).alg@ == "RS256"@ && rest[j].kid@ == kid
                                && rsa_key_result(rest[j].n@, rest[j].e@) == Ok::<jsonwebtoken::DecodingKey, Seq<char>>(
                                install_keys(m2, rest).0[kid],
                            );
                        assert(keys[j + 1] == rest[j]);
                    } else if k.kid@ == kid {
                        assert(keys[0] == k);
                    }
                    if has_rs256_key(keys, kid) && !has_rs256_key(rest, kid) {
                        let i = choose|i: int| 0 <= i < keys.len() && (#[trigger] keys[i]).alg@ == "RS256"@ && keys[i].kid@ == kid;
                        if i > 0 {
                            assert(rest[i - 1] == keys[i]);
                        }
                    }
                },
            }
        }
    }
}

/// After a refresh in which every published RS256 key decodes, the cache holds a key for
/// exactly the ids of the published RS256 keys, each decoded from a published RS256 entry
/// with that id; keys of other algorithms are never cached.
pub proof fn law_refresh_caches_exactly_rs256_keys(keys: Seq<GoogleKey>, kid: Seq<char>)
    requires
        install_keys(Map::empty(), keys).1 is None,
    ensures
        install_keys(Map::empty(), keys).0.contains_key(kid) <==> has_rs256_key(keys, kid),
        has_rs256_key(keys, kid) ==> exists|i: int|
            0 <= i < keys.len() && (#[trigger] keys[i]).alg@ == "RS256"@ && keys[i].kid@ == kid
                && rsa_key_result(keys[i].n@, keys[i].e@) == Ok::<jsonwebtoken::DecodingKey, Seq<char>>(
                install_keys(Map::empty(), keys).0[kid],
            ),
{
    lemma_install_keys(Map::empty(), keys, kid);
}

/// Keys fetched with a positive `max-age` are fresh when fetched, and go stale exactly
/// `max-age` seconds later; keys fetched without one are stale at once.
pub proof fn law_refreshed_keys_fresh_until_max_age(c: CachedKeys, max_age: Option<u64>, now: u128, t: u128)
    requires
        c.spec_expires_at() == expiry(max_age, now),
    ensures
        max_age is None ==> c.expired_at(t),
        max_age matches Some(secs) ==> (c.expired_at(t) <==> t >= now + secs * nanos_per_sec()),
        max_age matches Some(secs) && secs > 0 ==> !c.expired_at(now),
{
}

/// After a refresh in which every published RS256 key decodes, a lookup of a fresh key at
/// time `t` finds a key exactly when `t` is within `max-age` seconds of the refresh and the
/// key set published an RS256 key with that id.
pub proof fn law_fresh_lookup_after_refresh(
    c: CachedKeys,
    keys: Seq<GoogleKey>,
    max_age: Option<u64>,
    now: u128,
    t: u128,
    kid: Seq<char>,
)
    requires
        install_keys(Map::empty(), keys).1 is None,
        c.key_map() == install_keys(Map::empty(), keys).0,
        c.spec_expires_at() == expiry(max_age, now),
    ensures
        (!c.expired_at(t) && c.key_map().contains_key(kid)) <==> (max_age matches Some(secs) && t < now
            + secs * nanos_per_sec() && has_rs256_key(keys, kid)),
{
    law_refresh_caches_exactly_rs256_keys(keys, kid);
}

} // verus!
