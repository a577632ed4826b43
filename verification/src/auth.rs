use vstd::prelude::*;
use vstd::string::*;
use vstd::arithmetic::power2::pow2;
use crate::models::Claims;
use argon2::password_hash::{PasswordHasher, PasswordVerifier};

verus! {

/// The key that signs and checks bearer tokens (HMAC-SHA256).
pub const JWT_SECRET: &'static str = "your_very_secret_key_change_me";

/// How long a token stays valid after it is issued, in seconds (24 hours).
pub const TOKEN_LIFETIME_SECS: i64 = 86400;

pub open spec fn jwt_secret() -> Seq<u8> {
    JWT_SECRET.spec_bytes()
}

// ---------------------------------------------------------------------------
// Passwords (Argon2id)
// ---------------------------------------------------------------------------

/// Whether `PasswordHash::new` accepts the text as a PHC string.
pub uninterp spec fn phc_parses(hash: Seq<char>) -> bool;

/// Whether Argon2 (`Argon2::default().verify_password`) accepts the password
/// against the parsed PHC string.
pub uninterp spec fn argon2_accepts(password: Seq<char>, hash: Seq<char>) -> bool;

/// The PHC header that Argon2's default parameters give: Argon2id,
/// version 19, m = 19456 KiB, t = 2, p = 1.
pub open spec fn default_phc_header() -> Seq<char> {
    "$argon2id$v=19$m=19456,t=2,p=1$"@
}

/// A character of the B64 alphabet of PHC strings (`[A-Za-z0-9+/]`).
pub open spec fn is_b64_char(c: char) -> bool {
    (65 <= c as int <= 90) || (97 <= c as int <= 122) || (48 <= c as int <= 57) || c == '+' || c == '/'
}

/// Whether `SaltString::from_b64` accepts the text and the default Argon2
/// hashes under it without error (for any password within `MAX_PWD_LEN`).
pub uninterp spec fn argon2_salt_ok(salt: Seq<char>) -> bool;

/// The B64 text of the 32-byte Argon2id output (default parameters) of the
/// password under the salt text.
pub uninterp spec fn argon2id_hash_b64(password: Seq<char>, salt: Seq<char>) -> Seq<char>;

/// Calls `SaltString::generate(&mut OsRng)`: 16 random bytes in B64, which
/// is 22 characters, and which Argon2 accepts as a salt. The bytes are random;
/// nothing else is said of them. It panics only where the system's random
/// source fails.
#[verifier::external_body]
fn generate_salt() -> (res: String)
    ensures
        res@.len() == 22,
        forall|i: int| 0 <= i < res@.len() ==> is_b64_char(#[trigger] res@[i]),
        argon2_salt_ok(res@),
{
    argon2::password_hash::SaltString::generate(&mut argon2::password_hash::rand_core::OsRng).as_str().to_string()
}

/// Calls `SaltString::from_b64(salt)` and
/// `Argon2::default().hash_password(password, &salt)`, then renders the PHC
/// string: the default parameters' header, the salt, `$`, and the B64 output.
/// As the crate documents, the string parses as a PHC hash and Argon2 verifies
/// the same password against it. Hashing fails only for a password longer
/// than `argon2::MAX_PWD_LEN` bytes or a salt that Argon2 refuses, which
/// `requires` leaves out.
#[verifier::external_body]
fn argon2_hash_phc(password: &str, salt: &str) -> (res: String)
    requires
        password.len() <= 0xFFFF_FFFF,
        argon2_salt_ok(salt@),
    ensures
        res@ == default_phc_header() + salt@ + seq!['$'] + argon2id_hash_b64(password@, salt@),
        phc_parses(res@),
        argon2_accepts(password@, res@),
{
    let salt = argon2::password_hash::SaltString::from_b64(salt).expect("salt");
    argon2::Argon2::default().hash_password(password.as_bytes(), &salt).expect("argon2 hashing").to_string()
}

/// Calls `PasswordHash::new(hash)` and tells whether it parsed.
#[verifier::external_body]
fn phc_hash_parses(hash: &str) -> (res: bool)
    ensures
        res == phc_parses(hash@),
{
    argon2::password_hash::PasswordHash::new(hash).is_ok()
}

/// Calls `Argon2::default().verify_password(password, &parsed).is_ok()` on
/// the PHC string parsed by `PasswordHash::new`, which `requires` says
/// succeeds.
#[verifier::external_body]
fn argon2_verify(password: &str, hash: &str) -> (res: bool)
    requires
        phc_parses(hash@),
    ensures
        res == argon2_accepts(password@, hash@),
{
    let parsed = argon2::password_hash::PasswordHash::new(hash).expect("PHC string");
    argon2::Argon2::default().verify_password(password.as_bytes(), &parsed).is_ok()
}

/// The PHC header of a hash under Argon2's default parameters.
pub open spec fn is_default_argon2id_phc(hash: Seq<char>) -> bool {
    hash.len() >= 31 && hash.subrange(0, 31) == default_phc_header()
}

/// Hashes a password with Argon2id under a fresh random salt. The result is
/// the PHC string of Argon2's default parameters, the salt (22 B64
/// characters) and the hash of the password under that salt, a function of
/// password and salt alone; `verify_password` accepts it for this same
/// password.
pub fn hash_password(password: &str) -> (res: String)
    requires
        password.len() <= 0xFFFF_FFFF,
    ensures
        is_default_argon2id_phc(res@),
        exists|salt: Seq<char>|
            #![trigger argon2id_hash_b64(password@, salt)]
            salt.len() == 22 && (forall|i: int| 0 <= i < salt.len() ==> is_b64_char(#[trigger] salt[i]))
            && res@ == default_phc_header() + salt + seq!['$'] + argon2id_hash_b64(password@, salt),
        phc_parses(res@),
        argon2_accepts(password@, res@),
{
    let salt = generate_salt();
    let res = argon2_hash_phc(password, salt.as_str());
    proof {
        reveal_strlit("$argon2id$v=19$m=19456,t=2,p=1$");
        let h = default_phc_header();
        assert(h.len() == 31);
        assert(res@.subrange(0, 31) =~= h);
        assert(argon2id_hash_b64(password@, salt@) == argon2id_hash_b64(password@, salt@));
    }
    res
}

/// Checks a password against a stored PHC hash.
pub fn verify_password(password: &str, hash: &str) -> (res: bool)
    requires
        phc_parses(hash@),
    ensures
        res == argon2_accepts(password@, hash@),
{
    argon2_verify(password, hash)
}

/// Checks a password against a stored hash that may not be a PHC string:
/// `None` when it is not one, else whether the password matches.
pub fn check_password(password: &str, hash: &str) -> (res: Option<bool>)
    ensures
        !phc_parses(hash@) ==> res is None,
        phc_parses(hash@) ==> res == Some(argon2_accepts(password@, hash@)),
{
    if phc_hash_parses(hash) {
        Some(verify_password(password, hash))
    } else {
        None
    }
}


// ---------------------------------------------------------------------------
// User ids (UUIDs, held as their 128-bit value)
// ---------------------------------------------------------------------------

/// The `k`-th hex digit (0 = most significant) of a 128-bit value.
pub open spec fn nibble(id: u128, k: int) -> int {
    (id as int / pow2((4 * (31 - k)) as nat) as int) % 16
}

/// Lowercase hex digit for a value in 0..16.
pub open spec fn hex_char(d: int) -> char {
    if d < 10 {
        (48 + d) as char
    } else {
        (87 + d) as char
    }
}

/// Which hex digit stands at position `i` of the hyphenated form.
pub open spec fn hyphenated_digit_index(i: int) -> int {
    if i < 8 {
        i
    } else if i < 13 {
        i - 1
    } else if i < 18 {
        i - 2
    } else if i < 23 {
        i - 3
    } else {
        i - 4
    }
}

/// The hyphenated lowercase text of a UUID: 32 hex digits, most significant
/// first, grouped 8-4-4-4-12.
pub open spec fn uuid_hyphenated(id: u128) -> Seq<char> {
    Seq::new(
        36,
        |i: int|
            if i == 8 || i == 13 || i == 18 || i == 23 {
                '-'
            } else {
                hex_char(nibble(id, hyphenated_digit_index(i)))
            },
    )
}

/// Calls `Uuid::from_u128(id).to_string()`, whose `Display` is the
/// lowercase hyphenated form; `Uuid::parse_str` reads that form back.
#[verifier::external_body]
fn uuid_to_string(id: u128) -> (res: String)
    ensures
        res@ == uuid_hyphenated(id),
        uuid_of_text(res@) == Some(id),
{
    uuid::Uuid::from_u128(id).to_string()
}

/// What `Uuid::parse_str` makes of a text (`None` where it fails), as the
/// 128-bit value.
pub uninterp spec fn uuid_of_text(text: Seq<char>) -> Option<u128>;

/// Calls `Uuid::parse_str(text)` and takes `as_u128` of the result.
#[verifier::external_body]
fn parse_uuid(text: &str) -> (res: Option<u128>)
    ensures
        res == uuid_of_text(text@),
{
    match uuid::Uuid::parse_str(text) {
        Ok(u) => Some(u.as_u128()),
        Err(_) => None,
    }
}

// ---------------------------------------------------------------------------
// Bearer tokens (JWT, HS256)
// ---------------------------------------------------------------------------

/// The error type of `jsonwebtoken`, which the token wrappers return.
#[verifier::external_type_specification]
#[verifier::external_body]
pub struct ExJwtError(jsonwebtoken::errors::Error);

/// The token that `jsonwebtoken::encode` makes, under the default header
/// (HS256) and an HMAC key, of the claims `{"sub": sub, "exp": exp}`.
pub uninterp spec fn jwt_hs256(secret: Seq<u8>, sub: Seq<char>, exp: usize) -> Seq<char>;

/// For a token that `jsonwebtoken::decode` (key `secret`, default
/// validation) accepts when the clock is left out of it (well formed, HS256,
/// signature checked, `"exp"` present), its `"sub"` claim when that is a
/// string and its `"exp"` claim when that is an unsigned integer; `None` for
/// every other token.
pub uninterp spec fn jwt_claims_of(secret: Seq<u8>, token: Seq<char>) -> Option<(Option<Seq<char>>, Option<u64>)>;

/// A character of the base64url alphabet (`[A-Za-z0-9_-]`).
pub open spec fn is_base64url_char(c: char) -> bool {
    (65 <= c as int <= 90) || (97 <= c as int <= 122) || (48 <= c as int <= 57) || c == '-' || c == '_'
}

/// The compact form of a signed token: base64url characters in three parts
/// separated by two dots.
pub open spec fn is_compact_token(t: Seq<char>) -> bool {
    &&& forall|i: int| 0 <= i < t.len() ==> is_base64url_char(#[trigger] t[i]) || t[i] == '.'
    &&& exists|a: int, b: int|
        #![trigger t[a], t[b]]
        0 <= a < b < t.len() && t[a] == '.' && t[b] == '.'
        && forall|k: int| 0 <= k < t.len() && k != a && k != b ==> #[trigger] t[k] != '.'
}

pub open spec fn opt_text(o: Option<String>) -> Option<Seq<char>> {
    match o {
        Some(s) => Some(s@),
        None => None,
    }
}

/// Calls `jsonwebtoken::encode(&Header::default(), &claims,
/// &EncodingKey::from_secret(secret))` on the JSON object
/// `{"sub": sub, "exp": exp}`. The token is a function of the key and the
/// claims; decoding it under the same key gives the same claims back. It
/// succeeds: `encode` fails only where the key's family differs from the
/// header's algorithm (an HMAC key and HS256 here) or where serialising
/// fails (never for a JSON value), and HS256 signing cannot fail. The token
/// is header, claims and signature, each in base64url without padding,
/// joined by dots.
#[verifier::external_body]
fn jwt_encode(secret: &[u8], sub: &str, exp: usize) -> (res: Result<String, jsonwebtoken::errors::Error>)
    ensures
        res is Ok,
        res matches Ok(t) ==> is_compact_token(t@),
        res matches Ok(t) ==> t@ == jwt_hs256(secret@, sub@, exp),
        res matches Ok(t) ==> jwt_claims_of(secret@, t@) == Some((Some(sub@), Some(exp as u64))),
{
    let mut claims = serde_json::Map::new();
    claims.insert("sub".to_string(), serde_json::Value::String(sub.to_string()));
    claims.insert("exp".to_string(), serde_json::Value::from(exp));
    let key = jsonwebtoken::EncodingKey::from_secret(secret);
    jsonwebtoken::encode(&jsonwebtoken::Header::default(), &serde_json::Value::Object(claims), &key)
}

/// Calls `jsonwebtoken::decode` with `DecodingKey::from_secret(secret)` and
/// `Validation::default()` with its clock comparison turned off
/// (`validate_exp = false`; HS256 and a numeric `"exp"` are still required),
/// and picks the `"sub"` string and the `"exp"` integer out of the claims.
/// Without the clock the outcome is a function of key and token: exactly the
/// tokens that `jwt_claims_of` describes are accepted. Whether the token has
/// expired is decided by the caller against a clock reading.
#[verifier::external_body]
fn jwt_decode(secret: &[u8], token: &str) -> (res: Result<(Option<String>, Option<u64>), jsonwebtoken::errors::Error>)
    ensures
        res matches Ok(p) ==> jwt_claims_of(secret@, token@) == Some((opt_text(p.0), p.1)),
        jwt_claims_of(secret@, token@) is None ==> res is Err,
        jwt_claims_of(secret@, token@) is Some ==> res is Ok,
{
    let key = jsonwebtoken::DecodingKey::from_secret(secret);
    let mut validation = jsonwebtoken::Validation::default();
    validation.validate_exp = false;
    let data = jsonwebtoken::decode::<serde_json::Value>(token, &key, &validation)?;
    let sub = match data.claims.get("sub") {
        Some(serde_json::Value::String(s)) => Some(s.clone()),
        _ => None,
    };
    let exp = match data.claims.get("exp") {
        Some(v) => v.as_u64(),
        None => None,
    };
    Ok((sub, exp))
}

/// Calls `chrono::Utc::now().timestamp()`. The value is the clock's; what
/// holds of every outcome is its range: `timestamp` is an `i32` count of days
/// times 86 400 plus the seconds of the day. `Utc::now` panics if the system
/// clock reads before 1970, which depends on the machine, not on any
/// argument.
#[verifier::external_body]
pub(crate) fn unix_now() -> (res: i64)
    ensures
        -0x1_0000_0000_0000 <= res <= 0x1_0000_0000_0000,
{
    chrono::Utc::now().timestamp()
}

/// The claims that a signature-checked payload stands for: both claims
/// present, `"sub"` a UUID, `"exp"` within `usize`.
pub open spec fn claims_of_payload(sub: Option<Seq<char>>, exp: Option<u64>) -> Option<Claims> {
    match (sub, exp) {
        (Some(s), Some(e)) => match uuid_of_text(s) {
            Some(id) => if e <= usize::MAX {
                Some(Claims { sub: id, exp: e as usize })
            } else {
                None
            },
            None => None,
        },
        _ => None,
    }
}

/// The claims of a token signed with this service's key (`None` for a token
/// that is malformed, badly signed, or whose claims are not a user id and an
/// expiry).
pub open spec fn token_claims(token: Seq<char>) -> Option<Claims> {
    match jwt_claims_of(jwt_secret(), token) {
        Some((sub, exp)) => claims_of_payload(sub, exp),
        None => None,
    }
}

/// The expiry written into a token issued at UNIX time `now`.
pub open spec fn expiry_for(now: int) -> usize {
    (now + TOKEN_LIFETIME_SECS) as usize
}

/// Turns the claims picked out of a decoded token into `Claims`.
pub fn claims_from_payload(sub: Option<String>, exp: Option<u64>) -> (res: Option<Claims>)
    ensures
        res == claims_of_payload(opt_text(sub), exp),
{
    match (sub, exp) {
        (Some(s), Some(e)) => match parse_uuid(s.as_str()) {
            Some(id) => if e <= usize::MAX as u64 {
                Some(Claims { sub: id, exp: e as usize })
            } else {
                None
            },
            None => None,
        },
        _ => None,
    }
}

/// Issues the token of `user_id` at UNIX time `now`: the claims are the user
/// id and `now` plus 24 hours.
pub fn create_jwt_at(user_id: u128, now: i64) -> (res: Result<String, u16>)
    requires
        now <= i64::MAX - TOKEN_LIFETIME_SECS,
    ensures
        res is Ok,
        res matches Ok(t) ==> is_compact_token(t@),
        res matches Ok(t) ==> t@ == jwt_hs256(jwt_secret(), uuid_hyphenated(user_id), expiry_for(now as int)),
        res matches Ok(t) ==> token_claims(t@) == Some(Claims { sub: user_id, exp: expiry_for(now as int) }),
{
    let expiration: i64 = now + TOKEN_LIFETIME_SECS;
    let exp: usize = expiration as usize;
    let sub = uuid_to_string(user_id);
    let secret = JWT_SECRET.as_bytes();
    match jwt_encode(secret, sub.as_str(), exp) {
        Ok(token) => Ok(token),
        Err(_) => Err(500),
    }
}


/// Issues a token for `user_id` that expires 24 hours from now. Whatever the
/// clock reads, a token is issued; it names the user and was issued at some
/// instant within the clock's range.
pub fn create_jwt(user_id: u128) -> (res: Result<String, u16>)
    ensures
        res is Ok,
        res matches Ok(t) ==> is_compact_token(t@),
        res matches Ok(t) ==> token_claims(t@) matches Some(c) && c.sub == user_id,
        res matches Ok(t) ==> exists|now: int|
            #![trigger expiry_for(now)]
            -0x1_0000_0000_0000 <= now <= 0x1_0000_0000_0000
            && t@ == jwt_hs256(jwt_secret(), uuid_hyphenated(user_id), expiry_for(now))
            && token_claims(t@) == Some(Claims { sub: user_id, exp: expiry_for(now) }),
{
    let now = unix_now();
    create_jwt_at(user_id, now)
}

/// Seconds of grace after a token's expiry (the leeway of
/// `jsonwebtoken::Validation::default()`).
pub const EXPIRY_LEEWAY_SECS: i64 = 60;

/// A token whose expiry is `exp` has expired at UNIX time `now`: `exp` lies
/// more than the leeway before `now` (`jsonwebtoken`'s rule).
pub open spec fn has_expired(exp: usize, now: int) -> bool {
    (exp as int) < now - EXPIRY_LEEWAY_SECS
}

/// The claims of a token that is valid at `now`: signed with this service's
/// key, naming a user, and not expired.
pub open spec fn claims_valid_at(token: Seq<char>, now: int) -> Option<Claims> {
    match token_claims(token) {
        Some(c) => if has_expired(c.exp, now) {
            None
        } else {
            Some(c)
        },
        None => None,
    }
}

/// Checks a token with this service's key at UNIX time `now`, and reads its
/// claims: `None` for a token that is malformed, badly signed, without a
/// user id and an expiry, or expired at `now`.
pub fn decode_claims_at(token: &str, now: i64) -> (res: Option<Claims>)
    ensures
        res == claims_valid_at(token@, now as int),
{
    match jwt_decode(JWT_SECRET.as_bytes(), token) {
        Ok((sub, exp)) => match claims_from_payload(sub, exp) {
            Some(c) => if (c.exp as i128) < (now as i128) - (EXPIRY_LEEWAY_SECS as i128) {
                None
            } else {
                Some(c)
            },
            None => None,
        },
        Err(_) => None,
    }
}

/// Checks a token with this service's key and the clock, and reads its
/// claims. A token that is malformed, badly signed or without a user id and
/// an expiry is refused; a token that is accepted yields exactly its claims;
/// the answer is the one `decode_claims_at` gives at the instant read.
pub fn decode_claims(token: &str) -> (res: Option<Claims>)
    ensures
        res matches Some(c) ==> token_claims(token@) == Some(c),
        token_claims(token@) is None ==> res is None,
        exists|now: int|
            #![trigger claims_valid_at(token@, now)]
            -0x1_0000_0000_0000 <= now <= 0x1_0000_0000_0000 && res == claims_valid_at(token@, now),
{
    let now = unix_now();
    decode_claims_at(token, now)
}

/// The token that an `Authorization` header value carries: the text after a
/// leading `"Bearer "`.
pub open spec fn bearer_token_spec(header: Seq<char>) -> Option<Seq<char>> {
    if header.len() >= 7 && header.subrange(0, 7) == "Bearer "@ {
        Some(header.subrange(7, header.len() as int))
    } else {
        None
    }
}

/// Strips the `"Bearer "` prefix of an `Authorization` header value.
pub fn bearer_token(header: &str) -> (res: Option<&str>)
    ensures
        match res {
            Some(t) => bearer_token_spec(header@) == Some(t@),
            None => bearer_token_spec(header@) is None,
        },
{
    let prefix = "Bearer ";
    proof {
        reveal_strlit("Bearer ");
    }
    let len = header.unicode_len();
    if len < 7 {
        return None;
    }
    let mut i: usize = 0;
    while i < 7
        invariant
            i <= 7,
            7 <= len,
            len == header@.len(),
            prefix@ == "Bearer "@,
            prefix@.len() == 7,
            forall|j: int| 0 <= j < i ==> header@[j] == prefix@[j],
        decreases 7 - i,
    {
        if header.get_char(i) != prefix.get_char(i) {
            assert(header@.subrange(0, 7)[i as int] != prefix@[i as int]);
            return None;
        }
        i = i + 1;
    }
    assert(header@.subrange(0, 7) =~= "Bearer "@);
    Some(header.substring_char(7, len))
}

/// What `authorize_bearer` may answer for a header value: 401 for a missing
/// header, a header without the `"Bearer "` prefix or a token without valid
/// claims; when it lets the request pass, the id is the `sub` of the token's
/// claims. (A well-formed token may still be refused once it has expired.)
pub open spec fn authorize_allows(header: Option<Seq<char>>, res: Result<u128, u16>) -> bool {
    match header {
        None => res == Err::<u128, u16>(401),
        Some(h) => match bearer_token_spec(h) {
            None => res == Err::<u128, u16>(401),
            Some(t) => match token_claims(t) {
                None => res == Err::<u128, u16>(401),
                Some(c) => res == Ok::<u128, u16>(c.sub) || res == Err::<u128, u16>(401),
            },
        },
    }
}

pub open spec fn opt_str(o: Option<&str>) -> Option<Seq<char>> {
    match o {
        Some(s) => Some(s@),
        None => None,
    }
}

/// The answer to a header value at UNIX time `now`: the user id of a
/// `"Bearer <token>"` whose token is valid at `now`, else 401.
pub open spec fn authorize_at(header: Option<Seq<char>>, now: int) -> Result<u128, u16> {
    match header {
        None => Err(401),
        Some(h) => match bearer_token_spec(h) {
            None => Err(401),
            Some(t) => match claims_valid_at(t, now) {
                Some(c) => Ok(c.sub),
                None => Err(401),
            },
        },
    }
}

/// Decides at UNIX time `now` whether a request may pass: its
/// `Authorization` header must read `"Bearer <token>"` with a token that this
/// service signed, that names a user and that has not expired at `now`; the
/// answer is that user's id. Every refusal is 401.
pub fn authorize_bearer_at(header: Option<&str>, now: i64) -> (res: Result<u128, u16>)
    ensures
        res == authorize_at(opt_str(header), now as int),
        authorize_allows(opt_str(header), res),
{
    match header {
        None => Err(401),
        Some(h) => match bearer_token(h) {
            None => Err(401),
            Some(token) => match decode_claims_at(token, now) {
                Some(claims) => Ok(claims.sub),
                None => Err(401),
            },
        },
    }
}

/// Decides whether a request may pass, at the instant the clock reads: as
/// `authorize_bearer_at` does at that instant.
pub fn authorize_bearer(header: Option<&str>) -> (res: Result<u128, u16>)
    ensures
        authorize_allows(opt_str(header), res),
        exists|now: int|
            #![trigger authorize_at(opt_str(header), now)]
            -0x1_0000_0000_0000 <= now <= 0x1_0000_0000_0000 && res == authorize_at(opt_str(header), now),
{
    let now = unix_now();
    authorize_bearer_at(header, now)
}


/// A header `"Bearer " + token` carries exactly `token`.
pub proof fn bearer_header_carries_token(token: Seq<char>)
    ensures
        bearer_token_spec("Bearer "@ + token) == Some(token),
{
    reveal_strlit("Bearer ");
    let h = "Bearer "@ + token;
    assert(h.subrange(0, 7) =~= "Bearer "@);
    assert(h.subrange(7, h.len() as int) =~= token);
}

/// A token issued for `user`, sent back as `Authorization: Bearer <token>`,
/// lets the request pass as `user` and as no one else; the only other answer
/// is 401 (once the token has expired).
pub proof fn issued_token_authenticates_its_user(user: u128, token: Seq<char>, res: Result<u128, u16>)
    requires
        token_claims(token) matches Some(c) && c.sub == user,
        authorize_allows(Some("Bearer "@ + token), res),
    ensures
        res == Ok::<u128, u16>(user) || res == Err::<u128, u16>(401),
{
    bearer_header_carries_token(token);
}


/// A token sent bare, without the `"Bearer "` prefix, is refused with 401:
/// a compact token never begins with `"Bearer "`, whose space is no
/// base64url character.
pub proof fn raw_token_is_refused(token: Seq<char>, res: Result<u128, u16>)
    requires
        is_compact_token(token),
        authorize_allows(Some(token), res),
    ensures
        bearer_token_spec(token) is None,
        res == Err::<u128, u16>(401),
{
    reveal_strlit("Bearer ");
    if token.len() >= 7 && token.subrange(0, 7) == "Bearer "@ {
        assert(token.subrange(0, 7)[6] == token[6]);
        assert(token[6] == ' ');
        assert(is_base64url_char(token[6]) || token[6] == '.');
        assert(false);
    }
}

/// A request with `"Bearer " + token` passes, at a given instant, exactly
/// when the token carries valid claims that have not expired by then (their
/// expiry plus the leeway is not before the instant), and it passes as the
/// token's user.
pub proof fn bearer_token_passes_until_expiry(token: Seq<char>, now: int)
    requires
        token_claims(token) is Some,
    ensures
        token_claims(token) matches Some(c) ==> (now <= c.exp + EXPIRY_LEEWAY_SECS
            ==> authorize_at(Some("Bearer "@ + token), now) == Ok::<u128, u16>(c.sub)),
        token_claims(token) matches Some(c) ==> (now > c.exp + EXPIRY_LEEWAY_SECS
            ==> authorize_at(Some("Bearer "@ + token), now) == Err::<u128, u16>(401)),
{
    bearer_header_carries_token(token);
}

/// A token issued for `user` at instant `issued` lets requests pass as
/// `user` up to one day (plus the leeway) after `issued`, and not after.
pub proof fn issued_token_is_valid_for_a_day(user: u128, issued: int, now: int, token: Seq<char>)
    requires
        0 <= issued + TOKEN_LIFETIME_SECS <= usize::MAX,
        token_claims(token) == Some(Claims { sub: user, exp: expiry_for(issued) }),
    ensures
        now <= issued + TOKEN_LIFETIME_SECS + EXPIRY_LEEWAY_SECS
            ==> authorize_at(Some("Bearer "@ + token), now) == Ok::<u128, u16>(user),
        now > issued + TOKEN_LIFETIME_SECS + EXPIRY_LEEWAY_SECS
            ==> authorize_at(Some("Bearer "@ + token), now) == Err::<u128, u16>(401),
{
    bearer_token_passes_until_expiry(token, now);
    assert(expiry_for(issued) as int == issued + TOKEN_LIFETIME_SECS);
}

/// Tokens depend on the user and the instant alone: one user at one instant
/// gets one token, and tokens of two users differ.
pub proof fn tokens_are_per_user_and_instant(u: u128, v: u128, now: int, t1: Seq<char>, t2: Seq<char>)
    requires
        t1 == jwt_hs256(jwt_secret(), uuid_hyphenated(u), expiry_for(now)),
        token_claims(t1) matches Some(c) && c.sub == u,
        t2 == jwt_hs256(jwt_secret(), uuid_hyphenated(v), expiry_for(now)),
        token_claims(t2) matches Some(c) && c.sub == v,
    ensures
        u == v ==> t1 == t2,
        u != v ==> t1 != t2,
{
}

} // verus!
