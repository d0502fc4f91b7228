//! Access tokens: HS256-signed JSON Web Tokens whose claims carry the user's
//! id and an expiry time.

use vstd::prelude::*;
use rand::{Rng, SeedableRng};
use crate::text::{decimal, push_decimal, push_str};

verus! {

/// The claims that an access token carries.
pub struct Claims {
    /// The id of the user the token was issued to.
    pub user_id: usize,
    /// Expiry, as a Unix timestamp in seconds.
    pub exp: u64,
}

/// The expiry written into every token that [`create_jwt`] issues.
pub const TOKEN_EXPIRY: u64 = 10000000000;

/// Why a token could not be issued or accepted.
#[derive(PartialEq, Eq, Structural)]
pub enum TokenError {
    /// The token's expiry lies in the past (beyond the allowed leeway).
    Expired,
    /// The token was refused for any other reason: bad format, wrong
    /// signature, wrong algorithm, missing `exp` claim, ...
    Rejected,
    /// The token was accepted but its claims lack a user id or an expiry
    /// of the right type.
    MissingClaims,
    /// The token could not be produced.
    EncodingFailed,
}

/// The JSON key of the user-id claim.
pub open spec fn user_id_key() -> Seq<char> {
    seq!['u', 's', 'e', 'r', '_', 'i', 'd']
}

/// The JSON key of the expiry claim.
pub open spec fn exp_key() -> Seq<char> {
    seq!['e', 'x', 'p']
}

/// The JSON text of the claims `{"user_id":<user_id>,"exp":<exp>}`, with
/// the fields in this order and no white space.
pub open spec fn claims_json(user_id: nat, exp: nat) -> Seq<char> {
    seq!['{', '"'] + user_id_key() + seq!['"', ':'] + decimal(user_id) + seq![',', '"'] + exp_key()
        + seq!['"', ':'] + decimal(exp) + seq!['}']
}

/// The HS256 token that `jsonwebtoken::encode` produces for the JSON
/// payload `payload`, signed with the secret `secret`.
pub uninterp spec fn hs256_token(payload: Seq<char>, secret: Seq<char>) -> Seq<char>;

/// The fields of the JSON object carried by a token, in the order of their
/// keys, each with its value when that value is an unsigned 64-bit integer.
pub uninterp spec fn token_claim_fields(token: Seq<char>) -> Seq<(Seq<char>, Option<u64>)>;

/// The plain view of a list of claim fields.
pub open spec fn field_views(fields: Seq<(String, Option<u64>)>) -> Seq<(Seq<char>, Option<u64>)> {
    fields.map_values(|f: (String, Option<u64>)| (f.0@, f.1))
}

/// Signs the JSON text `payload` as the claims of an HS256 token.
///
/// Trusted: calls `serde_json::value::RawValue::from_string` to carry the
/// text unchanged and `jsonwebtoken::encode` with an HS256 header and the
/// secret's bytes as key. The contract claims that a produced token is
/// `hs256_token(payload, secret)`, and that a payload in the claims format
/// above, which is valid JSON, is always signed: the source returns an error
/// only for invalid JSON or a key of another algorithm family.
#[verifier::external_body]
fn sign_payload(payload: String, secret: &str) -> (token: Result<String, TokenError>)
    ensures
        token matches Ok(t) ==> t@ == hs256_token(payload@, secret@),
        forall|u: nat, e: nat| #![trigger claims_json(u, e)]
            payload@ == claims_json(u, e) ==> token is Ok,
        token matches Err(x) ==> x == TokenError::EncodingFailed,
{
    let raw = match serde_json::value::RawValue::from_string(payload) {
        Ok(raw) => raw,
        Err(_) => return Err(TokenError::EncodingFailed),
    };
    let header = jsonwebtoken::Header::new(jsonwebtoken::Algorithm::HS256);
    let key = jsonwebtoken::EncodingKey::from_secret(secret.as_bytes());
    match jsonwebtoken::encode(&header, &raw, &key) {
        Ok(t) => Ok(t),
        Err(_) => Err(TokenError::EncodingFailed),
    }
}

/// Checks a token's signature and expiry and returns its claim fields.
///
/// Trusted: calls `jsonwebtoken::decode` into a map from keys to JSON
/// values, with `Validation::new(Algorithm::HS256)` (expiry checked against
/// the current time with 60 s of leeway, `exp` required), and hands out each
/// field with `Value::as_u64`. The contract claims: the fields handed out
/// are the token's own claim fields (a function of the token alone); an
/// expired token gives `Expired` and every other refusal `Rejected`; and for
/// a token that `hs256_token` made from a claims payload with this secret,
/// the decoded fields are those of the payload and the only possible
/// refusal is expiry. Whether such a token has expired depends on the clock
/// and is left unsaid.
#[verifier::external_body]
fn decode_token(token: &str, secret: &str) -> (fields: Result<Vec<(String, Option<u64>)>, TokenError>)
    ensures
        fields matches Ok(f) ==> field_views(f@) == token_claim_fields(token@),
        fields matches Err(x) ==> (x == TokenError::Expired || x == TokenError::Rejected),
        forall|u: nat, e: nat| #![trigger claims_json(u, e)]
            u <= u64::MAX && e <= u64::MAX && token@ == hs256_token(claims_json(u, e), secret@) ==> {
                &&& fields matches Ok(f) ==> field_views(f@) == seq![
                    (exp_key(), Some(e as u64)),
                    (user_id_key(), Some(u as u64)),
                ]
                &&& fields matches Err(x) ==> x == TokenError::Expired
            },
{
    let key = jsonwebtoken::DecodingKey::from_secret(secret.as_bytes());
    let validation = jsonwebtoken::Validation::new(jsonwebtoken::Algorithm::HS256);
    match jsonwebtoken::decode::<std::collections::BTreeMap<String, serde_json::Value>>(token, &key, &validation) {
        Ok(data) => Ok(data.claims.into_iter().map(|(k, v)| (k, v.as_u64())).collect()),
        Err(e) => match e.kind() {
            jsonwebtoken::errors::ErrorKind::ExpiredSignature => Err(TokenError::Expired),
            _ => Err(TokenError::Rejected),
        },
    }
}

/// The JSON text of the claims of a token for `user_id` expiring at `exp`.
pub fn claims_payload(user_id: u64, exp: u64) -> (payload: String)
    ensures
        payload@ == claims_json(user_id as nat, exp as nat),
{
    let mut s = String::new();
    push_str(&mut s, "{\"user_id\":");
    push_decimal(&mut s, user_id);
    push_str(&mut s, ",\"exp\":");
    push_decimal(&mut s, exp);
    push_str(&mut s, "}");
    proof {
        reveal_strlit("{\"user_id\":");
        reveal_strlit(",\"exp\":");
        reveal_strlit("}");
        assert(s@ =~= claims_json(user_id as nat, exp as nat));
    }
    s
}

/// Issues the access token of user `user_id`: an HS256 token signed with
/// `secret` whose claims are `{"user_id":<user_id>,"exp":10000000000}`.
pub fn create_jwt(user_id: usize, secret: &str) -> (token: Result<String, TokenError>)
    ensures
        token is Ok,
        token matches Ok(t) ==> t@ == hs256_token(claims_json(user_id as nat, TOKEN_EXPIRY as nat), secret@),
{
    let payload = claims_payload(user_id as u64, TOKEN_EXPIRY);
    sign_payload(payload, secret)
}

/// The value of the first field with key `key`, if there is one.
pub open spec fn field_lookup(fields: Seq<(Seq<char>, Option<u64>)>, key: Seq<char>) -> Option<Option<u64>>
    decreases fields.len(),
{
    if fields.len() == 0 {
        None
    } else if fields[0].0 == key {
        Some(fields[0].1)
    } else {
        field_lookup(fields.drop_first(), key)
    }
}

/// The claims that a list of claim fields holds: both a user id that fits
/// a `usize` and an expiry, each an unsigned integer.
pub open spec fn claims_of_fields(fields: Seq<(Seq<char>, Option<u64>)>) -> Option<Claims> {
    match (field_lookup(fields, user_id_key()), field_lookup(fields, exp_key())) {
        (Some(Some(u)), Some(Some(e))) => if u <= usize::MAX {
            Some(Claims { user_id: u as usize, exp: e })
        } else {
            None
        },
        _ => None,
    }
}

fn lookup_field(fields: &Vec<(String, Option<u64>)>, key: &String) -> (r: Option<Option<u64>>)
    ensures
        r == field_lookup(field_views(fields@), key@),
{
    let mut i: usize = 0;
    assert(field_views(fields@).skip(0) =~= field_views(fields@));
    while i < fields.len()
        invariant
            i <= fields.len(),
            field_lookup(field_views(fields@), key@) == field_lookup(field_views(fields@).skip(i as int), key@),
        decreases fields.len() - i,
    {
        let ghost rest = field_views(fields@).skip(i as int);
        assert(rest.drop_first() =~= field_views(fields@).skip(i + 1));
        if fields[i].0 == *key {
            return Some(fields[i].1);
        }
        i = i + 1;
    }
    assert(field_views(fields@).skip(i as int).len() == 0);
    None
}

/// The claims held by the fields that a token's decoding handed out.
pub fn claims_from_fields(fields: &Vec<(String, Option<u64>)>) -> (claims: Option<Claims>)
    ensures
        claims == claims_of_fields(field_views(fields@)),
{
    let user_id_name = String::from_str("user_id");
    let exp_name = String::from_str("exp");
    proof {
        reveal_strlit("user_id");
        reveal_strlit("exp");
        assert(user_id_name@ =~= user_id_key());
        assert(exp_name@ =~= exp_key());
    }
    let user_id = lookup_field(fields, &user_id_name);
    let exp = lookup_field(fields, &exp_name);
    match (user_id, exp) {
        (Some(Some(u)), Some(Some(e))) => {
            if u <= usize::MAX as u64 {
                Some(Claims { user_id: u as usize, exp: e })
            } else {
                None
            }
        },
        _ => None,
    }
}

/// The fields decoded from an issued token hold exactly the claims the
/// token was issued with, when its user id fits a `usize`, and no claims
/// otherwise.
pub proof fn lemma_claims_of_issued_fields(u: u64, e: u64)
    ensures
        claims_of_fields(seq![(exp_key(), Some(e)), (user_id_key(), Some(u))]) == (if u <= usize::MAX {
            Some(Claims { user_id: u as usize, exp: e })
        } else {
            None
        }),
{
    let fields = seq![(exp_key(), Some(e)), (user_id_key(), Some(u))];
    assert(exp_key() != user_id_key()) by {
        assert(exp_key().len() != user_id_key().len());
    }
    assert(fields.drop_first() =~= seq![(user_id_key(), Some(u))]);
    assert(field_lookup(fields, exp_key()) == Some(Some(e)));
    assert(field_lookup(fields.drop_first(), user_id_key()) == Some(Some(u)));
    assert(field_lookup(fields, user_id_key()) == Some(Some(u)));
}

/// Checks an access token against `secret` and returns its claims.
///
/// A token that decodes gives the claims of its fields, or `MissingClaims`
/// where they lack one; a refused token gives the reason. A token that
/// [`create_jwt`] issued for some user with this secret gives back that
/// user's claims, unless it has expired. The claims are read from a map of
/// the payload's fields, so a payload that repeats a key counts with that
/// key's last value.
pub fn validate_jwt(token: &str, secret: &str) -> (claims: Result<Claims, TokenError>)
    ensures
        claims matches Ok(c) ==> claims_of_fields(token_claim_fields(token@)) == Some(c),
        claims matches Err(x) ==> (x == TokenError::MissingClaims <==> claims_of_fields(token_claim_fields(token@)) is None
            && x != TokenError::Expired && x != TokenError::Rejected),
        claims matches Err(x) ==> x != TokenError::EncodingFailed,
        forall|u: nat, e: nat| #![trigger claims_json(u, e)]
            u <= usize::MAX && e <= u64::MAX && token@ == hs256_token(claims_json(u, e), secret@) ==>
                (claims == Ok::<Claims, TokenError>(Claims { user_id: u as usize, exp: e as u64 })
                    || claims == Err::<Claims, TokenError>(TokenError::Expired)),
        forall|u: nat, e: nat| #![trigger claims_json(u, e)]
            usize::MAX < u <= u64::MAX && e <= u64::MAX && token@ == hs256_token(claims_json(u, e), secret@) ==>
                (claims == Err::<Claims, TokenError>(TokenError::MissingClaims)
                    || claims == Err::<Claims, TokenError>(TokenError::Expired)),
{
    let decoded = decode_token(token, secret);
    proof {
        assert forall|u: nat, e: nat| #![trigger claims_json(u, e)]
            u <= u64::MAX && e <= u64::MAX && token@ == hs256_token(claims_json(u, e), secret@)
            implies (decoded matches Ok(f) ==> claims_of_fields(field_views(f@)) == (if u <= usize::MAX {
                Some(Claims { user_id: u as usize, exp: e as u64 })
            } else {
                None
            })) by {
            lemma_claims_of_issued_fields(u as u64, e as u64);
        }
    }
    match decoded {
        Ok(fields) => match claims_from_fields(&fields) {
            Some(c) => Ok(c),
            None => Err(TokenError::MissingClaims),
        },
        Err(x) => Err(x),
    }
}

/// Whether `c` is an ASCII letter or digit.
pub open spec fn is_ascii_alphanumeric(c: char) -> bool {
    ('A' <= c && c <= 'Z') || ('a' <= c && c <= 'z') || ('0' <= c && c <= '9')
}

/// A random string of `len` ASCII letters and digits.
///
/// Trusted: samples `rand::distributions::Alphanumeric` from a
/// `rand::rngs::StdRng` seeded by `from_entropy`; the contract claims only
/// the length and the alphabet, which is what the source shows.
#[verifier::external_body]
fn random_alphanumeric(len: usize) -> (s: String)
    ensures
        s@.len() == len,
        forall|i: int| 0 <= i < len ==> is_ascii_alphanumeric(#[trigger] s@[i]),
{
    rand::rngs::StdRng::from_entropy().sample_iter(&rand::distributions::Alphanumeric).take(len).map(char::from).collect()
}

/// A fresh random signing secret of 32 ASCII letters and digits.
pub fn _generate_secret() -> (secret: String)
    ensures
        secret@.len() == 32,
        forall|i: int| 0 <= i < 32 ==> is_ascii_alphanumeric(#[trigger] secret@[i]),
{
    random_alphanumeric(32)
}

} // verus!
