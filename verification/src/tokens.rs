//! Signed tokens: a subject (the user's identifier) and an expiry instant,
//! signed with HMAC-SHA256 under a shared secret.
//!
//! Signing and signature checking are done by the `jwt`, `hmac` and `sha2`
//! crates. The library fixes which claims a token carries and how they are
//! read back.

use crate::entity_id::{format_uuid, hyphenated, parse_uuid, uuid_from_text};
use crate::text::{
    decimal, lemma_written_number_reads_back, parse_unsigned, parsed_unsigned, text_eq,
    u64_to_decimal,
};
use hmac::Mac;
use jwt::{SignWithKey, VerifyWithKey};
use vstd::prelude::*;

verus! {

/// Name of the claim that holds the user's identifier.
pub const SUBJECT_CLAIM: &'static str = "sub";

/// Name of the claim that holds the expiry instant.
pub const EXPIRATION_CLAIM: &'static str = "exp";

/// Why a token could not be made or read.
#[derive(Debug, Clone, Copy, PartialEq, Eq, Structural)]
pub enum TokenError {
    /// The signing step failed.
    Signing,
    /// The token is malformed, or its signature does not match the key.
    Verification,
    /// The token has no subject claim.
    MissingSubject,
    /// The subject claim is not a UUID.
    InvalidSubject,
    /// The token has no expiry claim.
    MissingExpiration,
    /// The expiry claim is not an unsigned 64-bit decimal number.
    InvalidExpiration,
}

impl TokenError {
    pub open spec fn message_text(self) -> Seq<char> {
        match self {
            TokenError::Signing => "JWTに署名できませんでした。"@,
            TokenError::Verification => "JWTを検証できませんでした。"@,
            TokenError::MissingSubject => "JWTにsubが含まれていません。"@,
            TokenError::InvalidSubject => "JWTに含まれているユーザーIDが不正です。"@,
            TokenError::MissingExpiration => "JWTにexpが含まれていません。"@,
            TokenError::InvalidExpiration => "JWTに含まれている有効期限が不正です。"@,
        }
    }

    /// The message shown to a caller.
    pub fn message(&self) -> (text: String)
        ensures
            text@ == self.message_text(),
    {
        match self {
            TokenError::Signing => "JWTに署名できませんでした。".to_owned(),
            TokenError::Verification => "JWTを検証できませんでした。".to_owned(),
            TokenError::MissingSubject => "JWTにsubが含まれていません。".to_owned(),
            TokenError::InvalidSubject => "JWTに含まれているユーザーIDが不正です。".to_owned(),
            TokenError::MissingExpiration => "JWTにexpが含まれていません。".to_owned(),
            TokenError::InvalidExpiration => "JWTに含まれている有効期限が不正です。".to_owned(),
        }
    }
}

/// What a verified token says.
#[derive(Debug, Clone, Copy, PartialEq, Eq, Structural)]
pub struct Claim {
    /// The user's identifier.
    pub user_id: u128,
    /// The instant, in seconds since the Unix epoch, at which the token expires.
    pub expiration: u64,
}

/// The token that `jwt`'s `sign_with_key` makes of a two-entry claims map
/// under an HMAC-SHA256 key built from `secret_key`, or `None` where key
/// construction or signing fails.
pub uninterp spec fn signed_token(
    first_name: Seq<char>,
    first_value: Seq<char>,
    second_name: Seq<char>,
    second_value: Seq<char>,
    secret_key: Seq<char>,
) -> Option<Seq<char>>;

/// The claims that `jwt`'s `verify_with_key` reads from a token as a map from
/// strings to strings, listed in key order, or `None` where the token is
/// rejected.
pub uninterp spec fn verified_claims(token: Seq<char>, secret_key: Seq<char>) -> Option<
    Seq<(Seq<char>, Seq<char>)>,
>;

/// The entries of a claims list as pairs of character sequences.
pub open spec fn entries_view(entries: Seq<(String, String)>) -> Seq<(Seq<char>, Seq<char>)> {
    entries.map_values(|entry: (String, String)| (entry.0@, entry.1@))
}

/// Builds an HMAC-SHA256 key from the secret (`Hmac::new_from_slice`), puts the
/// two claims into a `BTreeMap` and signs it with `SignWithKey::sign_with_key`.
/// The contract names the result; it promises nothing about the token's text.
/// It claims that the token verifies under the same secret and gives the
/// claims back: the second claim, and the first where its name is another.
#[verifier::external_body]
fn sign_two_claims(
    first_name: &str,
    first_value: &str,
    second_name: &str,
    second_value: &str,
    secret_key: &str,
) -> (token: Option<String>)
    ensures
        token matches Some(text) ==> signed_token(
            first_name@,
            first_value@,
            second_name@,
            second_value@,
            secret_key@,
        ) == Some(text@),
        token is None ==> signed_token(
            first_name@,
            first_value@,
            second_name@,
            second_value@,
            secret_key@,
        ) is None,
        token matches Some(text) ==> (verified_claims(text@, secret_key@) matches Some(entries)
            && claim_value(entries, second_name@) == Some(second_value@) && (first_name@
            != second_name@ ==> claim_value(entries, first_name@) == Some(first_value@))),
{
    let key: hmac::Hmac<sha2::Sha256> = hmac::Hmac::new_from_slice(secret_key.as_bytes()).ok()?;
    let mut claims = std::collections::BTreeMap::new();
    claims.insert(first_name, first_value);
    claims.insert(second_name, second_value);
    claims.sign_with_key(&key).ok()
}

/// Builds an HMAC-SHA256 key from the secret (`Hmac::new_from_slice`) and reads
/// the token with `VerifyWithKey::verify_with_key` as a `BTreeMap` of strings,
/// handed out as its list of entries. The contract names the result.
#[verifier::external_body]
fn verify_claims(token: &str, secret_key: &str) -> (claims: Option<Vec<(String, String)>>)
    ensures
        claims matches Some(entries) ==> verified_claims(token@, secret_key@) == Some(
            entries_view(entries@),
        ),
        claims is None ==> verified_claims(token@, secret_key@) is None,
{
    let key: hmac::Hmac<sha2::Sha256> = hmac::Hmac::new_from_slice(secret_key.as_bytes()).ok()?;
    let claims: std::collections::BTreeMap<String, String> = token.verify_with_key(&key).ok()?;
    Some(claims.into_iter().collect())
}

/// The token for a user and an expiry instant: the subject claim holds the
/// identifier's hyphenated text, the expiry claim the instant in decimal.
pub open spec fn token_for(user_id: u128, secret_key: Seq<char>, expiration: u64) -> Option<
    Seq<char>,
> {
    signed_token(
        SUBJECT_CLAIM@,
        hyphenated(user_id),
        EXPIRATION_CLAIM@,
        decimal(expiration as nat),
        secret_key,
    )
}

/// The value of the first entry with the given name.
pub open spec fn claim_value(entries: Seq<(Seq<char>, Seq<char>)>, name: Seq<char>) -> Option<
    Seq<char>,
>
    decreases entries.len(),
{
    if entries.len() == 0 {
        None
    } else if entries[0].0 == name {
        Some(entries[0].1)
    } else {
        claim_value(entries.drop_first(), name)
    }
}

/// What a list of verified claims says: the subject must be there and be a
/// UUID, then the expiry must be there and be an unsigned 64-bit decimal
/// number; the first of these that fails decides the error.
pub open spec fn claim_of(entries: Seq<(Seq<char>, Seq<char>)>) -> Result<Claim, TokenError> {
    match claim_value(entries, SUBJECT_CLAIM@) {
        None => Err(TokenError::MissingSubject),
        Some(subject) => match uuid_from_text(subject) {
            None => Err(TokenError::InvalidSubject),
            Some(user_id) => match claim_value(entries, EXPIRATION_CLAIM@) {
                None => Err(TokenError::MissingExpiration),
                Some(expiry) => match parsed_unsigned(expiry, u64::MAX as nat) {
                    None => Err(TokenError::InvalidExpiration),
                    Some(expiration) => Ok(Claim { user_id, expiration: expiration as u64 }),
                },
            },
        },
    }
}

/// What reading a token gives, from what the signature check found.
pub open spec fn claim_outcome(verified: Option<Seq<(Seq<char>, Seq<char>)>>) -> Result<
    Claim,
    TokenError,
> {
    match verified {
        None => Err(TokenError::Verification),
        Some(entries) => claim_of(entries),
    }
}

/// What making a pair of tokens gives, from what signing each gave: the
/// pair where both were signed, a signing error otherwise.
pub open spec fn token_pair_outcome(
    access: Option<Seq<char>>,
    refresh: Option<Seq<char>>,
) -> Result<(Seq<char>, Seq<char>), TokenError> {
    match (access, refresh) {
        (Some(a), Some(r)) => Ok((a, r)),
        _ => Err(TokenError::Signing),
    }
}

/// Whether a token, checked against the secret, says that it belongs to the
/// user and expires at the instant.
pub open spec fn reads_back(
    token: Seq<char>,
    secret_key: Seq<char>,
    user_id: u128,
    expiration: u64,
) -> bool {
    claim_outcome(verified_claims(token, secret_key)) == Ok::<Claim, TokenError>(
        Claim { user_id, expiration },
    )
}

/// Makes the signed token of a user that expires at `expiration`. Checked
/// against the same secret, the token says so.
pub fn generate_jwt(user_id: u128, secret_key: &str, expiration: u64) -> (token: Result<
    String,
    TokenError,
>)
    ensures
        token matches Ok(text) ==> token_for(user_id, secret_key@, expiration) == Some(text@),
        token matches Ok(text) ==> reads_back(text@, secret_key@, user_id, expiration),
        token matches Err(e) ==> token_for(user_id, secret_key@, expiration) is None && e
            == TokenError::Signing,
{
    let subject = format_uuid(user_id);
    let expiry = u64_to_decimal(expiration);
    proof {
        reveal_strlit("sub");
        reveal_strlit("exp");
        assert(SUBJECT_CLAIM@ != EXPIRATION_CLAIM@) by {
            assert(SUBJECT_CLAIM@[0] == 's');
            assert(EXPIRATION_CLAIM@[0] == 'e');
        }
        lemma_written_number_reads_back(expiration as nat, u64::MAX as nat);
    }
    match sign_two_claims(
        SUBJECT_CLAIM,
        subject.as_str(),
        EXPIRATION_CLAIM,
        expiry.as_str(),
        secret_key,
    ) {
        Some(text) => Ok(text),
        None => Err(TokenError::Signing),
    }
}

/// Makes the access token and the refresh token of a user, each with its own
/// expiry instant. Fails if either cannot be signed.
pub fn generate_jwt_pair(
    user_id: u128,
    secret_key: &str,
    access_expiration: u64,
    refresh_expiration: u64,
) -> (pair: Result<(String, String), TokenError>)
    ensures
        pair matches Ok(tokens) ==> token_pair_outcome(
            token_for(user_id, secret_key@, access_expiration),
            token_for(user_id, secret_key@, refresh_expiration),
        ) == Ok::<(Seq<char>, Seq<char>), TokenError>((tokens.0@, tokens.1@)),
        pair matches Err(e) ==> token_pair_outcome(
            token_for(user_id, secret_key@, access_expiration),
            token_for(user_id, secret_key@, refresh_expiration),
        ) == Err::<(Seq<char>, Seq<char>), TokenError>(e),
        pair matches Ok(tokens) ==> reads_back(
            tokens.0@,
            secret_key@,
            user_id,
            access_expiration,
        ) && reads_back(tokens.1@, secret_key@, user_id, refresh_expiration),
{
    let access = match generate_jwt(user_id, secret_key, access_expiration) {
        Ok(text) => text,
        Err(e) => {
            return Err(e);
        },
    };
    let refresh = match generate_jwt(user_id, secret_key, refresh_expiration) {
        Ok(text) => text,
        Err(e) => {
            return Err(e);
        },
    };
    Ok((access, refresh))
}

/// Finds the value of the first entry with the given name.
pub fn find_claim<'a>(entries: &'a Vec<(String, String)>, name: &str) -> (value: Option<
    &'a String,
>)
    ensures
        value matches Some(found) ==> claim_value(entries_view(entries@), name@) == Some(found@),
        value is None ==> claim_value(entries_view(entries@), name@) is None,
{
    let ghost all = entries_view(entries@);
    let mut i: usize = 0;
    assert(all.skip(0) =~= all);
    while i < entries.len()
        invariant
            i <= entries.len(),
            all == entries_view(entries@),
            claim_value(all, name@) == claim_value(all.skip(i as int), name@),
        decreases entries.len() - i,
    {
        let ghost rest = all.skip(i as int);
        assert(rest[0] == (entries@[i as int].0@, entries@[i as int].1@));
        assert(rest.drop_first() =~= all.skip(i + 1));
        if text_eq(entries[i].0.as_str(), name) {
            return Some(&entries[i].1);
        }
        i += 1;
    }
    assert(all.skip(i as int).len() == 0);
    None
}

/// Reads subject and expiry out of a list of verified claims.
pub fn claim_from_entries(entries: &Vec<(String, String)>) -> (claim: Result<Claim, TokenError>)
    ensures
        claim == claim_of(entries_view(entries@)),
{
    let subject = match find_claim(entries, SUBJECT_CLAIM) {
        Some(text) => text,
        None => {
            return Err(TokenError::MissingSubject);
        },
    };
    let user_id = match parse_uuid(subject.as_str()) {
        Some(value) => value,
        None => {
            return Err(TokenError::InvalidSubject);
        },
    };
    let expiry = match find_claim(entries, EXPIRATION_CLAIM) {
        Some(text) => text,
        None => {
            return Err(TokenError::MissingExpiration);
        },
    };
    match parse_unsigned(expiry.as_str(), u64::MAX) {
        Some(expiration) => Ok(Claim { user_id, expiration }),
        None => Err(TokenError::InvalidExpiration),
    }
}

/// Checks a token's signature against the secret and reads its claims.
pub fn get_claim_from_jwt(token: &str, secret_key: &str) -> (claim: Result<Claim, TokenError>)
    ensures
        claim == claim_outcome(verified_claims(token@, secret_key@)),
{
    match verify_claims(token, secret_key) {
        Some(entries) => claim_from_entries(&entries),
        None => Err(TokenError::Verification),
    }
}

} // verus!
