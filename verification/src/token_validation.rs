//! Token validation: given the stored session record, the tokens that the
//! client presented and the current instant, decide whether the request may
//! proceed, may proceed with a token refresh, or is refused.

use crate::clock::current_unix_epoch;
use crate::session::{minted, SessionData, SessionRecord};
use crate::text::text_eq;
use vstd::prelude::*;

verus! {

/// The verdict on the tokens of a request.
#[derive(Debug, Clone, Copy, PartialEq, Eq, Structural)]
pub enum TokenValidation {
    /// The access token is valid: the request may proceed.
    Succeed,
    /// The access token has expired and the refresh token is valid: the
    /// request may proceed, and the tokens must be replaced.
    RequiredRefresh,
    /// The request is refused.
    Failure,
}

/// The verdict as a function of the stored record, the presented tokens and
/// the current instant.
///
/// An expired refresh token ends the session whatever else holds. Before the
/// access token expires, only the access token counts; after that, only the
/// refresh token. Tokens are compared as exact strings.
pub open spec fn token_verdict(
    record: SessionRecord,
    access_token: Seq<char>,
    refresh_token: Seq<char>,
    now: nat,
) -> TokenValidation {
    if now > record.refresh_expiration {
        TokenValidation::Failure
    } else if now <= record.access_expiration {
        if access_token == record.access_token {
            TokenValidation::Succeed
        } else {
            TokenValidation::Failure
        }
    } else if refresh_token == record.refresh_token {
        TokenValidation::RequiredRefresh
    } else {
        TokenValidation::Failure
    }
}

/// Decides on the presented tokens as of the instant `now`.
pub fn inspect_token_at(
    session_data: &SessionData,
    access_token: &str,
    refresh_token: &str,
    now: u64,
) -> (verdict: TokenValidation)
    ensures
        verdict == token_verdict(session_data@, access_token@, refresh_token@, now as nat),
{
    if session_data.refresh_expiration < now {
        return TokenValidation::Failure;
    }
    if now <= session_data.access_expiration {
        if text_eq(session_data.access_token.as_str(), access_token) {
            return TokenValidation::Succeed;
        } else {
            return TokenValidation::Failure;
        }
    }
    if text_eq(session_data.refresh_token.as_str(), refresh_token) {
        TokenValidation::RequiredRefresh
    } else {
        TokenValidation::Failure
    }
}

/// Decides on the presented tokens as of now. The instant is read from the
/// system clock once; the verdict is the one for whatever it read.
pub fn inspect_token_by_session_data(
    session_data: &SessionData,
    access_token: &str,
    refresh_token: &str,
) -> (verdict: TokenValidation)
    ensures
        exists|now: u64|
            verdict == token_verdict(session_data@, access_token@, refresh_token@, now as nat),
        verdict == TokenValidation::Succeed ==> access_token@ == session_data@.access_token,
        verdict == TokenValidation::RequiredRefresh ==> refresh_token@
            == session_data@.refresh_token,
{
    let now = current_unix_epoch();
    let verdict = inspect_token_at(session_data, access_token, refresh_token, now);
    assert(verdict == token_verdict(session_data@, access_token@, refresh_token@, now as nat));
    verdict
}

/// Once the refresh token has expired the verdict is `Failure`, whatever the
/// tokens and whatever the access token's expiry.
pub proof fn lemma_expired_refresh_token_fails(
    record: SessionRecord,
    access_token: Seq<char>,
    refresh_token: Seq<char>,
    now: nat,
)
    requires
        now > record.refresh_expiration,
    ensures
        token_verdict(record, access_token, refresh_token, now) == TokenValidation::Failure,
{
}

/// While the access token of a well-formed record has not expired, presenting
/// the stored access token gives `Succeed`.
pub proof fn lemma_matching_access_token_succeeds(
    record: SessionRecord,
    access_token: Seq<char>,
    refresh_token: Seq<char>,
    now: nat,
)
    requires
        record.well_formed(),
        now <= record.access_expiration,
        access_token == record.access_token,
    ensures
        token_verdict(record, access_token, refresh_token, now) == TokenValidation::Succeed,
{
}

/// The same for any record, well-formed or not, as long as the refresh token
/// has not expired either.
pub proof fn lemma_matching_access_token_succeeds_before_refresh_expiry(
    record: SessionRecord,
    access_token: Seq<char>,
    refresh_token: Seq<char>,
    now: nat,
)
    requires
        now <= record.refresh_expiration,
        now <= record.access_expiration,
        access_token == record.access_token,
    ensures
        token_verdict(record, access_token, refresh_token, now) == TokenValidation::Succeed,
{
}

/// While the access token has not expired, presenting any other access token
/// gives `Failure`.
pub proof fn lemma_wrong_access_token_fails(
    record: SessionRecord,
    access_token: Seq<char>,
    refresh_token: Seq<char>,
    now: nat,
)
    requires
        now <= record.access_expiration,
        access_token != record.access_token,
    ensures
        token_verdict(record, access_token, refresh_token, now) == TokenValidation::Failure,
{
}

/// After the access token has expired and before the refresh token has,
/// presenting the stored refresh token gives `RequiredRefresh`.
pub proof fn lemma_matching_refresh_token_requires_refresh(
    record: SessionRecord,
    access_token: Seq<char>,
    refresh_token: Seq<char>,
    now: nat,
)
    requires
        record.access_expiration < now <= record.refresh_expiration,
        refresh_token == record.refresh_token,
    ensures
        token_verdict(record, access_token, refresh_token, now)
            == TokenValidation::RequiredRefresh,
{
}

/// After the access token has expired and before the refresh token has,
/// presenting any other refresh token gives `Failure`.
pub proof fn lemma_wrong_refresh_token_fails(
    record: SessionRecord,
    access_token: Seq<char>,
    refresh_token: Seq<char>,
    now: nat,
)
    requires
        record.access_expiration < now <= record.refresh_expiration,
        refresh_token != record.refresh_token,
    ensures
        token_verdict(record, access_token, refresh_token, now) == TokenValidation::Failure,
{
}

/// A record that has just been minted, validated with its own tokens at the
/// instant it was minted at, gives `Succeed`.
pub proof fn lemma_minted_session_validates(
    user_id: u128,
    secret_key: Seq<char>,
    access_duration: u64,
    refresh_duration: u64,
    base_epoch: u64,
)
    requires
        minted(user_id, secret_key, access_duration, refresh_duration, base_epoch) is Ok,
    ensures
        ({
            let record = minted(
                user_id,
                secret_key,
                access_duration,
                refresh_duration,
                base_epoch,
            )->Ok_0;
            token_verdict(record, record.access_token, record.refresh_token, base_epoch as nat)
                == TokenValidation::Succeed
        }),
{
}

/// A verdict other than `Failure` is only given for a token that the record
/// holds and that has not expired.
pub proof fn lemma_access_is_granted_only_on_a_stored_token(
    record: SessionRecord,
    access_token: Seq<char>,
    refresh_token: Seq<char>,
    now: nat,
)
    ensures
        token_verdict(record, access_token, refresh_token, now) == TokenValidation::Succeed ==> ({
            &&& access_token == record.access_token
            &&& now <= record.access_expiration
            &&& now <= record.refresh_expiration
        }),
        token_verdict(record, access_token, refresh_token, now)
            == TokenValidation::RequiredRefresh ==> ({
            &&& refresh_token == record.refresh_token
            &&& record.access_expiration < now <= record.refresh_expiration
        }),
{
}

} // verus!
