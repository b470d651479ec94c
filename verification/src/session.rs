//! The session record: what the server remembers of a login, how a record is
//! minted, and the cookies that carry its tokens.

use crate::clock::current_unix_epoch;
use crate::http::{Cookie, CookieView, HttpResponse, HttpResponseView};
use crate::settings::{SessionCookieSettings, TokensSettings};
use crate::tokens::{generate_jwt_pair, reads_back, token_for, token_pair_outcome, TokenError};
use vstd::prelude::*;

verus! {

/// Name of the cookie that carries the access token.
pub const ACCESS_TOKEN_COOKIE_NAME: &'static str = "access_token";

/// Name of the cookie that carries the refresh token.
pub const REFRESH_TOKEN_COOKIE_NAME: &'static str = "refresh_token";

/// Path attribute of the token cookies.
pub const TOKEN_COOKIE_PATH: &'static str = "/";

/// The server's record of an authenticated session.
#[derive(Debug)]
pub struct SessionData {
    /// Identifier of the authenticated user.
    pub user_id: u128,
    /// The current access token.
    pub access_token: String,
    /// Instant, in seconds since the Unix epoch, after which the access token
    /// no longer grants access by itself.
    pub access_expiration: u64,
    /// The current refresh token.
    pub refresh_token: String,
    /// Instant, in seconds since the Unix epoch, after which the session
    /// cannot be recovered.
    pub refresh_expiration: u64,
}

/// A session record as a mathematical value.
pub struct SessionRecord {
    pub user_id: u128,
    pub access_token: Seq<char>,
    pub access_expiration: nat,
    pub refresh_token: Seq<char>,
    pub refresh_expiration: nat,
}

impl SessionRecord {
    /// The access token never outlives the refresh token.
    pub open spec fn well_formed(self) -> bool {
        self.access_expiration <= self.refresh_expiration
    }
}

impl View for SessionData {
    type V = SessionRecord;

    open spec fn view(&self) -> SessionRecord {
        SessionRecord {
            user_id: self.user_id,
            access_token: self.access_token@,
            access_expiration: self.access_expiration as nat,
            refresh_token: self.refresh_token@,
            refresh_expiration: self.refresh_expiration as nat,
        }
    }
}

impl Clone for SessionData {
    fn clone(&self) -> (copy: Self)
        ensures
            copy == *self,
    {
        SessionData {
            user_id: self.user_id,
            access_token: self.access_token.clone(),
            access_expiration: self.access_expiration,
            refresh_token: self.refresh_token.clone(),
            refresh_expiration: self.refresh_expiration,
        }
    }
}

/// Why a session record could not be minted.
#[derive(Debug, Clone, Copy, PartialEq, Eq, Structural)]
pub enum SessionError {
    /// The settings give the access token a longer life than the refresh
    /// token.
    LifetimesOutOfOrder,
    /// An expiry instant does not fit in 64 bits.
    ExpirationOutOfRange,
    /// A token could not be made.
    Token(TokenError),
}

impl SessionError {
    pub open spec fn message_text(self) -> Seq<char> {
        match self {
            SessionError::LifetimesOutOfOrder => "アクセストークンの有効期間がリフレッシュトークンの有効期間を超えています。"@,
            SessionError::ExpirationOutOfRange => "トークンの有効期限を計算できません。"@,
            SessionError::Token(e) => "JWTトークンペアを生成するときにエラーが発生しました。"@
                + e.message_text(),
        }
    }

    /// The message shown to a caller.
    pub fn message(&self) -> (text: String)
        ensures
            text@ == self.message_text(),
    {
        match self {
            SessionError::LifetimesOutOfOrder => "アクセストークンの有効期間がリフレッシュトークンの有効期間を超えています。".to_owned(),
            SessionError::ExpirationOutOfRange => "トークンの有効期限を計算できません。".to_owned(),
            SessionError::Token(e) => {
                let detail = e.message();
                "JWTトークンペアを生成するときにエラーが発生しました。".to_owned().concat(
                    detail.as_str(),
                )
            },
        }
    }
}

/// The two expiry instants of a session minted at `base_epoch`: both are
/// counted from that one instant. `None` where one does not fit in 64 bits.
pub open spec fn expirations(
    base_epoch: u64,
    access_duration: u64,
    refresh_duration: u64,
) -> Option<(u64, u64)> {
    if base_epoch + access_duration <= u64::MAX && base_epoch + refresh_duration <= u64::MAX {
        Some(((base_epoch + access_duration) as u64, (base_epoch + refresh_duration) as u64))
    } else {
        None
    }
}

/// The session record made from two expiry instants and what signing the
/// two tokens gave.
pub open spec fn assembled(
    user_id: u128,
    access_expiration: u64,
    refresh_expiration: u64,
    tokens: Result<(Seq<char>, Seq<char>), TokenError>,
) -> Result<SessionRecord, SessionError> {
    match tokens {
        Ok((access_token, refresh_token)) => Ok(
            SessionRecord {
                user_id,
                access_token,
                access_expiration: access_expiration as nat,
                refresh_token,
                refresh_expiration: refresh_expiration as nat,
            },
        ),
        Err(e) => Err(SessionError::Token(e)),
    }
}

/// The session record minted for a user at `base_epoch`, or why there is
/// none. No record is minted under settings that give the access token a
/// longer life than the refresh token, so that in every record the access
/// token expires no later than the refresh token.
pub open spec fn minted(
    user_id: u128,
    secret_key: Seq<char>,
    access_duration: u64,
    refresh_duration: u64,
    base_epoch: u64,
) -> Result<SessionRecord, SessionError> {
    if access_duration > refresh_duration {
        Err(SessionError::LifetimesOutOfOrder)
    } else {
        match expirations(base_epoch, access_duration, refresh_duration) {
            None => Err(SessionError::ExpirationOutOfRange),
            Some((access_expiration, refresh_expiration)) => assembled(
                user_id,
                access_expiration,
                refresh_expiration,
                token_pair_outcome(
                    token_for(user_id, secret_key, access_expiration),
                    token_for(user_id, secret_key, refresh_expiration),
                ),
            ),
        }
    }
}

/// Whether `outcome` is what minting at `base_epoch` gives.
pub open spec fn is_minted_at(
    outcome: Result<SessionData, SessionError>,
    user_id: u128,
    settings: TokensSettings,
    base_epoch: u64,
) -> bool {
    let expected = minted(
        user_id,
        settings.secret_key@,
        settings.access_token_duration,
        settings.refresh_token_duration,
        base_epoch,
    );
    match outcome {
        Ok(session) => expected == Ok::<SessionRecord, SessionError>(session@),
        Err(e) => expected == Err::<SessionRecord, SessionError>(e),
    }
}

/// Whether both tokens of a record, checked against the secret, belong to
/// the record's user, and each expires at the instant that the record holds
/// for it.
pub open spec fn tokens_read_back(session: SessionData, secret_key: Seq<char>) -> bool {
    &&& reads_back(
        session.access_token@,
        secret_key,
        session.user_id,
        session.access_expiration,
    )
    &&& reads_back(
        session.refresh_token@,
        secret_key,
        session.user_id,
        session.refresh_expiration,
    )
}

/// Computes both expiry instants from one base instant.
pub fn token_expirations(base_epoch: u64, token_settings: &TokensSettings) -> (instants: Option<
    (u64, u64),
>)
    ensures
        instants == expirations(
            base_epoch,
            token_settings.access_token_duration,
            token_settings.refresh_token_duration,
        ),
{
    let access_expiration = match base_epoch.checked_add(token_settings.access_token_duration()) {
        Some(instant) => instant,
        None => {
            return None;
        },
    };
    let refresh_expiration = match base_epoch.checked_add(
        token_settings.refresh_token_duration(),
    ) {
        Some(instant) => instant,
        None => {
            return None;
        },
    };
    Some((access_expiration, refresh_expiration))
}

/// Puts a session record together from its expiry instants and the outcome
/// of making its tokens.
pub fn assemble_session(
    user_id: u128,
    access_expiration: u64,
    refresh_expiration: u64,
    tokens: Result<(String, String), TokenError>,
) -> (session: Result<SessionData, SessionError>)
    ensures
        session matches Ok(s) ==> tokens matches Ok(pair) && s@ == (SessionRecord {
            user_id,
            access_token: pair.0@,
            access_expiration: access_expiration as nat,
            refresh_token: pair.1@,
            refresh_expiration: refresh_expiration as nat,
        }),
        session matches Err(e) ==> tokens matches Err(cause) && e == SessionError::Token(cause),
{
    match tokens {
        Ok((access_token, refresh_token)) => Ok(
            SessionData {
                user_id,
                access_token,
                access_expiration,
                refresh_token,
                refresh_expiration,
            },
        ),
        Err(e) => Err(SessionError::Token(e)),
    }
}

/// Mints the session record of a user as of `base_epoch`: fresh tokens, with
/// both expiry instants counted from that instant. In the record the access
/// token expires no later than the refresh token: settings that would have
/// it otherwise are refused.
pub fn session_data_at(user_id: u128, token_settings: &TokensSettings, base_epoch: u64) -> (session:
    Result<SessionData, SessionError>)
    ensures
        is_minted_at(session, user_id, *token_settings, base_epoch),
        session matches Ok(s) ==> ({
            &&& s.user_id == user_id
            &&& s.access_expiration == base_epoch + token_settings.access_token_duration
            &&& s.refresh_expiration == base_epoch + token_settings.refresh_token_duration
            &&& s@.well_formed()
            &&& tokens_read_back(s, token_settings.secret_key@)
        }),
{
    if !token_settings.is_well_formed() {
        return Err(SessionError::LifetimesOutOfOrder);
    }
    let (access_expiration, refresh_expiration) = match token_expirations(
        base_epoch,
        token_settings,
    ) {
        Some(instants) => instants,
        None => {
            return Err(SessionError::ExpirationOutOfRange);
        },
    };
    let tokens = generate_jwt_pair(
        user_id,
        token_settings.secret_key.as_str(),
        access_expiration,
        refresh_expiration,
    );
    assemble_session(user_id, access_expiration, refresh_expiration, tokens)
}

/// Mints the session record of a user as of now. The base instant is read
/// from the system clock once; the contract holds for whatever it read. In
/// the record the access token expires no later than the refresh token.
pub fn generate_session_data(user_id: u128, token_settings: &TokensSettings) -> (session: Result<
    SessionData,
    SessionError,
>)
    ensures
        exists|base_epoch: u64| is_minted_at(session, user_id, *token_settings, base_epoch),
        session matches Ok(s) ==> ({
            &&& s.user_id == user_id
            &&& s.refresh_expiration - s.access_expiration
                == token_settings.refresh_token_duration - token_settings.access_token_duration
            &&& s@.well_formed()
            &&& tokens_read_back(s, token_settings.secret_key@)
        }),
{
    let base_epoch = current_unix_epoch();
    let session = session_data_at(user_id, token_settings, base_epoch);
    assert(is_minted_at(session, user_id, *token_settings, base_epoch));
    session
}

/// A minted record belongs to the user it was minted for, its expiry
/// instants lie the configured lifetimes after the base instant, and its
/// access token expires no later than its refresh token.
pub proof fn lemma_minted_record(
    user_id: u128,
    secret_key: Seq<char>,
    access_duration: u64,
    refresh_duration: u64,
    base_epoch: u64,
)
    requires
        minted(user_id, secret_key, access_duration, refresh_duration, base_epoch) is Ok,
    ensures
        ({
            let record = minted(
                user_id,
                secret_key,
                access_duration,
                refresh_duration,
                base_epoch,
            )->Ok_0;
            &&& record.user_id == user_id
            &&& record.access_expiration == base_epoch + access_duration
            &&& record.refresh_expiration == base_epoch + refresh_duration
            &&& record.well_formed()
        }),
{
}

/// What is to be done to the session of the current request.
#[derive(Debug)]
pub enum SessionCommand {
    /// Leave the session as it is.
    Keep,
    /// Destroy the session: remove its record from the store and tell the
    /// client to forget the session cookie.
    Purge,
    /// Put this record in place of the session's record, under the same
    /// session identifier.
    Replace(SessionData),
    /// Issue a new session identifier, then store this record under it.
    RenewAndReplace(SessionData),
}

pub enum SessionCommandView {
    Keep,
    Purge,
    Replace(SessionRecord),
    RenewAndReplace(SessionRecord),
}

impl View for SessionCommand {
    type V = SessionCommandView;

    open spec fn view(&self) -> SessionCommandView {
        match self {
            SessionCommand::Keep => SessionCommandView::Keep,
            SessionCommand::Purge => SessionCommandView::Purge,
            SessionCommand::Replace(session) => SessionCommandView::Replace(session@),
            SessionCommand::RenewAndReplace(session) => SessionCommandView::RenewAndReplace(
                session@,
            ),
        }
    }
}

/// The session of a request as the store holds it: an identifier that the
/// client presents, and the record kept under it, if any.
pub struct SessionSlot {
    pub identifier: nat,
    pub record: Option<SessionRecord>,
}

impl SessionCommandView {
    /// The session after the command has been carried out. `fresh` is the
    /// identifier that a renewal issues.
    pub open spec fn apply(self, slot: SessionSlot, fresh: nat) -> SessionSlot {
        match self {
            SessionCommandView::Keep => slot,
            SessionCommandView::Purge => SessionSlot { identifier: slot.identifier, record: None },
            SessionCommandView::Replace(record) => SessionSlot {
                identifier: slot.identifier,
                record: Some(record),
            },
            SessionCommandView::RenewAndReplace(record) => SessionSlot {
                identifier: fresh,
                record: Some(record),
            },
        }
    }
}

/// A session record is only ever replaced as a whole or removed: after any
/// command the session holds the record it held, no record, or the whole
/// record that the command brought. The session identifier changes only on a
/// renewal.
pub proof fn lemma_session_record_is_replaced_whole(
    command: SessionCommandView,
    slot: SessionSlot,
    fresh: nat,
)
    ensures
        ({
            let after = command.apply(slot, fresh);
            &&& match command {
                SessionCommandView::Keep => after.record == slot.record,
                SessionCommandView::Purge => after.record is None,
                SessionCommandView::Replace(record) => after.record == Some(record),
                SessionCommandView::RenewAndReplace(record) => after.record == Some(record),
            }
            &&& after.identifier != slot.identifier ==> command is RenewAndReplace
                && after.identifier == fresh
        }),
{
}

/// The cookie that stores a token: path `/`, `HttpOnly`, `Secure` and
/// `SameSite` as configured.
pub open spec fn token_cookie(
    name: Seq<char>,
    value: Seq<char>,
    settings: SessionCookieSettings,
) -> CookieView {
    CookieView::Store {
        name,
        value,
        path: TOKEN_COOKIE_PATH@,
        secure: settings.secure,
        http_only: true,
        same_site: settings.same_site,
    }
}

/// Builds the cookie that stores a token.
pub fn build_session_data_cookie(
    name: &str,
    value: &str,
    settings: &SessionCookieSettings,
) -> (cookie: Cookie)
    ensures
        cookie@ == token_cookie(name@, value@, *settings),
{
    Cookie::Store {
        name: name.to_owned(),
        value: value.to_owned(),
        path: TOKEN_COOKIE_PATH.to_owned(),
        secure: settings.secure,
        http_only: true,
        same_site: settings.same_site,
    }
}

/// Tells the client, on `response`, to store the two tokens: the access
/// token's cookie, then the refresh token's. Status, body and the cookies
/// already there stay as they are.
pub fn add_session_data_cookies(
    response: &mut HttpResponse,
    access_token: &str,
    refresh_token: &str,
    settings: &SessionCookieSettings,
)
    ensures
        final(response)@ == (HttpResponseView {
            cookies: old(response)@.cookies.push(
                token_cookie(ACCESS_TOKEN_COOKIE_NAME@, access_token@, *settings),
            ).push(token_cookie(REFRESH_TOKEN_COOKIE_NAME@, refresh_token@, *settings)),
            ..old(response)@
        }),
{
    let access_token_cookie = build_session_data_cookie(
        ACCESS_TOKEN_COOKIE_NAME,
        access_token,
        settings,
    );
    let refresh_token_cookie = build_session_data_cookie(
        REFRESH_TOKEN_COOKIE_NAME,
        refresh_token,
        settings,
    );
    response.add_cookie(access_token_cookie);
    response.add_cookie(refresh_token_cookie);
}

} // verus!
