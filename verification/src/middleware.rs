//! The authentication middleware of protected resources.
//!
//! On every protected request the middleware looks up the session record,
//! compares it with the tokens that the request carries, and lets the request
//! through, lets it through and replaces the tokens afterwards, or refuses it.
//!
//! The work that needs the outside world (the session store, the user
//! database, the wrapped handler, the clock) is done by the caller. The
//! middleware is the machine that decides: it is handed what happened, an
//! [`AuthEvent`], and answers what to do next, an [`AuthAction`].

use crate::http::{
    Cookie, CookieView, HttpResponse, HttpResponseView, STATUS_INTERNAL_SERVER_ERROR,
    STATUS_UNAUTHORIZED,
};
use crate::session::{
    add_session_data_cookies, token_cookie, SessionData, SessionError, SessionRecord,
    ACCESS_TOKEN_COOKIE_NAME, REFRESH_TOKEN_COOKIE_NAME,
};
use crate::settings::SessionCookieSettings;
use crate::token_validation::{inspect_token_at, token_verdict, TokenValidation};
use crate::users::{User, UserView};
use vstd::prelude::*;

verus! {

/// A piece of application data that every request must come with.
#[derive(Debug, Clone, Copy, PartialEq, Eq, Structural)]
pub enum AppData {
    Settings,
    ConnectionPool,
}

/// Why a request is refused.
#[derive(Debug, Clone, Copy, PartialEq, Eq, Structural)]
pub enum Rejection {
    /// The request belongs to no session.
    NotAuthenticated,
    /// The tokens of the request were refused.
    TokensRefused,
    /// The user of the session is gone.
    UserMissing,
    /// The request came without a piece of application data.
    AppDataMissing(AppData),
    /// The session store failed to read or to write.
    SessionStoreFailed,
    /// The user database failed.
    UserStoreFailed,
    /// A new session record could not be minted.
    MintFailed(SessionError),
    /// Something was reported that was not asked for.
    UnexpectedEvent,
}

impl Rejection {
    /// Whether the request is refused for want of authentication rather than
    /// because something broke.
    pub open spec fn is_authentication_failure(self) -> bool {
        self == Rejection::NotAuthenticated || self == Rejection::TokensRefused || self
            == Rejection::UserMissing
    }

    /// The status code: 401 where authentication failed, 500 otherwise.
    pub open spec fn status_code(self) -> u16 {
        if self.is_authentication_failure() {
            STATUS_UNAUTHORIZED
        } else {
            STATUS_INTERNAL_SERVER_ERROR
        }
    }

    pub open spec fn message_text(self) -> Seq<char> {
        match self {
            Rejection::NotAuthenticated => "認証されていません。"@,
            Rejection::TokensRefused => "認証されていません。"@,
            Rejection::UserMissing => "セッションデータに含まれているユーザーは存在しません。"@,
            Rejection::AppDataMissing(AppData::Settings) => "システム設定を取得できませんでした。"@,
            Rejection::AppDataMissing(AppData::ConnectionPool) => "データベースコネクションプールを取得できませんでした。"@,
            Rejection::SessionStoreFailed => "セッションデータを読み書きできませんでした。"@,
            Rejection::UserStoreFailed => "ユーザーを取得できませんでした。"@,
            Rejection::MintFailed(e) => e.message_text(),
            Rejection::UnexpectedEvent => "認証ミドルウェアが想定していない通知を受け取りました。"@,
        }
    }

    /// The response that goes with the rejection: status and message, and,
    /// where authentication failed, the instruction to forget both token
    /// cookies.
    pub open spec fn response(self) -> HttpResponseView {
        HttpResponseView {
            status: self.status_code(),
            cookies: if self.is_authentication_failure() {
                seq![
                    CookieView::Removal { name: ACCESS_TOKEN_COOKIE_NAME@ },
                    CookieView::Removal { name: REFRESH_TOKEN_COOKIE_NAME@ },
                ]
            } else {
                Seq::<CookieView>::empty()
            },
            body: self.message_text(),
        }
    }

    /// Whether the request is refused for want of authentication. If so, the
    /// session is destroyed: the record is purged from the store and the
    /// client is told to forget the session cookie and both token cookies.
    pub fn destroys_session(&self) -> (destroys: bool)
        ensures
            destroys == self.is_authentication_failure(),
    {
        match self {
            Rejection::NotAuthenticated => true,
            Rejection::TokensRefused => true,
            Rejection::UserMissing => true,
            _ => false,
        }
    }

    /// The status code of the rejection.
    pub fn status(&self) -> (code: u16)
        ensures
            code == self.status_code(),
    {
        if self.destroys_session() {
            STATUS_UNAUTHORIZED
        } else {
            STATUS_INTERNAL_SERVER_ERROR
        }
    }

    /// The message of the rejection.
    pub fn message(&self) -> (text: String)
        ensures
            text@ == self.message_text(),
    {
        match self {
            Rejection::NotAuthenticated => "認証されていません。".to_owned(),
            Rejection::TokensRefused => "認証されていません。".to_owned(),
            Rejection::UserMissing => "セッションデータに含まれているユーザーは存在しません。".to_owned(),
            Rejection::AppDataMissing(AppData::Settings) => "システム設定を取得できませんでした。".to_owned(),
            Rejection::AppDataMissing(AppData::ConnectionPool) => "データベースコネクションプールを取得できませんでした。".to_owned(),
            Rejection::SessionStoreFailed => "セッションデータを読み書きできませんでした。".to_owned(),
            Rejection::UserStoreFailed => "ユーザーを取得できませんでした。".to_owned(),
            Rejection::MintFailed(e) => e.message(),
            Rejection::UnexpectedEvent => "認証ミドルウェアが想定していない通知を受け取りました。".to_owned(),
        }
    }

    /// Builds the response that goes with the rejection.
    pub fn to_response(&self) -> (response: HttpResponse)
        ensures
            response@ == self.response(),
    {
        let mut response = HttpResponse::with_body(self.status(), self.message());
        if self.destroys_session() {
            response.add_cookie(Cookie::Removal { name: ACCESS_TOKEN_COOKIE_NAME.to_owned() });
            response.add_cookie(Cookie::Removal { name: REFRESH_TOKEN_COOKIE_NAME.to_owned() });
        }
        assert(response@.cookies =~= self.response().cookies);
        response
    }
}

/// What the session store answered.
#[derive(Debug)]
pub enum SessionLookup {
    /// The record of the request's session.
    Found(SessionData),
    /// The request names no session, or one that the store does not hold.
    Missing,
    /// The store could not be read.
    Failed,
}

pub enum SessionLookupView {
    Found(SessionRecord),
    Missing,
    Failed,
}

impl View for SessionLookup {
    type V = SessionLookupView;

    open spec fn view(&self) -> SessionLookupView {
        match self {
            SessionLookup::Found(session) => SessionLookupView::Found(session@),
            SessionLookup::Missing => SessionLookupView::Missing,
            SessionLookup::Failed => SessionLookupView::Failed,
        }
    }
}

/// What the user database answered.
pub enum UserLookup {
    /// The user with the identifier that was asked for.
    Found(User),
    /// There is no such user.
    Missing,
    /// The database could not be read.
    Failed,
}

pub enum UserLookupView {
    Found(UserView),
    Missing,
    Failed,
}

impl View for UserLookup {
    type V = UserLookupView;

    open spec fn view(&self) -> UserLookupView {
        match self {
            UserLookup::Found(user) => UserLookupView::Found(user@),
            UserLookup::Missing => UserLookupView::Missing,
            UserLookup::Failed => UserLookupView::Failed,
        }
    }
}

/// What happened, as reported to the middleware.
pub enum AuthEvent {
    /// The request came without a piece of application data.
    AppDataMissing(AppData),
    /// A request arrived: what the session store holds for it, the token
    /// cookies it carries, and the current instant.
    RequestReceived {
        lookup: SessionLookup,
        access_token: Option<String>,
        refresh_token: Option<String>,
        now: u64,
    },
    /// The user database answered.
    UserLoaded(UserLookup),
    /// The wrapped handler ran: to a response, or to an error.
    HandlerFinished { succeeded: bool },
    /// A new session record was minted, or could not be.
    SessionMinted(Result<SessionData, SessionError>),
    /// The new session record was written to the store, or could not be.
    SessionStored { succeeded: bool },
}

pub enum AuthEventView {
    AppDataMissing(AppData),
    RequestReceived {
        lookup: SessionLookupView,
        access_token: Seq<char>,
        refresh_token: Seq<char>,
        now: nat,
    },
    UserLoaded(UserLookupView),
    HandlerFinished { succeeded: bool },
    SessionMinted(Result<SessionRecord, SessionError>),
    SessionStored { succeeded: bool },
}

/// The token that a request presents: the cookie's value, or the empty
/// string where the request has no such cookie.
pub open spec fn presented_token(cookie: Option<String>) -> Seq<char> {
    match cookie {
        Some(value) => value@,
        None => Seq::<char>::empty(),
    }
}

impl View for AuthEvent {
    type V = AuthEventView;

    open spec fn view(&self) -> AuthEventView {
        match self {
            AuthEvent::AppDataMissing(what) => AuthEventView::AppDataMissing(*what),
            AuthEvent::RequestReceived {
                lookup,
                access_token,
                refresh_token,
                now,
            } => AuthEventView::RequestReceived {
                lookup: lookup@,
                access_token: presented_token(*access_token),
                refresh_token: presented_token(*refresh_token),
                now: *now as nat,
            },
            AuthEvent::UserLoaded(lookup) => AuthEventView::UserLoaded(lookup@),
            AuthEvent::HandlerFinished { succeeded } => AuthEventView::HandlerFinished {
                succeeded: *succeeded,
            },
            AuthEvent::SessionMinted(Ok(session)) => AuthEventView::SessionMinted(Ok(session@)),
            AuthEvent::SessionMinted(Err(e)) => AuthEventView::SessionMinted(Err(*e)),
            AuthEvent::SessionStored { succeeded } => AuthEventView::SessionStored {
                succeeded: *succeeded,
            },
        }
    }
}

/// What the caller is to do next.
pub enum AuthAction {
    /// Look up the user with this identifier and report `UserLoaded`.
    LoadUser { user_id: u128 },
    /// Attach the user to the request, run the wrapped handler and report
    /// `HandlerFinished`.
    CallHandler { user: User },
    /// Mint a new session record for this user and report `SessionMinted`.
    MintSession { user_id: u128 },
    /// Write the record to the store under the session's identifier,
    /// replacing the old one, and report `SessionStored`.
    StoreSession { session: SessionData },
    /// Done: send the handler's response. Where the tokens were replaced, add
    /// the cookies of the new record to it and change nothing else.
    PassResponse { rotated: Option<SessionData> },
    /// Done: hand on the handler's error as it is.
    PropagateHandlerError,
    /// Done: refuse the request.
    Reject(Rejection),
}

pub enum AuthActionView {
    LoadUser { user_id: u128 },
    CallHandler { user: UserView },
    MintSession { user_id: u128 },
    StoreSession { session: SessionRecord },
    PassResponse { rotated: Option<SessionRecord> },
    PropagateHandlerError,
    Reject(Rejection),
}

impl View for AuthAction {
    type V = AuthActionView;

    open spec fn view(&self) -> AuthActionView {
        match self {
            AuthAction::LoadUser { user_id } => AuthActionView::LoadUser { user_id: *user_id },
            AuthAction::CallHandler { user } => AuthActionView::CallHandler { user: user@ },
            AuthAction::MintSession { user_id } => AuthActionView::MintSession {
                user_id: *user_id,
            },
            AuthAction::StoreSession { session } => AuthActionView::StoreSession {
                session: session@,
            },
            AuthAction::PassResponse { rotated: Some(session) } => AuthActionView::PassResponse {
                rotated: Some(session@),
            },
            AuthAction::PassResponse { rotated: None } => AuthActionView::PassResponse {
                rotated: None,
            },
            AuthAction::PropagateHandlerError => AuthActionView::PropagateHandlerError,
            AuthAction::Reject(rejection) => AuthActionView::Reject(*rejection),
        }
    }
}

impl AuthActionView {
    /// Whether the action ends the handling of the request.
    pub open spec fn is_final(self) -> bool {
        self is PassResponse || self is PropagateHandlerError || self is Reject
    }
}

/// How far the handling of a request has come.
pub enum AuthStage {
    /// Nothing has happened yet.
    Start,
    /// The tokens were accepted; the user of the session is being looked up.
    LoadingUser { user_id: u128, refresh: bool },
    /// The wrapped handler is running on behalf of the user.
    Handling { user_id: u128, refresh: bool },
    /// The handler has answered; a new session record is being minted.
    Minting { user_id: u128 },
    /// The new session record is being written to the store.
    Storing { session: SessionRecord },
    /// The request has been answered.
    Finished,
}

/// The middleware's decision as a function of where it stands and what
/// happened: the next stage and the action.
///
/// A request without a session record is refused before its tokens are
/// looked at. Refused tokens end the request at once. Accepted tokens lead
/// to the lookup of the session's user; only a user with the session's own
/// identifier is handed to the wrapped handler. Tokens are replaced only
/// after the handler has produced a response, and only where the verdict
/// asked for it; the new record must belong to the same user.
pub open spec fn auth_step(stage: AuthStage, event: AuthEventView) -> (AuthStage, AuthActionView) {
    match (stage, event) {
        (AuthStage::Start, AuthEventView::AppDataMissing(what)) => auth_refused(
            Rejection::AppDataMissing(what),
        ),
        (
            AuthStage::Start,
            AuthEventView::RequestReceived { lookup, access_token, refresh_token, now },
        ) => match lookup {
            SessionLookupView::Failed => auth_refused(Rejection::SessionStoreFailed),
            SessionLookupView::Missing => auth_refused(Rejection::NotAuthenticated),
            SessionLookupView::Found(record) => match token_verdict(
                record,
                access_token,
                refresh_token,
                now,
            ) {
                TokenValidation::Failure => auth_refused(Rejection::TokensRefused),
                TokenValidation::Succeed => (
                    AuthStage::LoadingUser { user_id: record.user_id, refresh: false },
                    AuthActionView::LoadUser { user_id: record.user_id },
                ),
                TokenValidation::RequiredRefresh => (
                    AuthStage::LoadingUser { user_id: record.user_id, refresh: true },
                    AuthActionView::LoadUser { user_id: record.user_id },
                ),
            },
        },
        (AuthStage::LoadingUser { user_id, refresh }, AuthEventView::UserLoaded(lookup)) => {
            match lookup {
                UserLookupView::Failed => auth_refused(Rejection::UserStoreFailed),
                UserLookupView::Missing => auth_refused(Rejection::UserMissing),
                UserLookupView::Found(user) => if user.id == user_id {
                    (AuthStage::Handling { user_id, refresh }, AuthActionView::CallHandler { user })
                } else {
                    auth_refused(Rejection::UserMissing)
                },
            }
        },
        (
            AuthStage::Handling { user_id, refresh },
            AuthEventView::HandlerFinished { succeeded },
        ) => if !succeeded {
            (AuthStage::Finished, AuthActionView::PropagateHandlerError)
        } else if refresh {
            (AuthStage::Minting { user_id }, AuthActionView::MintSession { user_id })
        } else {
            (AuthStage::Finished, AuthActionView::PassResponse { rotated: None })
        },
        (AuthStage::Minting { user_id }, AuthEventView::SessionMinted(minted)) => match minted {
            Err(e) => auth_refused(Rejection::MintFailed(e)),
            Ok(session) => if session.user_id == user_id {
                (AuthStage::Storing { session }, AuthActionView::StoreSession { session })
            } else {
                auth_refused(Rejection::UnexpectedEvent)
            },
        },
        (AuthStage::Storing { session }, AuthEventView::SessionStored { succeeded }) => {
            if succeeded {
                (AuthStage::Finished, AuthActionView::PassResponse { rotated: Some(session) })
            } else {
                auth_refused(Rejection::SessionStoreFailed)
            }
        },
        _ => auth_refused(Rejection::UnexpectedEvent),
    }
}

/// The end of a request that is refused.
pub open spec fn auth_refused(rejection: Rejection) -> (AuthStage, AuthActionView) {
    (AuthStage::Finished, AuthActionView::Reject(rejection))
}

/// A request without a session record is refused as unauthenticated whatever
/// tokens it carries and whatever the instant: the tokens are not looked at.
pub proof fn lemma_missing_session_is_refused(
    access_token: Seq<char>,
    refresh_token: Seq<char>,
    now: nat,
)
    ensures
        auth_step(
            AuthStage::Start,
            AuthEventView::RequestReceived {
                lookup: SessionLookupView::Missing,
                access_token,
                refresh_token,
                now,
            },
        ) == auth_refused(Rejection::NotAuthenticated),
        Rejection::NotAuthenticated.status_code() == STATUS_UNAUTHORIZED,
        Rejection::NotAuthenticated.is_authentication_failure(),
{
}

/// Refused tokens end the request at once: the answer to the request is a
/// 401 that destroys the session, and nothing else is asked for.
pub proof fn lemma_refused_tokens_end_the_request(
    record: SessionRecord,
    access_token: Seq<char>,
    refresh_token: Seq<char>,
    now: nat,
)
    requires
        token_verdict(record, access_token, refresh_token, now) == TokenValidation::Failure,
    ensures
        auth_step(
            AuthStage::Start,
            AuthEventView::RequestReceived {
                lookup: SessionLookupView::Found(record),
                access_token,
                refresh_token,
                now,
            },
        ) == auth_refused(Rejection::TokensRefused),
        Rejection::TokensRefused.status_code() == STATUS_UNAUTHORIZED,
        Rejection::TokensRefused.is_authentication_failure(),
{
}

/// The user lookup is only ever asked for on the arrival of a request whose
/// tokens were accepted, and for the user that the session record names.
pub proof fn lemma_user_is_looked_up_only_after_validation(stage: AuthStage, event: AuthEventView)
    requires
        auth_step(stage, event).1 is LoadUser,
    ensures
        stage is Start,
        (event matches AuthEventView::RequestReceived {
            lookup: SessionLookupView::Found(record),
            access_token,
            refresh_token,
            now,
        } && {
            let verdict = token_verdict(record, access_token, refresh_token, now);
            &&& verdict != TokenValidation::Failure
            &&& auth_step(stage, event).1 == (AuthActionView::LoadUser { user_id: record.user_id })
            &&& auth_step(stage, event).0 == (AuthStage::LoadingUser {
                user_id: record.user_id,
                refresh: verdict == TokenValidation::RequiredRefresh,
            })
        }),
{
}

/// The wrapped handler is only ever run in answer to a successful user
/// lookup, and on behalf of the very user that was looked up for the session.
pub proof fn lemma_handler_runs_only_for_the_session_user(stage: AuthStage, event: AuthEventView)
    requires
        auth_step(stage, event).1 is CallHandler,
    ensures
        ({
            let user = auth_step(stage, event).1->CallHandler_user;
            &&& stage matches AuthStage::LoadingUser { user_id, refresh } && user.id == user_id
                && auth_step(stage, event).0 == (AuthStage::Handling { user_id, refresh })
            &&& event == AuthEventView::UserLoaded(UserLookupView::Found(user))
        }),
{
}

/// Tokens are replaced only after the wrapped handler has produced a
/// response, and only where the verdict asked for a refresh.
pub proof fn lemma_minting_follows_the_handler(stage: AuthStage, event: AuthEventView)
    requires
        auth_step(stage, event).1 is MintSession,
    ensures
        (stage matches AuthStage::Handling { user_id, refresh } && refresh && auth_step(
            stage,
            event,
        ).1 == (AuthActionView::MintSession { user_id })),
        event == (AuthEventView::HandlerFinished { succeeded: true }),
{
}

/// The record that is written to the store is the one that was minted, and it
/// belongs to the user of the session.
pub proof fn lemma_stored_record_belongs_to_the_user(stage: AuthStage, event: AuthEventView)
    requires
        auth_step(stage, event).1 is StoreSession,
    ensures
        ({
            let session = auth_step(stage, event).1->StoreSession_session;
            &&& stage matches AuthStage::Minting { user_id } && session.user_id == user_id
            &&& event == AuthEventView::SessionMinted(Ok(session))
            &&& auth_step(stage, event).0 == (AuthStage::Storing { session })
        }),
{
}

/// A handler's response passes with new cookies only once the new record has
/// been stored; otherwise it passes as it is, and only where no refresh was
/// asked for.
pub proof fn lemma_response_passes_after_the_handler(stage: AuthStage, event: AuthEventView)
    requires
        auth_step(stage, event).1 is PassResponse,
    ensures
        auth_step(stage, event).1->PassResponse_rotated matches Some(session) ==> stage == (
        AuthStage::Storing { session }) && event == (AuthEventView::SessionStored {
            succeeded: true,
        }),
        auth_step(stage, event).1->PassResponse_rotated is None ==> (stage
            matches AuthStage::Handling { refresh, .. } && !refresh) && event
            == (AuthEventView::HandlerFinished { succeeded: true }),
{
}

/// Every final action leaves the middleware finished, and a finished
/// middleware answers every further event with a rejection.
pub proof fn lemma_final_actions_finish(stage: AuthStage, event: AuthEventView)
    ensures
        auth_step(stage, event).1.is_final() <==> auth_step(stage, event).0 is Finished,
        stage is Finished ==> auth_step(stage, event) == auth_refused(Rejection::UnexpectedEvent),
{
}

/// The token that a request presents: the cookie's value, or the empty
/// string where the request has no such cookie.
pub fn get_tokens(access_token: Option<String>, refresh_token: Option<String>) -> (tokens: (
    String,
    String,
))
    ensures
        tokens.0@ == presented_token(access_token),
        tokens.1@ == presented_token(refresh_token),
{
    let access = match access_token {
        Some(value) => value,
        None => String::new(),
    };
    let refresh = match refresh_token {
        Some(value) => value,
        None => String::new(),
    };
    (access, refresh)
}

/// The maker of middlewares: one per request.
#[derive(Debug, Clone, Copy, PartialEq, Eq, Structural)]
pub struct JwtAuth;

impl JwtAuth {
    /// A middleware for one request, at its start.
    pub fn new_transform(&self) -> (middleware: JwtAuthMiddleware)
        ensures
            middleware@ == AuthStage::Start,
    {
        JwtAuthMiddleware { progress: Progress::Start }
    }
}

/// Where a middleware stands, with what it holds.
enum Progress {
    Start,
    LoadingUser { user_id: u128, refresh: bool },
    Handling { user_id: u128, refresh: bool },
    Minting { user_id: u128 },
    Storing { session: SessionData },
    Finished,
}

/// The middleware of one request.
pub struct JwtAuthMiddleware {
    progress: Progress,
}

impl View for JwtAuthMiddleware {
    type V = AuthStage;

    closed spec fn view(&self) -> AuthStage {
        match self.progress {
            Progress::Start => AuthStage::Start,
            Progress::LoadingUser { user_id, refresh } => AuthStage::LoadingUser {
                user_id,
                refresh,
            },
            Progress::Handling { user_id, refresh } => AuthStage::Handling { user_id, refresh },
            Progress::Minting { user_id } => AuthStage::Minting { user_id },
            Progress::Storing { session } => AuthStage::Storing { session: session@ },
            Progress::Finished => AuthStage::Finished,
        }
    }
}

impl JwtAuthMiddleware {
    fn refuse(rejection: Rejection) -> (next: (JwtAuthMiddleware, AuthAction))
        ensures
            (next.0@, next.1@) == auth_refused(rejection),
    {
        (JwtAuthMiddleware { progress: Progress::Finished }, AuthAction::Reject(rejection))
    }

    fn proceed(progress: Progress, action: AuthAction) -> (next: (JwtAuthMiddleware, AuthAction))
        ensures
            next.0@ == (JwtAuthMiddleware { progress })@,
            next.1 == action,
    {
        (JwtAuthMiddleware { progress }, action)
    }

    /// Whether the request has been answered.
    pub fn is_finished(&self) -> (finished: bool)
        ensures
            finished == (self@ is Finished),
    {
        match self.progress {
            Progress::Finished => true,
            _ => false,
        }
    }

    /// Takes note of what happened and answers what to do next.
    pub fn call(self, event: AuthEvent) -> (next: (JwtAuthMiddleware, AuthAction))
        ensures
            (next.0@, next.1@) == auth_step(self@, event@),
    {
        match (self.progress, event) {
            (Progress::Start, AuthEvent::AppDataMissing(what)) => Self::refuse(
                Rejection::AppDataMissing(what),
            ),
            (
                Progress::Start,
                AuthEvent::RequestReceived { lookup, access_token, refresh_token, now },
            ) => match lookup {
                SessionLookup::Failed => Self::refuse(Rejection::SessionStoreFailed),
                SessionLookup::Missing => Self::refuse(Rejection::NotAuthenticated),
                SessionLookup::Found(session) => {
                    let (access, refresh) = get_tokens(access_token, refresh_token);
                    let user_id = session.user_id;
                    match inspect_token_at(&session, access.as_str(), refresh.as_str(), now) {
                        TokenValidation::Failure => Self::refuse(Rejection::TokensRefused),
                        TokenValidation::Succeed => Self::proceed(
                            Progress::LoadingUser { user_id, refresh: false },
                            AuthAction::LoadUser { user_id },
                        ),
                        TokenValidation::RequiredRefresh => Self::proceed(
                            Progress::LoadingUser { user_id, refresh: true },
                            AuthAction::LoadUser { user_id },
                        ),
                    }
                },
            },
            (Progress::LoadingUser { user_id, refresh }, AuthEvent::UserLoaded(lookup)) => {
                match lookup {
                    UserLookup::Failed => Self::refuse(Rejection::UserStoreFailed),
                    UserLookup::Missing => Self::refuse(Rejection::UserMissing),
                    UserLookup::Found(user) => {
                        if user.id().value() == user_id {
                            Self::proceed(
                                Progress::Handling { user_id, refresh },
                                AuthAction::CallHandler { user },
                            )
                        } else {
                            Self::refuse(Rejection::UserMissing)
                        }
                    },
                }
            },
            (
                Progress::Handling { user_id, refresh },
                AuthEvent::HandlerFinished { succeeded },
            ) => {
                if !succeeded {
                    Self::proceed(Progress::Finished, AuthAction::PropagateHandlerError)
                } else if refresh {
                    Self::proceed(
                        Progress::Minting { user_id },
                        AuthAction::MintSession { user_id },
                    )
                } else {
                    Self::proceed(Progress::Finished, AuthAction::PassResponse { rotated: None })
                }
            },
            (Progress::Minting { user_id }, AuthEvent::SessionMinted(minted)) => match minted {
                Err(e) => Self::refuse(Rejection::MintFailed(e)),
                Ok(session) => {
                    if session.user_id == user_id {
                        let kept = session.clone();
                        Self::proceed(
                            Progress::Storing { session: kept },
                            AuthAction::StoreSession { session },
                        )
                    } else {
                        Self::refuse(Rejection::UnexpectedEvent)
                    }
                },
            },
            (Progress::Storing { session }, AuthEvent::SessionStored { succeeded }) => {
                if succeeded {
                    Self::proceed(
                        Progress::Finished,
                        AuthAction::PassResponse { rotated: Some(session) },
                    )
                } else {
                    Self::refuse(Rejection::SessionStoreFailed)
                }
            },
            _ => Self::refuse(Rejection::UnexpectedEvent),
        }
    }
}

/// The cookies that a passed response gains: none where the tokens stay, the
/// access token's and the refresh token's where they were replaced.
pub open spec fn rotation_cookies(
    rotated: Option<SessionRecord>,
    settings: SessionCookieSettings,
) -> Seq<CookieView> {
    match rotated {
        None => Seq::<CookieView>::empty(),
        Some(record) => seq![
            token_cookie(ACCESS_TOKEN_COOKIE_NAME@, record.access_token, settings),
            token_cookie(REFRESH_TOKEN_COOKIE_NAME@, record.refresh_token, settings),
        ],
    }
}

/// Adds to the handler's response the cookies that go with the outcome of
/// the middleware. Status, body and the cookies already there stay as they are.
pub fn finish_response(
    response: &mut HttpResponse,
    rotated: &Option<SessionData>,
    settings: &SessionCookieSettings,
)
    ensures
        final(response)@ == (HttpResponseView {
            cookies: old(response)@.cookies + rotation_cookies(
                match *rotated {
                    Some(session) => Some(session@),
                    None => None,
                },
                *settings,
            ),
            ..old(response)@
        }),
{
    match rotated {
        Some(session) => {
            add_session_data_cookies(
                response,
                session.access_token.as_str(),
                session.refresh_token.as_str(),
                settings,
            );
            assert(response@.cookies =~= old(response)@.cookies + rotation_cookies(
                Some(session@),
                *settings,
            ));
        },
        None => {
            assert(response@.cookies =~= old(response)@.cookies + rotation_cookies(
                None,
                *settings,
            ));
        },
    }
}

} // verus!
