//! The account use cases: signup, login, logout and change of password.
//!
//! Each use case that needs the database, the session store or a long
//! computation is a machine: it is handed what happened and answers what to
//! do next, until it answers with its outcome. The caller does the work and
//! reports back; every decision is taken here.

use crate::email_address::EmailAddress;
use crate::entity_id::{format_uuid, hyphenated};
use crate::middleware::{UserLookup, UserLookupView};
use crate::password::AuthError;
use crate::session::{
    SessionCommand, SessionCommandView, SessionData, SessionError, SessionRecord, SessionSlot,
};
use crate::users::{HashedPassword, RawPassword, User, UserId, UserName, UserView};
use vstd::prelude::*;

verus! {

/// What went wrong where nothing should have.
#[derive(Debug, Clone, Copy, PartialEq, Eq, Structural)]
pub enum Unexpected {
    /// The database failed.
    Database,
    /// A password could not be hashed.
    PasswordHashing,
    /// A password could not be checked: the stored hash is unreadable, or the
    /// check did not run to its end.
    PasswordVerification,
    /// A session record could not be minted.
    SessionMinting(SessionError),
    /// The session store failed.
    SessionStore,
    /// A stored user lacks its timestamps.
    IncompleteUser,
    /// Something was reported that was not asked for.
    Protocol,
}

impl Unexpected {
    pub open spec fn message_text(self) -> Seq<char> {
        match self {
            Unexpected::Database => "データベースがエラーを返却しました。"@,
            Unexpected::PasswordHashing => "パスワードをハッシュ化できませんでした。"@,
            Unexpected::PasswordVerification => "パスワードを検証できませんでした。"@,
            Unexpected::SessionMinting(e) => e.message_text(),
            Unexpected::SessionStore => "セッションデータを読み書きできませんでした。"@,
            Unexpected::IncompleteUser => "登録したユーザーの作成日時または更新日時がありません。"@,
            Unexpected::Protocol => "ユースケースが想定していない通知を受け取りました。"@,
        }
    }

    /// The message shown to a caller.
    pub fn message(&self) -> (text: String)
        ensures
            text@ == self.message_text(),
    {
        match self {
            Unexpected::Database => "データベースがエラーを返却しました。".to_owned(),
            Unexpected::PasswordHashing => "パスワードをハッシュ化できませんでした。".to_owned(),
            Unexpected::PasswordVerification => "パスワードを検証できませんでした。".to_owned(),
            Unexpected::SessionMinting(e) => e.message(),
            Unexpected::SessionStore => "セッションデータを読み書きできませんでした。".to_owned(),
            Unexpected::IncompleteUser => "登録したユーザーの作成日時または更新日時がありません。".to_owned(),
            Unexpected::Protocol => "ユースケースが想定していない通知を受け取りました。".to_owned(),
        }
    }
}

/// Why a signup failed.
#[derive(Debug, Clone, Copy, PartialEq, Eq, Structural)]
pub enum SignupError {
    UnexpectedError(Unexpected),
    /// A user with the e-mail address exists already.
    EmailAddressAlreadyExists,
}

impl SignupError {
    pub open spec fn message_text(self) -> Seq<char> {
        match self {
            SignupError::UnexpectedError(cause) => cause.message_text(),
            SignupError::EmailAddressAlreadyExists => "Eメールアドレスが既に登録されています。"@,
        }
    }

    /// The message shown to a caller.
    pub fn message(&self) -> (text: String)
        ensures
            text@ == self.message_text(),
    {
        match self {
            SignupError::UnexpectedError(cause) => cause.message(),
            SignupError::EmailAddressAlreadyExists => "Eメールアドレスが既に登録されています。".to_owned(),
        }
    }
}

/// What a successful signup reports of the new user. The password and its
/// hash are not part of it.
pub struct SignupResult {
    pub id: u128,
    pub user_name: String,
    pub email_address: String,
    pub is_active: bool,
    pub created_at: time::OffsetDateTime,
    pub updated_at: time::OffsetDateTime,
}

pub struct SignupResultView {
    pub id: u128,
    pub user_name: Seq<char>,
    pub email_address: Seq<char>,
    pub is_active: bool,
    pub created_at: time::OffsetDateTime,
    pub updated_at: time::OffsetDateTime,
}

impl View for SignupResult {
    type V = SignupResultView;

    open spec fn view(&self) -> SignupResultView {
        SignupResultView {
            id: self.id,
            user_name: self.user_name@,
            email_address: self.email_address@,
            is_active: self.is_active,
            created_at: self.created_at,
            updated_at: self.updated_at,
        }
    }
}

/// What a stored user is reported as, where it has both timestamps.
pub open spec fn signup_report(stored: UserView) -> Option<SignupResultView> {
    match (stored.created_at, stored.updated_at) {
        (Some(created_at), Some(updated_at)) => Some(
            SignupResultView {
                id: stored.id,
                user_name: stored.user_name,
                email_address: stored.email_address,
                is_active: stored.is_active,
                created_at,
                updated_at,
            },
        ),
        _ => None,
    }
}

/// The user that a signup asks the database to store: active, never logged
/// in, without timestamps.
pub open spec fn new_user(
    id: u128,
    user_name: Seq<char>,
    email_address: Seq<char>,
    hashed_password: Seq<char>,
) -> UserView {
    UserView {
        id,
        user_name,
        email_address,
        hashed_password,
        is_active: true,
        last_logged_in: None,
        created_at: None,
        updated_at: None,
    }
}

/// How far a signup has come, and what it holds.
pub enum SignupState {
    Start,
    /// Looking for a user with the e-mail address.
    FindingUser {
        id: UserId,
        user_name: UserName,
        email_address: EmailAddress,
        password: RawPassword,
    },
    /// Hashing the password.
    Hashing { id: UserId, user_name: UserName, email_address: EmailAddress },
    /// Storing the new user.
    Inserting,
    /// Committing the transaction.
    Committing { stored: User },
    Finished,
}

pub enum SignupStateView {
    Start,
    FindingUser { id: u128, user_name: Seq<char>, email_address: Seq<char>, password: Seq<char> },
    Hashing { id: u128, user_name: Seq<char>, email_address: Seq<char> },
    Inserting,
    Committing { stored: UserView },
    Finished,
}

impl View for SignupState {
    type V = SignupStateView;

    open spec fn view(&self) -> SignupStateView {
        match self {
            SignupState::Start => SignupStateView::Start,
            SignupState::FindingUser {
                id,
                user_name,
                email_address,
                password,
            } => SignupStateView::FindingUser {
                id: id@,
                user_name: user_name@,
                email_address: email_address@,
                password: password@,
            },
            SignupState::Hashing { id, user_name, email_address } => SignupStateView::Hashing {
                id: id@,
                user_name: user_name@,
                email_address: email_address@,
            },
            SignupState::Inserting => SignupStateView::Inserting,
            SignupState::Committing { stored } => SignupStateView::Committing { stored: stored@ },
            SignupState::Finished => SignupStateView::Finished,
        }
    }
}

/// What happened, as reported to a signup.
pub enum SignupEvent {
    /// A signup was asked for, in an open transaction. `id` is the
    /// identifier that the new user is to have.
    Requested {
        id: UserId,
        user_name: UserName,
        email_address: EmailAddress,
        password: RawPassword,
    },
    /// The database answered the search by e-mail address.
    UserLookedUp(UserLookup),
    /// The password was hashed, or could not be.
    PasswordHashed(Result<HashedPassword, AuthError>),
    /// The database stored the user and handed back what it stored, or
    /// failed.
    UserInserted(Option<User>),
    /// The transaction was committed, or could not be.
    Committed { succeeded: bool },
}

pub enum SignupEventView {
    Requested { id: u128, user_name: Seq<char>, email_address: Seq<char>, password: Seq<char> },
    UserLookedUp(UserLookupView),
    PasswordHashed(Result<Seq<char>, AuthError>),
    UserInserted(Option<UserView>),
    Committed { succeeded: bool },
}

impl View for SignupEvent {
    type V = SignupEventView;

    open spec fn view(&self) -> SignupEventView {
        match self {
            SignupEvent::Requested {
                id,
                user_name,
                email_address,
                password,
            } => SignupEventView::Requested {
                id: id@,
                user_name: user_name@,
                email_address: email_address@,
                password: password@,
            },
            SignupEvent::UserLookedUp(lookup) => SignupEventView::UserLookedUp(lookup@),
            SignupEvent::PasswordHashed(Ok(hashed)) => SignupEventView::PasswordHashed(
                Ok(hashed@),
            ),
            SignupEvent::PasswordHashed(Err(e)) => SignupEventView::PasswordHashed(Err(*e)),
            SignupEvent::UserInserted(Some(user)) => SignupEventView::UserInserted(Some(user@)),
            SignupEvent::UserInserted(None) => SignupEventView::UserInserted(None),
            SignupEvent::Committed { succeeded } => SignupEventView::Committed {
                succeeded: *succeeded,
            },
        }
    }
}

/// What the caller of a signup is to do next.
pub enum SignupAction {
    /// Search the user with this e-mail address and report `UserLookedUp`.
    FindUserByEmail { email_address: EmailAddress },
    /// Hash this password and report `PasswordHashed`.
    HashPassword { password: RawPassword },
    /// Store this user and report `UserInserted`.
    InsertUser { user: User },
    /// Commit the transaction and report `Committed`.
    Commit,
    /// Done. On an error the transaction is rolled back.
    Finish(Result<SignupResult, SignupError>),
}

pub enum SignupActionView {
    FindUserByEmail { email_address: Seq<char> },
    HashPassword { password: Seq<char> },
    InsertUser { user: UserView },
    Commit,
    Finish(Result<SignupResultView, SignupError>),
}

impl View for SignupAction {
    type V = SignupActionView;

    open spec fn view(&self) -> SignupActionView {
        match self {
            SignupAction::FindUserByEmail { email_address } => SignupActionView::FindUserByEmail {
                email_address: email_address@,
            },
            SignupAction::HashPassword { password } => SignupActionView::HashPassword {
                password: password@,
            },
            SignupAction::InsertUser { user } => SignupActionView::InsertUser { user: user@ },
            SignupAction::Commit => SignupActionView::Commit,
            SignupAction::Finish(Ok(result)) => SignupActionView::Finish(Ok(result@)),
            SignupAction::Finish(Err(e)) => SignupActionView::Finish(Err(*e)),
        }
    }
}

/// The decisions of a signup.
///
/// A signup fails with `EmailAddressAlreadyExists` where a user with the
/// address exists. Otherwise the password is hashed, the user is stored as an
/// active user, the transaction is committed, and the stored user is
/// reported with the timestamps that the database gave it. Any failure on
/// the way ends the signup with an unexpected error.
pub open spec fn signup_step(state: SignupStateView, event: SignupEventView) -> (
    SignupStateView,
    SignupActionView,
) {
    match (state, event) {
        (
            SignupStateView::Start,
            SignupEventView::Requested { id, user_name, email_address, password },
        ) => (
            SignupStateView::FindingUser { id, user_name, email_address, password },
            SignupActionView::FindUserByEmail { email_address },
        ),
        (
            SignupStateView::FindingUser { id, user_name, email_address, password },
            SignupEventView::UserLookedUp(lookup),
        ) => match lookup {
            UserLookupView::Failed => (
                SignupStateView::Finished,
                SignupActionView::Finish(Err(SignupError::UnexpectedError(Unexpected::Database))),
            ),
            UserLookupView::Found(_) => (
                SignupStateView::Finished,
                SignupActionView::Finish(Err(SignupError::EmailAddressAlreadyExists)),
            ),
            UserLookupView::Missing => (
                SignupStateView::Hashing { id, user_name, email_address },
                SignupActionView::HashPassword { password },
            ),
        },
        (
            SignupStateView::Hashing { id, user_name, email_address },
            SignupEventView::PasswordHashed(hashed),
        ) => match hashed {
            Err(_) => (
                SignupStateView::Finished,
                SignupActionView::Finish(
                    Err(SignupError::UnexpectedError(Unexpected::PasswordHashing)),
                ),
            ),
            Ok(hashed_password) => (
                SignupStateView::Inserting,
                SignupActionView::InsertUser {
                    user: new_user(id, user_name, email_address, hashed_password),
                },
            ),
        },
        (SignupStateView::Inserting, SignupEventView::UserInserted(inserted)) => match inserted {
            None => (
                SignupStateView::Finished,
                SignupActionView::Finish(Err(SignupError::UnexpectedError(Unexpected::Database))),
            ),
            Some(stored) => (SignupStateView::Committing { stored }, SignupActionView::Commit),
        },
        (SignupStateView::Committing { stored }, SignupEventView::Committed { succeeded }) => {
            if !succeeded {
                (
                    SignupStateView::Finished,
                    SignupActionView::Finish(
                        Err(SignupError::UnexpectedError(Unexpected::Database)),
                    ),
                )
            } else {
                match signup_report(stored) {
                    Some(report) => (
                        SignupStateView::Finished,
                        SignupActionView::Finish(Ok(report)),
                    ),
                    None => (
                        SignupStateView::Finished,
                        SignupActionView::Finish(
                            Err(SignupError::UnexpectedError(Unexpected::IncompleteUser)),
                        ),
                    ),
                }
            }
        },
        _ => (
            SignupStateView::Finished,
            SignupActionView::Finish(Err(SignupError::UnexpectedError(Unexpected::Protocol))),
        ),
    }
}

/// Reports a stored user, where it has both timestamps.
pub fn report_of(stored: &User) -> (report: Option<SignupResult>)
    ensures
        report matches Some(r) ==> signup_report(stored@) == Some(r@),
        report is None ==> signup_report(stored@) is None,
{
    match (stored.created_at(), stored.updated_at()) {
        (Some(created_at), Some(updated_at)) => Some(
            SignupResult {
                id: stored.id().value(),
                user_name: stored.user_name().value().to_owned(),
                email_address: stored.email_address().value().to_owned(),
                is_active: stored.is_active(),
                created_at: *created_at,
                updated_at: *updated_at,
            },
        ),
        _ => None,
    }
}

/// Signup: takes note of what happened and answers what to do next.
pub fn signup(state: SignupState, event: SignupEvent) -> (next: (SignupState, SignupAction))
    ensures
        (next.0@, next.1@) == signup_step(state@, event@),
{
    match (state, event) {
        (
            SignupState::Start,
            SignupEvent::Requested { id, user_name, email_address, password },
        ) => {
            let wanted = email_address.clone();
            (
                SignupState::FindingUser { id, user_name, email_address, password },
                SignupAction::FindUserByEmail { email_address: wanted },
            )
        },
        (
            SignupState::FindingUser { id, user_name, email_address, password },
            SignupEvent::UserLookedUp(lookup),
        ) => match lookup {
            UserLookup::Failed => (
                SignupState::Finished,
                SignupAction::Finish(Err(SignupError::UnexpectedError(Unexpected::Database))),
            ),
            UserLookup::Found(_) => (
                SignupState::Finished,
                SignupAction::Finish(Err(SignupError::EmailAddressAlreadyExists)),
            ),
            UserLookup::Missing => (
                SignupState::Hashing { id, user_name, email_address },
                SignupAction::HashPassword { password },
            ),
        },
        (
            SignupState::Hashing { id, user_name, email_address },
            SignupEvent::PasswordHashed(hashed),
        ) => match hashed {
            Err(_) => (
                SignupState::Finished,
                SignupAction::Finish(
                    Err(SignupError::UnexpectedError(Unexpected::PasswordHashing)),
                ),
            ),
            Ok(hashed_password) => (
                SignupState::Inserting,
                SignupAction::InsertUser {
                    user: User::new(
                        id,
                        user_name,
                        email_address,
                        hashed_password,
                        true,
                        None,
                        None,
                        None,
                    ),
                },
            ),
        },
        (SignupState::Inserting, SignupEvent::UserInserted(inserted)) => match inserted {
            None => (
                SignupState::Finished,
                SignupAction::Finish(Err(SignupError::UnexpectedError(Unexpected::Database))),
            ),
            Some(stored) => (SignupState::Committing { stored }, SignupAction::Commit),
        },
        (SignupState::Committing { stored }, SignupEvent::Committed { succeeded }) => {
            if !succeeded {
                (
                    SignupState::Finished,
                    SignupAction::Finish(Err(SignupError::UnexpectedError(Unexpected::Database))),
                )
            } else {
                match report_of(&stored) {
                    Some(report) => (SignupState::Finished, SignupAction::Finish(Ok(report))),
                    None => (
                        SignupState::Finished,
                        SignupAction::Finish(
                            Err(SignupError::UnexpectedError(Unexpected::IncompleteUser)),
                        ),
                    ),
                }
            }
        },
        _ => (
            SignupState::Finished,
            SignupAction::Finish(Err(SignupError::UnexpectedError(Unexpected::Protocol))),
        ),
    }
}

/// Why a login failed.
#[derive(Debug, Clone, Copy, PartialEq, Eq, Structural)]
pub enum LoginError {
    UnexpectedError(Unexpected),
    /// No user has the e-mail address, or the password is wrong. Which of
    /// the two is not told.
    InvalidCredentials,
    /// The credentials are right, but the user with this identifier is not
    /// active.
    NotActive(u128),
}

impl LoginError {
    pub open spec fn message_text(self) -> Seq<char> {
        match self {
            LoginError::UnexpectedError(cause) => cause.message_text(),
            LoginError::InvalidCredentials => "Eメールアドレスまたはパスワードが異なります。"@,
            LoginError::NotActive(user_id) => "ユーザー("@ + hyphenated(user_id)
                + ")が無効になっています。"@,
        }
    }

    /// The message shown to a caller.
    pub fn message(&self) -> (text: String)
        ensures
            text@ == self.message_text(),
    {
        match self {
            LoginError::UnexpectedError(cause) => cause.message(),
            LoginError::InvalidCredentials => "Eメールアドレスまたはパスワードが異なります。".to_owned(),
            LoginError::NotActive(user_id) => {
                let id = format_uuid(*user_id);
                let text = "ユーザー(".to_owned().concat(id.as_str()).concat(
                    ")が無効になっています。",
                );
                assert(text@ =~= self.message_text());
                text
            },
        }
    }
}

/// How far a login has come, and what it holds.
pub enum LoginState {
    Start,
    /// Looking for the user with the e-mail address.
    FindingUser { raw_password: String },
    /// Checking the password against the user's hash.
    Verifying { user: User },
    /// Minting the session record.
    Minting { user_id: u128 },
    /// Writing the instant of the login to the user.
    Updating { session: SessionData },
    /// Renewing the session identifier and storing the record under it.
    Establishing { session: SessionData },
    /// Committing the transaction.
    Committing { session: SessionData },
    Finished,
}

pub enum LoginStateView {
    Start,
    FindingUser { raw_password: Seq<char> },
    Verifying { user: UserView },
    Minting { user_id: u128 },
    Updating { session: SessionRecord },
    Establishing { session: SessionRecord },
    Committing { session: SessionRecord },
    Finished,
}

impl View for LoginState {
    type V = LoginStateView;

    open spec fn view(&self) -> LoginStateView {
        match self {
            LoginState::Start => LoginStateView::Start,
            LoginState::FindingUser { raw_password } => LoginStateView::FindingUser {
                raw_password: raw_password@,
            },
            LoginState::Verifying { user } => LoginStateView::Verifying { user: user@ },
            LoginState::Minting { user_id } => LoginStateView::Minting { user_id: *user_id },
            LoginState::Updating { session } => LoginStateView::Updating { session: session@ },
            LoginState::Establishing { session } => LoginStateView::Establishing {
                session: session@,
            },
            LoginState::Committing { session } => LoginStateView::Committing {
                session: session@,
            },
            LoginState::Finished => LoginStateView::Finished,
        }
    }
}

/// What happened, as reported to a login.
pub enum LoginEvent {
    /// A login was asked for, in an open transaction.
    Requested { email_address: EmailAddress, raw_password: String },
    /// The database answered the search by e-mail address.
    UserLookedUp(UserLookup),
    /// The password check answered; `None` where it did not run to its end.
    PasswordVerified(Option<Result<(), AuthError>>),
    /// A session record was minted, or could not be.
    SessionMinted(Result<SessionData, SessionError>),
    /// The instant of the login was written to the user, or could not be.
    LastLoggedInUpdated { succeeded: bool },
    /// The session was renewed and the record stored, or could not be.
    SessionEstablished { succeeded: bool },
    /// The transaction was committed, or could not be.
    Committed { succeeded: bool },
}

pub enum LoginEventView {
    Requested { email_address: Seq<char>, raw_password: Seq<char> },
    UserLookedUp(UserLookupView),
    PasswordVerified(Option<Result<(), AuthError>>),
    SessionMinted(Result<SessionRecord, SessionError>),
    LastLoggedInUpdated { succeeded: bool },
    SessionEstablished { succeeded: bool },
    Committed { succeeded: bool },
}

impl View for LoginEvent {
    type V = LoginEventView;

    open spec fn view(&self) -> LoginEventView {
        match self {
            LoginEvent::Requested { email_address, raw_password } => LoginEventView::Requested {
                email_address: email_address@,
                raw_password: raw_password@,
            },
            LoginEvent::UserLookedUp(lookup) => LoginEventView::UserLookedUp(lookup@),
            LoginEvent::PasswordVerified(answer) => LoginEventView::PasswordVerified(*answer),
            LoginEvent::SessionMinted(Ok(session)) => LoginEventView::SessionMinted(Ok(session@)),
            LoginEvent::SessionMinted(Err(e)) => LoginEventView::SessionMinted(Err(*e)),
            LoginEvent::LastLoggedInUpdated { succeeded } => LoginEventView::LastLoggedInUpdated {
                succeeded: *succeeded,
            },
            LoginEvent::SessionEstablished { succeeded } => LoginEventView::SessionEstablished {
                succeeded: *succeeded,
            },
            LoginEvent::Committed { succeeded } => LoginEventView::Committed {
                succeeded: *succeeded,
            },
        }
    }
}

/// What the caller of a login is to do next.
pub enum LoginAction {
    /// Search the user with this e-mail address and report `UserLookedUp`.
    FindUserByEmail { email_address: EmailAddress },
    /// Check the password against the hash, off the request's own thread, and
    /// report `PasswordVerified`.
    VerifyPassword { expected_hashed: HashedPassword, raw_password: String },
    /// Mint a session record for this user and report `SessionMinted`.
    MintSession { user_id: u128 },
    /// Write the current instant to the user as the instant of the last
    /// login and report `LastLoggedInUpdated`.
    UpdateLastLoggedIn { user_id: u128 },
    /// Carry out the command on the session and report `SessionEstablished`.
    EstablishSession { command: SessionCommand },
    /// Commit the transaction and report `Committed`.
    Commit,
    /// Done. On an error the transaction is rolled back, and the command is
    /// carried out on the session.
    Finish { outcome: Result<SessionData, LoginError>, command: SessionCommand },
}

pub enum LoginActionView {
    FindUserByEmail { email_address: Seq<char> },
    VerifyPassword { expected_hashed: Seq<char>, raw_password: Seq<char> },
    MintSession { user_id: u128 },
    UpdateLastLoggedIn { user_id: u128 },
    EstablishSession { command: SessionCommandView },
    Commit,
    Finish { outcome: Result<SessionRecord, LoginError>, command: SessionCommandView },
}

impl View for LoginAction {
    type V = LoginActionView;

    open spec fn view(&self) -> LoginActionView {
        match self {
            LoginAction::FindUserByEmail { email_address } => LoginActionView::FindUserByEmail {
                email_address: email_address@,
            },
            LoginAction::VerifyPassword {
                expected_hashed,
                raw_password,
            } => LoginActionView::VerifyPassword {
                expected_hashed: expected_hashed@,
                raw_password: raw_password@,
            },
            LoginAction::MintSession { user_id } => LoginActionView::MintSession {
                user_id: *user_id,
            },
            LoginAction::UpdateLastLoggedIn { user_id } => LoginActionView::UpdateLastLoggedIn {
                user_id: *user_id,
            },
            LoginAction::EstablishSession { command } => LoginActionView::EstablishSession {
                command: command@,
            },
            LoginAction::Commit => LoginActionView::Commit,
            LoginAction::Finish { outcome: Ok(session), command } => LoginActionView::Finish {
                outcome: Ok(session@),
                command: command@,
            },
            LoginAction::Finish { outcome: Err(e), command } => LoginActionView::Finish {
                outcome: Err(*e),
                command: command@,
            },
        }
    }
}

/// Whether a login failed for want of authentication (wrong credentials, or
/// a user who is not active) rather than because something broke.
pub open spec fn is_authentication_failure(error: LoginError) -> bool {
    error is InvalidCredentials || error is NotActive
}

/// A login that ends in an error before it touched the session. Where
/// authentication failed the session is destroyed, so that the client is told
/// to forget its session cookie; where something broke it is left as it is.
pub open spec fn login_refused(error: LoginError) -> (LoginStateView, LoginActionView) {
    (
        LoginStateView::Finished,
        LoginActionView::Finish {
            outcome: Err(error),
            command: if is_authentication_failure(error) {
                SessionCommandView::Purge
            } else {
                SessionCommandView::Keep
            },
        },
    )
}

/// A login that is ended by an event that was not asked for after the session
/// was touched: the session is destroyed.
pub open spec fn login_withdrawn() -> (LoginStateView, LoginActionView) {
    (
        LoginStateView::Finished,
        LoginActionView::Finish {
            outcome: Err(LoginError::UnexpectedError(Unexpected::Protocol)),
            command: SessionCommandView::Purge,
        },
    )
}

/// The decisions of a login.
///
/// A login fails with `InvalidCredentials` where no user has the e-mail
/// address and where the password is wrong, and with `NotActive` where the
/// credentials are right and the user is not active; either way the session
/// of the request is destroyed. Otherwise a session
/// record is minted for the user, the instant of the login is written, the
/// session is established under a new session identifier, and the
/// transaction is committed. Where the commit fails after the session was
/// established, the session is destroyed again: a login that fails leaves no
/// session record behind.
pub open spec fn login_step(state: LoginStateView, event: LoginEventView) -> (
    LoginStateView,
    LoginActionView,
) {
    match (state, event) {
        (LoginStateView::Start, LoginEventView::Requested { email_address, raw_password }) => (
            LoginStateView::FindingUser { raw_password },
            LoginActionView::FindUserByEmail { email_address },
        ),
        (LoginStateView::FindingUser { raw_password }, LoginEventView::UserLookedUp(lookup)) => {
            match lookup {
                UserLookupView::Failed => login_refused(
                    LoginError::UnexpectedError(Unexpected::Database),
                ),
                UserLookupView::Missing => login_refused(LoginError::InvalidCredentials),
                UserLookupView::Found(user) => (
                    LoginStateView::Verifying { user },
                    LoginActionView::VerifyPassword {
                        expected_hashed: user.hashed_password,
                        raw_password,
                    },
                ),
            }
        },
        (LoginStateView::Verifying { user }, LoginEventView::PasswordVerified(answer)) => {
            match answer {
                None => login_refused(
                    LoginError::UnexpectedError(Unexpected::PasswordVerification),
                ),
                Some(Err(AuthError::UnexpectedError)) => login_refused(
                    LoginError::UnexpectedError(Unexpected::PasswordVerification),
                ),
                Some(Err(AuthError::InvalidCredentials)) => login_refused(
                    LoginError::InvalidCredentials,
                ),
                Some(Ok(())) => if user.is_active {
                    (
                        LoginStateView::Minting { user_id: user.id },
                        LoginActionView::MintSession { user_id: user.id },
                    )
                } else {
                    login_refused(LoginError::NotActive(user.id))
                },
            }
        },
        (LoginStateView::Minting { user_id }, LoginEventView::SessionMinted(minted)) => {
            match minted {
                Err(e) => login_refused(
                    LoginError::UnexpectedError(Unexpected::SessionMinting(e)),
                ),
                Ok(session) => if session.user_id == user_id {
                    (
                        LoginStateView::Updating { session },
                        LoginActionView::UpdateLastLoggedIn { user_id },
                    )
                } else {
                    login_refused(LoginError::UnexpectedError(Unexpected::Protocol))
                },
            }
        },
        (
            LoginStateView::Updating { session },
            LoginEventView::LastLoggedInUpdated { succeeded },
        ) => if succeeded {
            (
                LoginStateView::Establishing { session },
                LoginActionView::EstablishSession {
                    command: SessionCommandView::RenewAndReplace(session),
                },
            )
        } else {
            login_refused(LoginError::UnexpectedError(Unexpected::Database))
        },
        (
            LoginStateView::Establishing { session },
            LoginEventView::SessionEstablished { succeeded },
        ) => if succeeded {
            (LoginStateView::Committing { session }, LoginActionView::Commit)
        } else {
            (
                LoginStateView::Finished,
                LoginActionView::Finish {
                    outcome: Err(LoginError::UnexpectedError(Unexpected::SessionStore)),
                    command: SessionCommandView::Purge,
                },
            )
        },
        (LoginStateView::Committing { session }, LoginEventView::Committed { succeeded }) => {
            if succeeded {
                (
                    LoginStateView::Finished,
                    LoginActionView::Finish {
                        outcome: Ok(session),
                        command: SessionCommandView::Keep,
                    },
                )
            } else {
                (
                    LoginStateView::Finished,
                    LoginActionView::Finish {
                        outcome: Err(LoginError::UnexpectedError(Unexpected::Database)),
                        command: SessionCommandView::Purge,
                    },
                )
            }
        },
        (LoginStateView::Establishing { .. }, _) => login_withdrawn(),
        (LoginStateView::Committing { .. }, _) => login_withdrawn(),
        _ => login_refused(LoginError::UnexpectedError(Unexpected::Protocol)),
    }
}

fn refuse_login(error: LoginError) -> (next: (LoginState, LoginAction))
    ensures
        (next.0@, next.1@) == login_refused(error),
{
    let command = match error {
        LoginError::UnexpectedError(_) => SessionCommand::Keep,
        LoginError::InvalidCredentials => SessionCommand::Purge,
        LoginError::NotActive(_) => SessionCommand::Purge,
    };
    (LoginState::Finished, LoginAction::Finish { outcome: Err(error), command })
}

fn withdraw_login() -> (next: (LoginState, LoginAction))
    ensures
        (next.0@, next.1@) == login_withdrawn(),
{
    (
        LoginState::Finished,
        LoginAction::Finish {
            outcome: Err(LoginError::UnexpectedError(Unexpected::Protocol)),
            command: SessionCommand::Purge,
        },
    )
}

/// Login: takes note of what happened and answers what to do next.
pub fn login(state: LoginState, event: LoginEvent) -> (next: (LoginState, LoginAction))
    ensures
        (next.0@, next.1@) == login_step(state@, event@),
{
    match (state, event) {
        (LoginState::Start, LoginEvent::Requested { email_address, raw_password }) => (
            LoginState::FindingUser { raw_password },
            LoginAction::FindUserByEmail { email_address },
        ),
        (LoginState::FindingUser { raw_password }, LoginEvent::UserLookedUp(lookup)) => {
            match lookup {
                UserLookup::Failed => refuse_login(
                    LoginError::UnexpectedError(Unexpected::Database),
                ),
                UserLookup::Missing => refuse_login(LoginError::InvalidCredentials),
                UserLookup::Found(user) => {
                    let expected_hashed = user.hashed_password().clone();
                    (
                        LoginState::Verifying { user },
                        LoginAction::VerifyPassword { expected_hashed, raw_password },
                    )
                },
            }
        },
        (LoginState::Verifying { user }, LoginEvent::PasswordVerified(answer)) => {
            match answer {
                None => refuse_login(
                    LoginError::UnexpectedError(Unexpected::PasswordVerification),
                ),
                Some(Err(AuthError::UnexpectedError)) => refuse_login(
                    LoginError::UnexpectedError(Unexpected::PasswordVerification),
                ),
                Some(Err(AuthError::InvalidCredentials)) => refuse_login(
                    LoginError::InvalidCredentials,
                ),
                Some(Ok(())) => {
                    let user_id = user.id().value();
                    if user.is_active() {
                        (LoginState::Minting { user_id }, LoginAction::MintSession { user_id })
                    } else {
                        refuse_login(LoginError::NotActive(user_id))
                    }
                },
            }
        },
        (LoginState::Minting { user_id }, LoginEvent::SessionMinted(minted)) => {
            match minted {
                Err(e) => refuse_login(
                    LoginError::UnexpectedError(Unexpected::SessionMinting(e)),
                ),
                Ok(session) => {
                    if session.user_id == user_id {
                        (
                            LoginState::Updating { session },
                            LoginAction::UpdateLastLoggedIn { user_id },
                        )
                    } else {
                        refuse_login(LoginError::UnexpectedError(Unexpected::Protocol))
                    }
                },
            }
        },
        (LoginState::Updating { session }, LoginEvent::LastLoggedInUpdated { succeeded }) => {
            if succeeded {
                let record = session.clone();
                (
                    LoginState::Establishing { session },
                    LoginAction::EstablishSession {
                        command: SessionCommand::RenewAndReplace(record),
                    },
                )
            } else {
                refuse_login(LoginError::UnexpectedError(Unexpected::Database))
            }
        },
        (LoginState::Establishing { session }, LoginEvent::SessionEstablished { succeeded }) => {
            if succeeded {
                (LoginState::Committing { session }, LoginAction::Commit)
            } else {
                (
                    LoginState::Finished,
                    LoginAction::Finish {
                        outcome: Err(LoginError::UnexpectedError(Unexpected::SessionStore)),
                        command: SessionCommand::Purge,
                    },
                )
            }
        },
        (LoginState::Committing { session }, LoginEvent::Committed { succeeded }) => {
            if succeeded {
                (
                    LoginState::Finished,
                    LoginAction::Finish { outcome: Ok(session), command: SessionCommand::Keep },
                )
            } else {
                (
                    LoginState::Finished,
                    LoginAction::Finish {
                        outcome: Err(LoginError::UnexpectedError(Unexpected::Database)),
                        command: SessionCommand::Purge,
                    },
                )
            }
        },
        (LoginState::Establishing { .. }, _) => withdraw_login(),
        (LoginState::Committing { .. }, _) => withdraw_login(),
        _ => refuse_login(LoginError::UnexpectedError(Unexpected::Protocol)),
    }
}

/// What a logout does to the session: it destroys it.
pub open spec fn logout_command() -> SessionCommandView {
    SessionCommandView::Purge
}

/// Logout: the session is destroyed, whatever it holds. There is nothing
/// that can fail.
pub fn logout() -> (command: SessionCommand)
    ensures
        command@ == logout_command(),
{
    SessionCommand::Purge
}

/// After a logout the session holds no record, whether it held one before or
/// not; a second logout finds it so and leaves it so. Logout has no error to
/// give, the first time or the second.
pub proof fn lemma_logout_is_idempotent(slot: SessionSlot, fresh: nat, fresher: nat)
    ensures
        logout_command().apply(slot, fresh).record is None,
        logout_command().apply(logout_command().apply(slot, fresh), fresher)
            == logout_command().apply(slot, fresh),
{
}

/// Why a change of password failed.
#[derive(Debug, Clone, Copy, PartialEq, Eq, Structural)]
pub enum ChangePasswordError {
    UnexpectedError(Unexpected),
    /// The current password is wrong.
    IncorrectCurrentPassword,
    /// The user with this identifier is gone.
    NotFound(u128),
}

impl ChangePasswordError {
    pub open spec fn message_text(self) -> Seq<char> {
        match self {
            ChangePasswordError::UnexpectedError(cause) => cause.message_text(),
            ChangePasswordError::IncorrectCurrentPassword => "現在のパスワードが間違っています。"@,
            ChangePasswordError::NotFound(user_id) => "ユーザー("@ + hyphenated(user_id)
                + ")が存在しません。"@,
        }
    }

    /// The message shown to a caller.
    pub fn message(&self) -> (text: String)
        ensures
            text@ == self.message_text(),
    {
        match self {
            ChangePasswordError::UnexpectedError(cause) => cause.message(),
            ChangePasswordError::IncorrectCurrentPassword => "現在のパスワードが間違っています。".to_owned(),
            ChangePasswordError::NotFound(user_id) => {
                let id = format_uuid(*user_id);
                let text = "ユーザー(".to_owned().concat(id.as_str()).concat(")が存在しません。");
                assert(text@ =~= self.message_text());
                text
            },
        }
    }
}

/// What the database answered to the storing of a new password hash.
#[derive(Debug, Clone, Copy, PartialEq, Eq, Structural)]
pub enum PasswordStoreOutcome {
    /// The hash was written to the user.
    Stored,
    /// There is no such user.
    NotFound,
    /// The database failed.
    Failed,
}

/// How far a change of password has come, and what it holds.
pub enum ChangePasswordState {
    Start,
    /// Checking the current password.
    Verifying { user_id: u128, new_password: RawPassword },
    /// Hashing the new password.
    Hashing { user_id: u128 },
    /// Writing the new hash to the user.
    Storing { user_id: u128 },
    /// Committing the transaction.
    Committing,
    Finished,
}

pub enum ChangePasswordStateView {
    Start,
    Verifying { user_id: u128, new_password: Seq<char> },
    Hashing { user_id: u128 },
    Storing { user_id: u128 },
    Committing,
    Finished,
}

impl View for ChangePasswordState {
    type V = ChangePasswordStateView;

    open spec fn view(&self) -> ChangePasswordStateView {
        match self {
            ChangePasswordState::Start => ChangePasswordStateView::Start,
            ChangePasswordState::Verifying {
                user_id,
                new_password,
            } => ChangePasswordStateView::Verifying {
                user_id: *user_id,
                new_password: new_password@,
            },
            ChangePasswordState::Hashing { user_id } => ChangePasswordStateView::Hashing {
                user_id: *user_id,
            },
            ChangePasswordState::Storing { user_id } => ChangePasswordStateView::Storing {
                user_id: *user_id,
            },
            ChangePasswordState::Committing => ChangePasswordStateView::Committing,
            ChangePasswordState::Finished => ChangePasswordStateView::Finished,
        }
    }
}

/// What happened, as reported to a change of password.
pub enum ChangePasswordEvent {
    /// The authenticated user asked for a new password.
    Requested { user: User, current_password: RawPassword, new_password: RawPassword },
    /// The password check answered; `None` where it did not run to its end.
    PasswordVerified(Option<Result<(), AuthError>>),
    /// The new password was hashed, or could not be.
    PasswordHashed(Result<HashedPassword, AuthError>),
    /// The database answered the storing of the hash.
    PasswordStored(PasswordStoreOutcome),
    /// The transaction was committed, or could not be.
    Committed { succeeded: bool },
}

pub enum ChangePasswordEventView {
    Requested { user: UserView, current_password: Seq<char>, new_password: Seq<char> },
    PasswordVerified(Option<Result<(), AuthError>>),
    PasswordHashed(Result<Seq<char>, AuthError>),
    PasswordStored(PasswordStoreOutcome),
    Committed { succeeded: bool },
}

impl View for ChangePasswordEvent {
    type V = ChangePasswordEventView;

    open spec fn view(&self) -> ChangePasswordEventView {
        match self {
            ChangePasswordEvent::Requested {
                user,
                current_password,
                new_password,
            } => ChangePasswordEventView::Requested {
                user: user@,
                current_password: current_password@,
                new_password: new_password@,
            },
            ChangePasswordEvent::PasswordVerified(
                answer,
            ) => ChangePasswordEventView::PasswordVerified(*answer),
            ChangePasswordEvent::PasswordHashed(
                Ok(hashed),
            ) => ChangePasswordEventView::PasswordHashed(Ok(hashed@)),
            ChangePasswordEvent::PasswordHashed(
                Err(e),
            ) => ChangePasswordEventView::PasswordHashed(Err(*e)),
            ChangePasswordEvent::PasswordStored(
                outcome,
            ) => ChangePasswordEventView::PasswordStored(*outcome),
            ChangePasswordEvent::Committed { succeeded } => ChangePasswordEventView::Committed {
                succeeded: *succeeded,
            },
        }
    }
}

/// What the caller of a change of password is to do next.
pub enum ChangePasswordAction {
    /// Check the password against the hash, off the request's own thread, and
    /// report `PasswordVerified`.
    VerifyPassword { expected_hashed: HashedPassword, raw_password: RawPassword },
    /// Open a transaction, hash this password and report `PasswordHashed`.
    HashPassword { password: RawPassword },
    /// Write this hash to the user and report `PasswordStored`.
    StorePassword { user_id: u128, hashed_password: HashedPassword },
    /// Commit the transaction and report `Committed`.
    Commit,
    /// Done. On an error the transaction is rolled back. The command is
    /// carried out on the session.
    Finish { outcome: Result<(), ChangePasswordError>, command: SessionCommand },
}

pub enum ChangePasswordActionView {
    VerifyPassword { expected_hashed: Seq<char>, raw_password: Seq<char> },
    HashPassword { password: Seq<char> },
    StorePassword { user_id: u128, hashed_password: Seq<char> },
    Commit,
    Finish { outcome: Result<(), ChangePasswordError>, command: SessionCommandView },
}

impl View for ChangePasswordAction {
    type V = ChangePasswordActionView;

    open spec fn view(&self) -> ChangePasswordActionView {
        match self {
            ChangePasswordAction::VerifyPassword {
                expected_hashed,
                raw_password,
            } => ChangePasswordActionView::VerifyPassword {
                expected_hashed: expected_hashed@,
                raw_password: raw_password@,
            },
            ChangePasswordAction::HashPassword {
                password,
            } => ChangePasswordActionView::HashPassword { password: password@ },
            ChangePasswordAction::StorePassword {
                user_id,
                hashed_password,
            } => ChangePasswordActionView::StorePassword {
                user_id: *user_id,
                hashed_password: hashed_password@,
            },
            ChangePasswordAction::Commit => ChangePasswordActionView::Commit,
            ChangePasswordAction::Finish { outcome, command } => ChangePasswordActionView::Finish {
                outcome: *outcome,
                command: command@,
            },
        }
    }
}

/// A change of password that ends in an error: the session stays as it is.
pub open spec fn change_refused(error: ChangePasswordError) -> (
    ChangePasswordStateView,
    ChangePasswordActionView,
) {
    (
        ChangePasswordStateView::Finished,
        ChangePasswordActionView::Finish {
            outcome: Err(error),
            command: SessionCommandView::Keep,
        },
    )
}

/// The decisions of a change of password.
///
/// The change fails with `IncorrectCurrentPassword` where the current
/// password does not match the user's hash; the session is then left as it
/// is. Otherwise the new password is hashed and written to the user, the
/// transaction is committed, and the session is destroyed, so that the user
/// has to log in again.
pub open spec fn change_password_step(
    state: ChangePasswordStateView,
    event: ChangePasswordEventView,
) -> (ChangePasswordStateView, ChangePasswordActionView) {
    match (state, event) {
        (
            ChangePasswordStateView::Start,
            ChangePasswordEventView::Requested { user, current_password, new_password },
        ) => (
            ChangePasswordStateView::Verifying { user_id: user.id, new_password },
            ChangePasswordActionView::VerifyPassword {
                expected_hashed: user.hashed_password,
                raw_password: current_password,
            },
        ),
        (
            ChangePasswordStateView::Verifying { user_id, new_password },
            ChangePasswordEventView::PasswordVerified(answer),
        ) => match answer {
            None => change_refused(
                ChangePasswordError::UnexpectedError(Unexpected::PasswordVerification),
            ),
            Some(Err(AuthError::UnexpectedError)) => change_refused(
                ChangePasswordError::UnexpectedError(Unexpected::PasswordVerification),
            ),
            Some(Err(AuthError::InvalidCredentials)) => change_refused(
                ChangePasswordError::IncorrectCurrentPassword,
            ),
            Some(Ok(())) => (
                ChangePasswordStateView::Hashing { user_id },
                ChangePasswordActionView::HashPassword { password: new_password },
            ),
        },
        (
            ChangePasswordStateView::Hashing { user_id },
            ChangePasswordEventView::PasswordHashed(hashed),
        ) => match hashed {
            Err(_) => change_refused(
                ChangePasswordError::UnexpectedError(Unexpected::PasswordHashing),
            ),
            Ok(hashed_password) => (
                ChangePasswordStateView::Storing { user_id },
                ChangePasswordActionView::StorePassword { user_id, hashed_password },
            ),
        },
        (
            ChangePasswordStateView::Storing { user_id },
            ChangePasswordEventView::PasswordStored(outcome),
        ) => match outcome {
            PasswordStoreOutcome::Failed => change_refused(
                ChangePasswordError::UnexpectedError(Unexpected::Database),
            ),
            PasswordStoreOutcome::NotFound => change_refused(
                ChangePasswordError::NotFound(user_id),
            ),
            PasswordStoreOutcome::Stored => (
                ChangePasswordStateView::Committing,
                ChangePasswordActionView::Commit,
            ),
        },
        (
            ChangePasswordStateView::Committing,
            ChangePasswordEventView::Committed { succeeded },
        ) => if succeeded {
            (
                ChangePasswordStateView::Finished,
                ChangePasswordActionView::Finish {
                    outcome: Ok(()),
                    command: SessionCommandView::Purge,
                },
            )
        } else {
            change_refused(ChangePasswordError::UnexpectedError(Unexpected::Database))
        },
        _ => change_refused(ChangePasswordError::UnexpectedError(Unexpected::Protocol)),
    }
}

fn refuse_change(error: ChangePasswordError) -> (next: (ChangePasswordState, ChangePasswordAction))
    ensures
        (next.0@, next.1@) == change_refused(error),
{
    (
        ChangePasswordState::Finished,
        ChangePasswordAction::Finish { outcome: Err(error), command: SessionCommand::Keep },
    )
}

/// Change of password: takes note of what happened and answers what to do
/// next.
pub fn change_password(state: ChangePasswordState, event: ChangePasswordEvent) -> (next: (
    ChangePasswordState,
    ChangePasswordAction,
))
    ensures
        (next.0@, next.1@) == change_password_step(state@, event@),
{
    match (state, event) {
        (
            ChangePasswordState::Start,
            ChangePasswordEvent::Requested { user, current_password, new_password },
        ) => {
            let user_id = user.id().value();
            let expected_hashed = user.hashed_password().clone();
            (
                ChangePasswordState::Verifying { user_id, new_password },
                ChangePasswordAction::VerifyPassword {
                    expected_hashed,
                    raw_password: current_password,
                },
            )
        },
        (
            ChangePasswordState::Verifying { user_id, new_password },
            ChangePasswordEvent::PasswordVerified(answer),
        ) => match answer {
            None => refuse_change(
                ChangePasswordError::UnexpectedError(Unexpected::PasswordVerification),
            ),
            Some(Err(AuthError::UnexpectedError)) => refuse_change(
                ChangePasswordError::UnexpectedError(Unexpected::PasswordVerification),
            ),
            Some(Err(AuthError::InvalidCredentials)) => refuse_change(
                ChangePasswordError::IncorrectCurrentPassword,
            ),
            Some(Ok(())) => (
                ChangePasswordState::Hashing { user_id },
                ChangePasswordAction::HashPassword { password: new_password },
            ),
        },
        (
            ChangePasswordState::Hashing { user_id },
            ChangePasswordEvent::PasswordHashed(hashed),
        ) => match hashed {
            Err(_) => refuse_change(
                ChangePasswordError::UnexpectedError(Unexpected::PasswordHashing),
            ),
            Ok(hashed_password) => (
                ChangePasswordState::Storing { user_id },
                ChangePasswordAction::StorePassword { user_id, hashed_password },
            ),
        },
        (
            ChangePasswordState::Storing { user_id },
            ChangePasswordEvent::PasswordStored(outcome),
        ) => match outcome {
            PasswordStoreOutcome::Failed => refuse_change(
                ChangePasswordError::UnexpectedError(Unexpected::Database),
            ),
            PasswordStoreOutcome::NotFound => refuse_change(
                ChangePasswordError::NotFound(user_id),
            ),
            PasswordStoreOutcome::Stored => (
                ChangePasswordState::Committing,
                ChangePasswordAction::Commit,
            ),
        },
        (ChangePasswordState::Committing, ChangePasswordEvent::Committed { succeeded }) => {
            if succeeded {
                (
                    ChangePasswordState::Finished,
                    ChangePasswordAction::Finish {
                        outcome: Ok(()),
                        command: SessionCommand::Purge,
                    },
                )
            } else {
                refuse_change(ChangePasswordError::UnexpectedError(Unexpected::Database))
            }
        },
        _ => refuse_change(ChangePasswordError::UnexpectedError(Unexpected::Protocol)),
    }
}

} // verus!
