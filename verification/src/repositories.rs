//! What the repositories make of the database's answers.
//!
//! The queries themselves are run by the caller. Each function here takes
//! the answer to a query (the row that was fetched, or the number of rows
//! that a statement affected) and says what the repository returns for it.

use crate::accounts::PasswordStoreOutcome;
use crate::email_address::{email_is_valid, EmailAddress};
use crate::entity_id::{format_uuid, hyphenated};
use crate::middleware::{UserLookup, UserLookupView};
use crate::users::{HashedPassword, User, UserId, UserName, UserView};
use crate::validation::{ValidationError, ValidationFault};
use vstd::prelude::*;
use vstd::string::*;

verus! {

/// A row of the table of users.
pub struct UserRow {
    pub id: u128,
    pub user_name: String,
    pub email_address: String,
    pub hashed_password: String,
    pub is_active: bool,
    pub last_logged_in: Option<time::OffsetDateTime>,
    pub created_at: time::OffsetDateTime,
    pub updated_at: time::OffsetDateTime,
}

/// Why the user repository failed.
#[derive(Debug)]
pub enum UserRepositoryError {
    /// The database reported an error; this is its text.
    DatabaseError(String),
    /// A stored value breaks a domain rule.
    DomainRestrictionError(ValidationError),
    /// The user was not stored.
    UserCreateError,
    /// There is no user with this identifier.
    UserNotFoundError(u128),
}

pub enum UserRepositoryFault {
    DatabaseError(Seq<char>),
    DomainRestrictionError(ValidationFault),
    UserCreateError,
    UserNotFoundError(u128),
}

impl View for UserRepositoryError {
    type V = UserRepositoryFault;

    open spec fn view(&self) -> UserRepositoryFault {
        match self {
            UserRepositoryError::DatabaseError(text) => UserRepositoryFault::DatabaseError(text@),
            UserRepositoryError::DomainRestrictionError(
                e,
            ) => UserRepositoryFault::DomainRestrictionError(e@),
            UserRepositoryError::UserCreateError => UserRepositoryFault::UserCreateError,
            UserRepositoryError::UserNotFoundError(id) => UserRepositoryFault::UserNotFoundError(
                *id,
            ),
        }
    }
}

impl UserRepositoryFault {
    pub open spec fn message_text(self) -> Seq<char> {
        match self {
            UserRepositoryFault::DatabaseError(text) => "データベースがエラーを返却しました。: "@
                + text,
            UserRepositoryFault::DomainRestrictionError(e) => e.message_text(),
            UserRepositoryFault::UserCreateError => "ユーザーを登録できませんでした。"@,
            UserRepositoryFault::UserNotFoundError(id) => "ユーザー("@ + hyphenated(id)
                + ")が存在しません。"@,
        }
    }
}

impl UserRepositoryError {
    /// The message shown to a caller.
    pub fn message(&self) -> (text: String)
        ensures
            text@ == self@.message_text(),
    {
        match self {
            UserRepositoryError::DatabaseError(detail) => {
                "データベースがエラーを返却しました。: ".to_owned().concat(detail.as_str())
            },
            UserRepositoryError::DomainRestrictionError(e) => e.message(),
            UserRepositoryError::UserCreateError => "ユーザーを登録できませんでした。".to_owned(),
            UserRepositoryError::UserNotFoundError(id) => {
                let id = format_uuid(*id);
                let text = "ユーザー(".to_owned().concat(id.as_str()).concat(")が存在しません。");
                assert(text@ =~= self@.message_text());
                text
            },
        }
    }
}

/// The user that a row stands for, under the e-mail address given: the row's
/// name must be a user name. The hash is taken as it is.
pub open spec fn user_of_row(row: UserRow, email_address: Seq<char>) -> Result<
    UserView,
    UserRepositoryFault,
> {
    if !UserName::length_allowed(row.user_name@) {
        Err(UserRepositoryFault::DomainRestrictionError(ValidationFault::UserNameLength))
    } else {
        Ok(
            UserView {
                id: row.id,
                user_name: row.user_name@,
                email_address,
                hashed_password: row.hashed_password@,
                is_active: row.is_active,
                last_logged_in: row.last_logged_in,
                created_at: Some(row.created_at),
                updated_at: Some(row.updated_at),
            },
        )
    }
}

/// The user that a row stands for, with the row's own e-mail address: the
/// name is checked first, then the address.
pub open spec fn user_of_whole_row(row: UserRow) -> Result<UserView, UserRepositoryFault> {
    if !UserName::length_allowed(row.user_name@) {
        Err(UserRepositoryFault::DomainRestrictionError(ValidationFault::UserNameLength))
    } else if !email_is_valid(row.email_address@) {
        Err(
            UserRepositoryFault::DomainRestrictionError(
                ValidationFault::EmailAddress(row.email_address@),
            ),
        )
    } else {
        user_of_row(row, row.email_address@)
    }
}

/// What a statement that must touch exactly one row of a user answers:
/// success for one row, a database error where the statement failed, and
/// "no such user" for any other number of rows.
pub open spec fn one_user_row(id: u128, executed: Result<u64, String>) -> Result<
    (),
    UserRepositoryFault,
> {
    match executed {
        Err(detail) => Err(UserRepositoryFault::DatabaseError(detail@)),
        Ok(rows) => if rows == 1 {
            Ok(())
        } else {
            Err(UserRepositoryFault::UserNotFoundError(id))
        },
    }
}

/// Whether `outcome` shows `expected`, errors compared by their views.
pub open spec fn shows<T>(
    outcome: Result<T, UserRepositoryError>,
    expected: Result<T, UserRepositoryFault>,
) -> bool {
    match outcome {
        Ok(value) => expected == Ok::<T, UserRepositoryFault>(value),
        Err(e) => expected == Err::<T, UserRepositoryFault>(e@),
    }
}

/// Whether `outcome` shows a user, or no user, or an error, as `expected`
/// says.
pub open spec fn shows_user(
    outcome: Result<Option<User>, UserRepositoryError>,
    expected: Result<Option<UserView>, UserRepositoryFault>,
) -> bool {
    match outcome {
        Ok(Some(user)) => expected == Ok::<Option<UserView>, UserRepositoryFault>(Some(user@)),
        Ok(None) => expected == Ok::<Option<UserView>, UserRepositoryFault>(None),
        Err(e) => expected == Err::<Option<UserView>, UserRepositoryFault>(e@),
    }
}

/// The repository of users.
#[derive(Debug, Clone, Copy, PartialEq, Eq, Structural)]
pub struct PgUserRepository;

impl Default for PgUserRepository {
    fn default() -> (repository: Self)
        ensures
            repository == PgUserRepository,
    {
        PgUserRepository
    }
}

impl PgUserRepository {
    fn user_of(row: UserRow, user_name: UserName, email_address: EmailAddress) -> (user: User)
        ensures
            user@ == (UserView {
                id: row.id,
                user_name: user_name@,
                email_address: email_address@,
                hashed_password: row.hashed_password@,
                is_active: row.is_active,
                last_logged_in: row.last_logged_in,
                created_at: Some(row.created_at),
                updated_at: Some(row.updated_at),
            }),
    {
        let hashed_password = HashedPassword::new_unchecked(row.hashed_password.as_str());
        User::new(
            UserId::gen(row.id),
            user_name,
            email_address,
            hashed_password,
            row.is_active,
            row.last_logged_in,
            Some(row.created_at),
            Some(row.updated_at),
        )
    }

    /// The user with an e-mail address, from what the search by that address
    /// fetched: the user of the row, under the address that was searched
    /// for; no user where no row was fetched; an error where the search
    /// failed or the row's name is no user name.
    pub fn by_email_address(
        &self,
        email_address: &EmailAddress,
        fetched: Result<Option<UserRow>, String>,
    ) -> (user: Result<Option<User>, UserRepositoryError>)
        ensures
            shows_user(
                user,
                match fetched {
                    Err(detail) => Err(UserRepositoryFault::DatabaseError(detail@)),
                    Ok(None) => Ok(None),
                    Ok(Some(row)) => match user_of_row(row, email_address@) {
                        Ok(u) => Ok(Some(u)),
                        Err(e) => Err(e),
                    },
                },
            ),
    {
        match fetched {
            Err(detail) => Err(UserRepositoryError::DatabaseError(detail)),
            Ok(None) => Ok(None),
            Ok(Some(row)) => match UserName::new(row.user_name.as_str()) {
                Ok(user_name) => Ok(Some(Self::user_of(row, user_name, email_address.clone()))),
                Err(e) => Err(UserRepositoryError::DomainRestrictionError(e)),
            },
        }
    }

    /// The user with an identifier, from what the search by that identifier
    /// fetched: the user of the row; no user where no row was fetched; an
    /// error where the search failed or the row breaks a domain rule.
    pub fn by_id(&self, id: &UserId, fetched: Result<Option<UserRow>, String>) -> (user: Result<
        Option<User>,
        UserRepositoryError,
    >)
        ensures
            shows_user(
                user,
                match fetched {
                    Err(detail) => Err(UserRepositoryFault::DatabaseError(detail@)),
                    Ok(None) => Ok(None),
                    Ok(Some(row)) => match user_of_whole_row(UserRow { id: id@, ..row }) {
                        Ok(u) => Ok(Some(u)),
                        Err(e) => Err(e),
                    },
                },
            ),
    {
        match fetched {
            Err(detail) => Err(UserRepositoryError::DatabaseError(detail)),
            Ok(None) => Ok(None),
            Ok(Some(row)) => {
                let user_name = match UserName::new(row.user_name.as_str()) {
                    Ok(name) => name,
                    Err(e) => {
                        return Err(UserRepositoryError::DomainRestrictionError(e));
                    },
                };
                let email_address = match EmailAddress::gen(row.email_address.as_str()) {
                    Ok(address) => address,
                    Err(e) => {
                        return Err(UserRepositoryError::DomainRestrictionError(e));
                    },
                };
                let row = UserRow { id: id.value(), ..row };
                Ok(Some(Self::user_of(row, user_name, email_address)))
            },
        }
    }

    /// What storing a user answers, from the number of rows that the
    /// statement affected: the user counts as stored for exactly one row.
    pub fn insert(&self, executed: Result<u64, String>) -> (stored: Result<
        (),
        UserRepositoryError,
    >)
        ensures
            shows(
                stored,
                match executed {
                    Err(detail) => Err(UserRepositoryFault::DatabaseError(detail@)),
                    Ok(rows) => if rows == 1 {
                        Ok(())
                    } else {
                        Err(UserRepositoryFault::UserCreateError)
                    },
                },
            ),
    {
        match executed {
            Err(detail) => Err(UserRepositoryError::DatabaseError(detail)),
            Ok(rows) => if rows == 1 {
                Ok(())
            } else {
                Err(UserRepositoryError::UserCreateError)
            },
        }
    }

    /// The user as stored, from what reading it back gave: a user that
    /// cannot be read back counts as not stored.
    pub fn inserted(&self, read_back: Result<Option<User>, UserRepositoryError>) -> (user: Result<
        User,
        UserRepositoryError,
    >)
        ensures
            read_back matches Ok(Some(found)) ==> user == Ok::<User, UserRepositoryError>(found),
            read_back matches Ok(None) ==> (user matches Err(e) && e@
                == UserRepositoryFault::UserCreateError),
            read_back matches Err(cause) ==> user == Err::<User, UserRepositoryError>(cause),
    {
        match read_back {
            Ok(Some(found)) => Ok(found),
            Ok(None) => Err(UserRepositoryError::UserCreateError),
            Err(cause) => Err(cause),
        }
    }

    /// What updating a user answers, from the number of rows that the
    /// statement affected.
    pub fn update(&self, id: &UserId, executed: Result<u64, String>) -> (updated: Result<
        (),
        UserRepositoryError,
    >)
        ensures
            shows(updated, one_user_row(id@, executed)),
    {
        Self::one_row(id, executed)
    }

    /// The user as updated, from what reading it back gave: a user that
    /// cannot be read back is gone.
    pub fn updated(
        &self,
        id: &UserId,
        read_back: Result<Option<User>, UserRepositoryError>,
    ) -> (user: Result<User, UserRepositoryError>)
        ensures
            read_back matches Ok(Some(found)) ==> user == Ok::<User, UserRepositoryError>(found),
            read_back matches Ok(None) ==> (user matches Err(e) && e@
                == UserRepositoryFault::UserNotFoundError(id@)),
            read_back matches Err(cause) ==> user == Err::<User, UserRepositoryError>(cause),
    {
        match read_back {
            Ok(Some(found)) => Ok(found),
            Ok(None) => Err(UserRepositoryError::UserNotFoundError(id.value())),
            Err(cause) => Err(cause),
        }
    }

    /// What deleting a user answers, from the number of rows that the
    /// statement affected.
    pub fn delete(&self, id: &UserId, executed: Result<u64, String>) -> (deleted: Result<
        (),
        UserRepositoryError,
    >)
        ensures
            shows(deleted, one_user_row(id@, executed)),
    {
        Self::one_row(id, executed)
    }

    /// What writing a new password hash answers, from the number of rows that
    /// the statement affected.
    pub fn change_password(&self, id: &UserId, executed: Result<u64, String>) -> (changed: Result<
        (),
        UserRepositoryError,
    >)
        ensures
            shows(changed, one_user_row(id@, executed)),
    {
        Self::one_row(id, executed)
    }

    /// What writing the instant of the last login answers, from the number
    /// of rows that the statement affected.
    pub fn set_last_logged_in(&self, id: &UserId, executed: Result<u64, String>) -> (written:
        Result<(), UserRepositoryError>)
        ensures
            shows(written, one_user_row(id@, executed)),
    {
        Self::one_row(id, executed)
    }

    fn one_row(id: &UserId, executed: Result<u64, String>) -> (outcome: Result<
        (),
        UserRepositoryError,
    >)
        ensures
            shows(outcome, one_user_row(id@, executed)),
    {
        match executed {
            Err(detail) => Err(UserRepositoryError::DatabaseError(detail)),
            Ok(rows) => if rows == 1 {
                Ok(())
            } else {
                Err(UserRepositoryError::UserNotFoundError(id.value()))
            },
        }
    }
}

/// What a use case is told of a user search: the user, no user, or failure.
pub fn user_lookup(found: Result<Option<User>, UserRepositoryError>) -> (lookup: UserLookup)
    ensures
        lookup@ == (match found {
            Ok(Some(user)) => UserLookupView::Found(user@),
            Ok(None) => UserLookupView::Missing,
            Err(_) => UserLookupView::Failed,
        }),
{
    match found {
        Ok(Some(user)) => UserLookup::Found(user),
        Ok(None) => UserLookup::Missing,
        Err(_) => UserLookup::Failed,
    }
}

/// What a change of password is told of the writing of the new hash.
pub fn password_store_outcome(changed: Result<(), UserRepositoryError>) -> (outcome:
    PasswordStoreOutcome)
    ensures
        outcome == (match changed {
            Ok(()) => PasswordStoreOutcome::Stored,
            Err(UserRepositoryError::UserNotFoundError(_)) => PasswordStoreOutcome::NotFound,
            Err(_) => PasswordStoreOutcome::Failed,
        }),
{
    match changed {
        Ok(()) => PasswordStoreOutcome::Stored,
        Err(UserRepositoryError::UserNotFoundError(_)) => PasswordStoreOutcome::NotFound,
        Err(_) => PasswordStoreOutcome::Failed,
    }
}

/// A refresh token as the table of refresh tokens holds it.
pub struct RefreshToken {
    pub session_id: String,
    pub refresh_token: String,
    pub expired_at: time::OffsetDateTime,
}

/// Why the refresh token repository failed.
#[derive(Debug)]
pub enum RefreshTokenRepositoryError {
    /// The database reported an error; this is its text.
    UnexpectedError(String),
    /// The refresh token was not stored.
    UpsertError,
    /// There is no refresh token for this session identifier.
    NotFoundError(String),
}

pub enum RefreshTokenRepositoryFault {
    UnexpectedError(Seq<char>),
    UpsertError,
    NotFoundError(Seq<char>),
}

impl View for RefreshTokenRepositoryError {
    type V = RefreshTokenRepositoryFault;

    open spec fn view(&self) -> RefreshTokenRepositoryFault {
        match self {
            RefreshTokenRepositoryError::UnexpectedError(
                text,
            ) => RefreshTokenRepositoryFault::UnexpectedError(text@),
            RefreshTokenRepositoryError::UpsertError => RefreshTokenRepositoryFault::UpsertError,
            RefreshTokenRepositoryError::NotFoundError(
                session_id,
            ) => RefreshTokenRepositoryFault::NotFoundError(session_id@),
        }
    }
}

impl RefreshTokenRepositoryFault {
    pub open spec fn message_text(self) -> Seq<char> {
        match self {
            RefreshTokenRepositoryFault::UnexpectedError(text) => text,
            RefreshTokenRepositoryFault::UpsertError => "リフレッシュトークンを登録または更新できませんでした。"@,
            RefreshTokenRepositoryFault::NotFoundError(session_id) => "リフレッシュトークン("@
                + session_id + ")が存在しません。"@,
        }
    }
}

impl RefreshTokenRepositoryError {
    /// The message shown to a caller.
    pub fn message(&self) -> (text: String)
        ensures
            text@ == self@.message_text(),
    {
        match self {
            RefreshTokenRepositoryError::UnexpectedError(detail) => detail.clone(),
            RefreshTokenRepositoryError::UpsertError => "リフレッシュトークンを登録または更新できませんでした。".to_owned(),
            RefreshTokenRepositoryError::NotFoundError(session_id) => {
                let text = "リフレッシュトークン(".to_owned().concat(session_id.as_str()).concat(
                    ")が存在しません。",
                );
                assert(text@ =~= self@.message_text());
                text
            },
        }
    }
}

/// Whether `outcome` shows `expected`, errors compared by their views.
pub open spec fn shows_token<T>(
    outcome: Result<T, RefreshTokenRepositoryError>,
    expected: Result<T, RefreshTokenRepositoryFault>,
) -> bool {
    match outcome {
        Ok(value) => expected == Ok::<T, RefreshTokenRepositoryFault>(value),
        Err(e) => expected == Err::<T, RefreshTokenRepositoryFault>(e@),
    }
}

/// The repository of refresh tokens.
#[derive(Debug, Clone, Copy, PartialEq, Eq, Structural)]
pub struct PgRefreshTokenRepository;

impl Default for PgRefreshTokenRepository {
    fn default() -> (repository: Self)
        ensures
            repository == PgRefreshTokenRepository,
    {
        PgRefreshTokenRepository
    }
}

impl PgRefreshTokenRepository {
    /// The refresh token of a session, from what the search fetched.
    pub fn get_by_session_id(fetched: Result<Option<RefreshToken>, String>) -> (token: Result<
        Option<RefreshToken>,
        RefreshTokenRepositoryError,
    >)
        ensures
            shows_token(
                token,
                match fetched {
                    Err(detail) => Err(RefreshTokenRepositoryFault::UnexpectedError(detail@)),
                    Ok(found) => Ok(found),
                },
            ),
    {
        match fetched {
            Err(detail) => Err(RefreshTokenRepositoryError::UnexpectedError(detail)),
            Ok(found) => Ok(found),
        }
    }

    /// Whether storing a refresh token goes on after the old one was
    /// deleted: it does where the deletion succeeded and where there was
    /// nothing to delete; any other failure of the deletion ends it.
    pub fn upsert(&self, deleted: Result<(), RefreshTokenRepositoryError>) -> (proceed: Result<
        (),
        RefreshTokenRepositoryError,
    >)
        ensures
            deleted is Ok ==> proceed is Ok,
            deleted matches Err(RefreshTokenRepositoryError::NotFoundError(_)) ==> proceed is Ok,
            deleted matches Err(cause) && !(cause is NotFoundError) ==> proceed == deleted,
    {
        match deleted {
            Ok(()) => Ok(()),
            Err(RefreshTokenRepositoryError::NotFoundError(_)) => Ok(()),
            Err(cause) => Err(cause),
        }
    }

    /// What storing a refresh token answers, from the number of rows that the
    /// insertion affected.
    pub fn upserted(&self, executed: Result<u64, String>) -> (stored: Result<
        (),
        RefreshTokenRepositoryError,
    >)
        ensures
            shows_token(
                stored,
                match executed {
                    Err(detail) => Err(RefreshTokenRepositoryFault::UnexpectedError(detail@)),
                    Ok(rows) => if rows == 1 {
                        Ok(())
                    } else {
                        Err(RefreshTokenRepositoryFault::UpsertError)
                    },
                },
            ),
    {
        match executed {
            Err(detail) => Err(RefreshTokenRepositoryError::UnexpectedError(detail)),
            Ok(rows) => if rows == 1 {
                Ok(())
            } else {
                Err(RefreshTokenRepositoryError::UpsertError)
            },
        }
    }

    /// What deleting the refresh token of a session answers, from the number
    /// of rows that the statement affected.
    pub fn delete(&self, session_id: &str, executed: Result<u64, String>) -> (deleted: Result<
        (),
        RefreshTokenRepositoryError,
    >)
        ensures
            shows_token(
                deleted,
                match executed {
                    Err(detail) => Err(RefreshTokenRepositoryFault::UnexpectedError(detail@)),
                    Ok(rows) => if rows == 1 {
                        Ok(())
                    } else {
                        Err(RefreshTokenRepositoryFault::NotFoundError(session_id@))
                    },
                },
            ),
    {
        match executed {
            Err(detail) => Err(RefreshTokenRepositoryError::UnexpectedError(detail)),
            Ok(rows) => if rows == 1 {
                Ok(())
            } else {
                Err(RefreshTokenRepositoryError::NotFoundError(session_id.to_owned()))
            },
        }
    }
}

} // verus!
