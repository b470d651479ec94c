use jwt_auth::accounts::{
    change_password, login, logout, report_of, signup, ChangePasswordAction, ChangePasswordError,
    ChangePasswordEvent, ChangePasswordState, LoginAction, LoginError, LoginEvent, LoginState,
    PasswordStoreOutcome, SignupAction, SignupError, SignupEvent, SignupResult, SignupState,
    Unexpected,
};
use jwt_auth::email_address::EmailAddress;
use jwt_auth::http::Cookie;
use jwt_auth::middleware::UserLookup;
use jwt_auth::password::{verify_password, AuthError};
use jwt_auth::routes::{
    change_password_response, login_response, logout_response, signup_error_response,
};
use jwt_auth::session::{session_data_at, SessionCommand, SessionData, SessionError};
use jwt_auth::settings::{SameSite, SessionCookieSettings, TokensSettings};
use jwt_auth::token_validation::{inspect_token_at, TokenValidation};
use jwt_auth::users::{HashedPassword, RawPassword, User, UserId, UserName};
use time::OffsetDateTime;

const NOW: u64 = 1_700_000_000;

/// The user table and the session of one client, as the tests keep them.
struct World {
    users: Vec<User>,
    session_identifier: u64,
    session_record: Option<SessionData>,
    last_logins: Vec<u128>,
    fail_commit: bool,
}

impl World {
    fn new() -> Self {
        World {
            users: Vec::new(),
            session_identifier: 1,
            session_record: None,
            last_logins: Vec::new(),
            fail_commit: false,
        }
    }

    fn find(&self, email_address: &str) -> UserLookup {
        match self.users.iter().find(|u| u.email_address().value() == email_address) {
            Some(user) => UserLookup::Found(user.clone()),
            None => UserLookup::Missing,
        }
    }

    fn apply(&mut self, command: SessionCommand) {
        match command {
            SessionCommand::Keep => {}
            SessionCommand::Purge => self.session_record = None,
            SessionCommand::Replace(record) => self.session_record = Some(record),
            SessionCommand::RenewAndReplace(record) => {
                self.session_identifier += 1;
                self.session_record = Some(record);
            }
        }
    }

    fn signup(&mut self, id: u128, name: &str, email: &str, password: &str) -> Result<SignupResult, SignupError> {
        let mut state = SignupState::Start;
        let mut event = SignupEvent::Requested {
            id: UserId::gen(id),
            user_name: UserName::new(name).unwrap(),
            email_address: EmailAddress::gen(email).unwrap(),
            password: RawPassword::new(password).ok().unwrap(),
        };
        loop {
            let (next, action) = signup(state, event);
            state = next;
            event = match action {
                SignupAction::FindUserByEmail { email_address } => {
                    SignupEvent::UserLookedUp(self.find(email_address.value()))
                }
                SignupAction::HashPassword { password } => {
                    SignupEvent::PasswordHashed(HashedPassword::new(&password))
                }
                SignupAction::InsertUser { user } => {
                    let at = OffsetDateTime::from_unix_timestamp(NOW as i64).unwrap();
                    let stored = User::new(
                        user.id(),
                        user.user_name().clone(),
                        user.email_address().clone(),
                        user.hashed_password().clone(),
                        user.is_active(),
                        *user.last_logged_in(),
                        Some(at),
                        Some(at),
                    );
                    self.users.push(stored.clone());
                    SignupEvent::UserInserted(Some(stored))
                }
                SignupAction::Commit => SignupEvent::Committed { succeeded: true },
                SignupAction::Finish(outcome) => return outcome,
            };
        }
    }

    fn login(&mut self, email: &str, password: &str) -> Result<SessionData, LoginError> {
        let settings = TokensSettings {
            secret_key: "some-secret".to_owned(),
            access_token_duration: 300,
            refresh_token_duration: 1800,
        };
        let mut state = LoginState::Start;
        let mut event = LoginEvent::Requested {
            email_address: EmailAddress::gen(email).unwrap(),
            raw_password: password.to_owned(),
        };
        loop {
            let (next, action) = login(state, event);
            state = next;
            event = match action {
                LoginAction::FindUserByEmail { email_address } => {
                    LoginEvent::UserLookedUp(self.find(email_address.value()))
                }
                LoginAction::VerifyPassword { expected_hashed, raw_password } => {
                    LoginEvent::PasswordVerified(Some(verify_password(
                        expected_hashed.value(),
                        &raw_password,
                    )))
                }
                LoginAction::MintSession { user_id } => {
                    LoginEvent::SessionMinted(session_data_at(user_id, &settings, NOW))
                }
                LoginAction::UpdateLastLoggedIn { user_id } => {
                    self.last_logins.push(user_id);
                    LoginEvent::LastLoggedInUpdated { succeeded: true }
                }
                LoginAction::EstablishSession { command } => {
                    self.apply(command);
                    LoginEvent::SessionEstablished { succeeded: true }
                }
                LoginAction::Commit => LoginEvent::Committed { succeeded: !self.fail_commit },
                LoginAction::Finish { outcome, command } => {
                    self.apply(command);
                    return outcome;
                }
            };
        }
    }

    fn change_password(&mut self, user: &User, current: &str, new: &str) -> Result<(), ChangePasswordError> {
        let mut state = ChangePasswordState::Start;
        let mut event = ChangePasswordEvent::Requested {
            user: user.clone(),
            current_password: RawPassword::new(current).ok().unwrap(),
            new_password: RawPassword::new(new).ok().unwrap(),
        };
        loop {
            let (next, action) = change_password(state, event);
            state = next;
            event = match action {
                ChangePasswordAction::VerifyPassword { expected_hashed, raw_password } => {
                    ChangePasswordEvent::PasswordVerified(Some(verify_password(
                        expected_hashed.value(),
                        raw_password.value(),
                    )))
                }
                ChangePasswordAction::HashPassword { password } => {
                    ChangePasswordEvent::PasswordHashed(HashedPassword::new(&password))
                }
                ChangePasswordAction::StorePassword { user_id, hashed_password } => {
                    match self.users.iter().position(|u| u.id().value() == user_id) {
                        Some(at) => {
                            let old = self.users[at].clone();
                            self.users[at] = User::new(
                                old.id(),
                                old.user_name().clone(),
                                old.email_address().clone(),
                                hashed_password,
                                old.is_active(),
                                *old.last_logged_in(),
                                *old.created_at(),
                                *old.updated_at(),
                            );
                            ChangePasswordEvent::PasswordStored(PasswordStoreOutcome::Stored)
                        }
                        None => ChangePasswordEvent::PasswordStored(PasswordStoreOutcome::NotFound),
                    }
                }
                ChangePasswordAction::Commit => ChangePasswordEvent::Committed { succeeded: true },
                ChangePasswordAction::Finish { outcome, command } => {
                    self.apply(command);
                    return outcome;
                }
            };
        }
    }
}

fn cookie_settings() -> SessionCookieSettings {
    SessionCookieSettings { secure: true, same_site: SameSite::Lax }
}

#[test]
fn signup_stores_an_active_user_and_reports_it() {
    let mut world = World::new();
    let result = world.signup(11, "foo", "foo@example.com", "01abCD#$").ok().unwrap();
    assert_eq!(result.id, 11);
    assert_eq!(result.user_name, "foo");
    assert_eq!(result.email_address, "foo@example.com");
    assert!(result.is_active);
    assert_eq!(result.created_at.unix_timestamp(), NOW as i64);
    assert_eq!(result.updated_at.unix_timestamp(), NOW as i64);
    assert_eq!(world.users.len(), 1);
    let stored = &world.users[0];
    assert!(stored.is_active());
    assert!(stored.last_logged_in().is_none());
    // the stored hash is a hash of the password, not the password
    assert_ne!(stored.hashed_password().value(), "01abCD#$");
    assert_eq!(verify_password(stored.hashed_password().value(), "01abCD#$"), Ok(()));
}

#[test]
fn signup_with_a_taken_email_address_fails_with_400() {
    let mut world = World::new();
    assert!(world.signup(11, "foo", "foo@example.com", "01abCD#$").is_ok());
    let second = world.signup(12, "bar", "foo@example.com", "98zyXW%&");
    assert_eq!(second.err(), Some(SignupError::EmailAddressAlreadyExists));
    assert_eq!(world.users.len(), 1);
    let response = signup_error_response(&SignupError::EmailAddressAlreadyExists);
    assert_eq!(response.status, 400);
    assert_eq!(response.body, "Eメールアドレスが既に登録されています。");
    assert!(response.cookies.is_empty());
    // another address is free
    assert!(world.signup(12, "bar", "bar@example.com", "98zyXW%&").is_ok());
    assert_eq!(world.users.len(), 2);
}

#[test]
fn signup_failures_on_the_way_are_unexpected_errors() {
    let requested = || {
        let event = SignupEvent::Requested {
            id: UserId::gen(1),
            user_name: UserName::new("foo").unwrap(),
            email_address: EmailAddress::gen("foo@example.com").unwrap(),
            password: RawPassword::new("01abCD#$").ok().unwrap(),
        };
        signup(SignupState::Start, event).0
    };
    let finished = |action: SignupAction| match action {
        SignupAction::Finish(outcome) => outcome.err(),
        _ => panic!("the signup went on"),
    };
    let (_, action) = signup(requested(), SignupEvent::UserLookedUp(UserLookup::Failed));
    assert_eq!(finished(action), Some(SignupError::UnexpectedError(Unexpected::Database)));

    let (hashing, _) = signup(requested(), SignupEvent::UserLookedUp(UserLookup::Missing));
    let (_, action) = signup(hashing, SignupEvent::PasswordHashed(Err(AuthError::UnexpectedError)));
    assert_eq!(
        finished(action),
        Some(SignupError::UnexpectedError(Unexpected::PasswordHashing))
    );

    let inserting = || {
        let (hashing, _) = signup(requested(), SignupEvent::UserLookedUp(UserLookup::Missing));
        let hashed = HashedPassword::new_unchecked("hash");
        signup(hashing, SignupEvent::PasswordHashed(Ok(hashed)))
    };
    match inserting().1 {
        SignupAction::InsertUser { user } => {
            assert_eq!(user.id().value(), 1);
            assert_eq!(user.user_name().value(), "foo");
            assert_eq!(user.email_address().value(), "foo@example.com");
            assert_eq!(user.hashed_password().value(), "hash");
            assert!(user.is_active());
            assert!(user.last_logged_in().is_none());
            assert!(user.created_at().is_none());
            assert!(user.updated_at().is_none());
        }
        _ => panic!("no user was stored"),
    }
    let (_, action) = signup(inserting().0, SignupEvent::UserInserted(None));
    assert_eq!(finished(action), Some(SignupError::UnexpectedError(Unexpected::Database)));

    let stored = |created: Option<i64>, updated: Option<i64>| {
        User::new(
            UserId::gen(1),
            UserName::new("foo").unwrap(),
            EmailAddress::gen("foo@example.com").unwrap(),
            HashedPassword::new_unchecked("hash"),
            true,
            None,
            created.map(|t| OffsetDateTime::from_unix_timestamp(t).unwrap()),
            updated.map(|t| OffsetDateTime::from_unix_timestamp(t).unwrap()),
        )
    };
    let (committing, action) =
        signup(inserting().0, SignupEvent::UserInserted(Some(stored(Some(1), Some(2)))));
    assert!(matches!(action, SignupAction::Commit));
    let (_, action) = signup(committing, SignupEvent::Committed { succeeded: false });
    assert_eq!(finished(action), Some(SignupError::UnexpectedError(Unexpected::Database)));

    // a stored user without timestamps cannot be reported
    let (committing, _) =
        signup(inserting().0, SignupEvent::UserInserted(Some(stored(Some(1), None))));
    let (_, action) = signup(committing, SignupEvent::Committed { succeeded: true });
    assert_eq!(
        finished(action),
        Some(SignupError::UnexpectedError(Unexpected::IncompleteUser))
    );
    assert!(report_of(&stored(None, Some(2))).is_none());
    let report = report_of(&stored(Some(1), Some(2))).unwrap();
    assert_eq!(report.created_at.unix_timestamp(), 1);
    assert_eq!(report.updated_at.unix_timestamp(), 2);

    // an event that was not asked for
    let (_, action) = signup(SignupState::Start, SignupEvent::Committed { succeeded: true });
    assert_eq!(finished(action), Some(SignupError::UnexpectedError(Unexpected::Protocol)));
    assert_eq!(
        signup_error_response(&SignupError::UnexpectedError(Unexpected::Database)).status,
        500
    );
}

#[test]
fn login_with_the_right_credentials_establishes_a_session_under_a_new_identifier() {
    let mut world = World::new();
    world.signup(11, "foo", "foo@example.com", "01abCD#$").ok().unwrap();
    let identifier_before = world.session_identifier;
    let session = world.login("foo@example.com", "01abCD#$").ok().unwrap();
    assert_eq!(session.user_id, 11);
    assert_eq!(session.access_expiration, NOW + 300);
    assert_eq!(session.refresh_expiration, NOW + 1800);
    assert_ne!(world.session_identifier, identifier_before);
    let stored = world.session_record.as_ref().unwrap();
    assert_eq!(stored.user_id, 11);
    assert_eq!(stored.access_token, session.access_token);
    assert_eq!(stored.refresh_token, session.refresh_token);
    assert_eq!(world.last_logins, vec![11]);
    // the session validates with its own tokens
    assert_eq!(
        inspect_token_at(stored, &session.access_token, &session.refresh_token, NOW),
        TokenValidation::Succeed
    );
    let response = login_response(&Ok(session.clone()), &cookie_settings());
    assert_eq!(response.status, 200);
    assert_eq!(response.body, "");
    assert_eq!(response.cookies.len(), 2);
}

#[test]
fn login_with_a_wrong_password_is_401_and_creates_no_session_record() {
    let mut world = World::new();
    world.signup(11, "foo", "foo@example.com", "01abCD#$").ok().unwrap();
    let identifier_before = world.session_identifier;
    let outcome = world.login("foo@example.com", "01abCD#%");
    assert_eq!(outcome.as_ref().err(), Some(&LoginError::InvalidCredentials));
    assert!(world.session_record.is_none());
    assert_eq!(world.session_identifier, identifier_before);
    assert!(world.last_logins.is_empty());
    let response = login_response(&outcome, &cookie_settings());
    assert_eq!(response.status, 401);
    assert_eq!(response.body, "Eメールアドレスまたはパスワードが異なります。");
    // the 401 tells the client to forget both tokens
    assert_eq!(response.cookies.len(), 2);
    assert!(matches!(&response.cookies[0], Cookie::Removal { name } if name == "access_token"));
    assert!(matches!(&response.cookies[1], Cookie::Removal { name } if name == "refresh_token"));
}

#[test]
fn a_login_that_fails_for_want_of_authentication_destroys_the_session() {
    let mut world = World::new();
    world.signup(11, "foo", "foo@example.com", "01abCD#$").ok().unwrap();
    world.login("foo@example.com", "01abCD#$").ok().unwrap();
    assert!(world.session_record.is_some());
    let outcome = world.login("foo@example.com", "wrong");
    assert_eq!(outcome.err(), Some(LoginError::InvalidCredentials));
    assert!(world.session_record.is_none());

    // at the step itself: unknown address, wrong password, user not active
    let finished = |action: LoginAction| match action {
        LoginAction::Finish { outcome, command } => (outcome.err(), command),
        _ => panic!("the login went on"),
    };
    let finding = || {
        let event = LoginEvent::Requested {
            email_address: EmailAddress::gen("foo@example.com").unwrap(),
            raw_password: "01abCD#$".to_owned(),
        };
        login(LoginState::Start, event).0
    };
    let (error, command) = finished(login(finding(), LoginEvent::UserLookedUp(UserLookup::Missing)).1);
    assert_eq!(error, Some(LoginError::InvalidCredentials));
    assert!(matches!(command, SessionCommand::Purge));

    let verifying = |active: bool| {
        let user = User::new(
            UserId::gen(11),
            UserName::new("foo").unwrap(),
            EmailAddress::gen("foo@example.com").unwrap(),
            HashedPassword::new_unchecked("hash"),
            active,
            None,
            None,
            None,
        );
        login(finding(), LoginEvent::UserLookedUp(UserLookup::Found(user))).0
    };
    let (error, command) = finished(
        login(
            verifying(true),
            LoginEvent::PasswordVerified(Some(Err(AuthError::InvalidCredentials))),
        )
        .1,
    );
    assert_eq!(error, Some(LoginError::InvalidCredentials));
    assert!(matches!(command, SessionCommand::Purge));
    let (error, command) =
        finished(login(verifying(false), LoginEvent::PasswordVerified(Some(Ok(())))).1);
    assert_eq!(error, Some(LoginError::NotActive(11)));
    assert!(matches!(command, SessionCommand::Purge));
}

#[test]
fn login_does_not_tell_an_unknown_address_from_a_wrong_password() {
    let mut world = World::new();
    world.signup(11, "foo", "foo@example.com", "01abCD#$").ok().unwrap();
    let unknown = world.login("nobody@example.com", "01abCD#$");
    let wrong = world.login("foo@example.com", "wrong");
    assert_eq!(unknown.as_ref().err(), Some(&LoginError::InvalidCredentials));
    assert_eq!(wrong.as_ref().err(), Some(&LoginError::InvalidCredentials));
    let a = login_response(&unknown, &cookie_settings());
    let b = login_response(&wrong, &cookie_settings());
    assert_eq!(a.status, b.status);
    assert_eq!(a.body, b.body);
    assert_eq!(a.cookies.len(), b.cookies.len());
    assert!(world.session_record.is_none());
}

#[test]
fn login_of_a_user_who_is_not_active_is_refused_with_its_identifier() {
    let mut world = World::new();
    world.signup(11, "foo", "foo@example.com", "01abCD#$").ok().unwrap();
    let active = world.users[0].clone();
    world.users[0] = User::new(
        active.id(),
        active.user_name().clone(),
        active.email_address().clone(),
        active.hashed_password().clone(),
        false,
        None,
        *active.created_at(),
        *active.updated_at(),
    );
    let outcome = world.login("foo@example.com", "01abCD#$");
    assert_eq!(outcome.as_ref().err(), Some(&LoginError::NotActive(11)));
    assert!(world.session_record.is_none());
    let response = login_response(&outcome, &cookie_settings());
    assert_eq!(response.status, 401);
    assert_eq!(response.cookies.len(), 2);
    assert_eq!(
        response.body,
        "ユーザー(00000000-0000-0000-0000-00000000000b)が無効になっています。"
    );
    // with a wrong password the user is not told that the account is not active
    assert_eq!(
        world.login("foo@example.com", "wrong").err(),
        Some(LoginError::InvalidCredentials)
    );
}

#[test]
fn login_whose_commit_fails_destroys_the_session_it_established() {
    let mut world = World::new();
    world.signup(11, "foo", "foo@example.com", "01abCD#$").ok().unwrap();
    world.fail_commit = true;
    let outcome = world.login("foo@example.com", "01abCD#$");
    assert_eq!(
        outcome.as_ref().err(),
        Some(&LoginError::UnexpectedError(Unexpected::Database))
    );
    assert!(world.session_record.is_none());
    assert_eq!(login_response(&outcome, &cookie_settings()).status, 500);
}

#[test]
fn login_failures_on_the_way_are_unexpected_errors() {
    let finished = |action: LoginAction| match action {
        LoginAction::Finish { outcome, command } => (outcome.err(), command),
        _ => panic!("the login went on"),
    };
    let requested = || {
        let event = LoginEvent::Requested {
            email_address: EmailAddress::gen("foo@example.com").unwrap(),
            raw_password: "01abCD#$".to_owned(),
        };
        let (state, action) = login(LoginState::Start, event);
        assert!(matches!(
            action,
            LoginAction::FindUserByEmail { email_address } if email_address.value() == "foo@example.com"
        ));
        state
    };
    let user = |active: bool| {
        User::new(
            UserId::gen(11),
            UserName::new("foo").unwrap(),
            EmailAddress::gen("foo@example.com").unwrap(),
            HashedPassword::new_unchecked("hash"),
            active,
            None,
            None,
            None,
        )
    };
    let (_, action) = login(requested(), LoginEvent::UserLookedUp(UserLookup::Failed));
    let (error, command) = finished(action);
    assert_eq!(error, Some(LoginError::UnexpectedError(Unexpected::Database)));
    assert!(matches!(command, SessionCommand::Keep));

    let verifying = || {
        let (state, action) = login(requested(), LoginEvent::UserLookedUp(UserLookup::Found(user(true))));
        assert!(matches!(
            action,
            LoginAction::VerifyPassword { expected_hashed, raw_password }
                if expected_hashed.value() == "hash" && raw_password == "01abCD#$"
        ));
        state
    };
    for answer in [None, Some(Err(AuthError::UnexpectedError))] {
        let (_, action) = login(verifying(), LoginEvent::PasswordVerified(answer));
        let (error, command) = finished(action);
        assert_eq!(
            error,
            Some(LoginError::UnexpectedError(Unexpected::PasswordVerification))
        );
        assert!(matches!(command, SessionCommand::Keep));
    }
    let minting = || login(verifying(), LoginEvent::PasswordVerified(Some(Ok(())))).0;
    let (_, action) = login(
        minting(),
        LoginEvent::SessionMinted(Err(SessionError::ExpirationOutOfRange)),
    );
    assert_eq!(
        finished(action).0,
        Some(LoginError::UnexpectedError(Unexpected::SessionMinting(
            SessionError::ExpirationOutOfRange
        )))
    );
    let record = |user_id: u128| SessionData {
        user_id,
        access_token: "a".to_owned(),
        access_expiration: NOW + 300,
        refresh_token: "r".to_owned(),
        refresh_expiration: NOW + 1800,
    };
    // a record minted for another user is not taken
    let (_, action) = login(minting(), LoginEvent::SessionMinted(Ok(record(12))));
    assert_eq!(
        finished(action).0,
        Some(LoginError::UnexpectedError(Unexpected::Protocol))
    );
    let updating = || {
        let (state, action) = login(minting(), LoginEvent::SessionMinted(Ok(record(11))));
        assert!(matches!(action, LoginAction::UpdateLastLoggedIn { user_id: 11 }));
        state
    };
    let (_, action) = login(updating(), LoginEvent::LastLoggedInUpdated { succeeded: false });
    let (error, command) = finished(action);
    assert_eq!(error, Some(LoginError::UnexpectedError(Unexpected::Database)));
    assert!(matches!(command, SessionCommand::Keep));

    let establishing = || {
        let (state, action) = login(updating(), LoginEvent::LastLoggedInUpdated { succeeded: true });
        assert!(matches!(
            action,
            LoginAction::EstablishSession { command: SessionCommand::RenewAndReplace(record) }
                if record.user_id == 11 && record.access_token == "a"
        ));
        state
    };
    let (_, action) = login(establishing(), LoginEvent::SessionEstablished { succeeded: false });
    let (error, command) = finished(action);
    assert_eq!(error, Some(LoginError::UnexpectedError(Unexpected::SessionStore)));
    assert!(matches!(command, SessionCommand::Purge));

    // once the session was touched, an event that was not asked for destroys it
    let (_, action) = login(establishing(), LoginEvent::Committed { succeeded: true });
    let (error, command) = finished(action);
    assert_eq!(error, Some(LoginError::UnexpectedError(Unexpected::Protocol)));
    assert!(matches!(command, SessionCommand::Purge));

    let (_, action) = login(LoginState::Start, LoginEvent::Committed { succeeded: true });
    let (error, command) = finished(action);
    assert_eq!(error, Some(LoginError::UnexpectedError(Unexpected::Protocol)));
    assert!(matches!(command, SessionCommand::Keep));
}

#[test]
fn logout_twice_never_fails_and_leaves_no_session() {
    let mut world = World::new();
    world.signup(11, "foo", "foo@example.com", "01abCD#$").ok().unwrap();
    world.login("foo@example.com", "01abCD#$").ok().unwrap();
    assert!(world.session_record.is_some());
    let first = logout();
    assert!(matches!(first, SessionCommand::Purge));
    world.apply(first);
    assert!(world.session_record.is_none());
    let second = logout();
    assert!(matches!(second, SessionCommand::Purge));
    world.apply(second);
    assert!(world.session_record.is_none());
    let response = logout_response();
    assert_eq!(response.status, 200);
    assert_eq!(response.cookies.len(), 2);
}

#[test]
fn change_of_password_stores_the_new_hash_and_destroys_the_session() {
    let mut world = World::new();
    world.signup(11, "foo", "foo@example.com", "01abCD#$").ok().unwrap();
    world.login("foo@example.com", "01abCD#$").ok().unwrap();
    let user = world.users[0].clone();
    let outcome = world.change_password(&user, "01abCD#$", "6i8TR:6Al@.d");
    assert_eq!(outcome, Ok(()));
    assert!(world.session_record.is_none());
    assert_eq!(
        verify_password(world.users[0].hashed_password().value(), "6i8TR:6Al@.d"),
        Ok(())
    );
    assert_eq!(
        world.login("foo@example.com", "01abCD#$").err(),
        Some(LoginError::InvalidCredentials)
    );
    assert!(world.login("foo@example.com", "6i8TR:6Al@.d").is_ok());
    let response = change_password_response(&outcome);
    assert_eq!(response.status, 200);
    assert_eq!(response.cookies.len(), 2);
}

#[test]
fn change_of_password_with_a_wrong_current_password_is_400_and_keeps_the_session() {
    let mut world = World::new();
    world.signup(11, "foo", "foo@example.com", "01abCD#$").ok().unwrap();
    let session = world.login("foo@example.com", "01abCD#$").ok().unwrap();
    let user = world.users[0].clone();
    let old_hash = user.hashed_password().value().to_owned();
    let outcome = world.change_password(&user, "01abCD#%", "6i8TR:6Al@.d");
    assert_eq!(outcome, Err(ChangePasswordError::IncorrectCurrentPassword));
    assert_eq!(world.users[0].hashed_password().value(), old_hash);
    assert_eq!(
        world.session_record.as_ref().map(|s| s.access_token.clone()),
        Some(session.access_token)
    );
    let response = change_password_response(&outcome);
    assert_eq!(response.status, 400);
    assert_eq!(response.body, "現在のパスワードが間違っています。");
    assert!(response.cookies.is_empty());
}

#[test]
fn change_of_password_failures_on_the_way() {
    let finished = |action: ChangePasswordAction| match action {
        ChangePasswordAction::Finish { outcome, command } => (outcome, command),
        _ => panic!("the change went on"),
    };
    let user = User::new(
        UserId::gen(11),
        UserName::new("foo").unwrap(),
        EmailAddress::gen("foo@example.com").unwrap(),
        HashedPassword::new_unchecked("hash"),
        true,
        None,
        None,
        None,
    );
    let verifying = || {
        let event = ChangePasswordEvent::Requested {
            user: user.clone(),
            current_password: RawPassword::new("01abCD#$").ok().unwrap(),
            new_password: RawPassword::new("6i8TR:6Al@.d").ok().unwrap(),
        };
        let (state, action) = change_password(ChangePasswordState::Start, event);
        assert!(matches!(
            action,
            ChangePasswordAction::VerifyPassword { expected_hashed, raw_password }
                if expected_hashed.value() == "hash" && raw_password.value() == "01abCD#$"
        ));
        state
    };
    for answer in [None, Some(Err(AuthError::UnexpectedError))] {
        let (_, action) = change_password(verifying(), ChangePasswordEvent::PasswordVerified(answer));
        let (outcome, command) = finished(action);
        assert_eq!(
            outcome,
            Err(ChangePasswordError::UnexpectedError(Unexpected::PasswordVerification))
        );
        assert!(matches!(command, SessionCommand::Keep));
    }
    let hashing = || {
        let (state, action) = change_password(
            verifying(),
            ChangePasswordEvent::PasswordVerified(Some(Ok(()))),
        );
        assert!(matches!(
            action,
            ChangePasswordAction::HashPassword { password } if password.value() == "6i8TR:6Al@.d"
        ));
        state
    };
    let (_, action) = change_password(
        hashing(),
        ChangePasswordEvent::PasswordHashed(Err(AuthError::UnexpectedError)),
    );
    assert_eq!(
        finished(action).0,
        Err(ChangePasswordError::UnexpectedError(Unexpected::PasswordHashing))
    );
    let storing = || {
        let (state, action) = change_password(
            hashing(),
            ChangePasswordEvent::PasswordHashed(Ok(HashedPassword::new_unchecked("new-hash"))),
        );
        assert!(matches!(
            action,
            ChangePasswordAction::StorePassword { user_id: 11, hashed_password }
                if hashed_password.value() == "new-hash"
        ));
        state
    };
    let (_, action) = change_password(
        storing(),
        ChangePasswordEvent::PasswordStored(PasswordStoreOutcome::NotFound),
    );
    let (outcome, command) = finished(action);
    assert_eq!(outcome, Err(ChangePasswordError::NotFound(11)));
    assert!(matches!(command, SessionCommand::Keep));
    assert_eq!(change_password_response(&outcome).status, 400);
    assert_eq!(
        change_password_response(&outcome).body,
        "ユーザー(00000000-0000-0000-0000-00000000000b)が存在しません。"
    );

    let (_, action) = change_password(
        storing(),
        ChangePasswordEvent::PasswordStored(PasswordStoreOutcome::Failed),
    );
    let (outcome, _) = finished(action);
    assert_eq!(outcome, Err(ChangePasswordError::UnexpectedError(Unexpected::Database)));
    assert_eq!(change_password_response(&outcome).status, 500);

    let (committing, action) = change_password(
        storing(),
        ChangePasswordEvent::PasswordStored(PasswordStoreOutcome::Stored),
    );
    assert!(matches!(action, ChangePasswordAction::Commit));
    let (_, action) = change_password(committing, ChangePasswordEvent::Committed { succeeded: false });
    let (outcome, command) = finished(action);
    assert_eq!(outcome, Err(ChangePasswordError::UnexpectedError(Unexpected::Database)));
    assert!(matches!(command, SessionCommand::Keep));

    let (_, action) = change_password(
        ChangePasswordState::Start,
        ChangePasswordEvent::Committed { succeeded: true },
    );
    assert_eq!(
        finished(action).0,
        Err(ChangePasswordError::UnexpectedError(Unexpected::Protocol))
    );
}

#[test]
fn unexpected_causes_have_messages() {
    assert_eq!(Unexpected::Database.message(), "データベースがエラーを返却しました。");
    assert_eq!(
        Unexpected::SessionMinting(SessionError::ExpirationOutOfRange).message(),
        "トークンの有効期限を計算できません。"
    );
    assert_eq!(
        SignupError::UnexpectedError(Unexpected::PasswordHashing).message(),
        "パスワードをハッシュ化できませんでした。"
    );
    assert_eq!(
        LoginError::UnexpectedError(Unexpected::SessionStore).message(),
        "セッションデータを読み書きできませんでした。"
    );
}
