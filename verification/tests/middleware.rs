use jwt_auth::email_address::EmailAddress;
use jwt_auth::http::{Cookie, HttpResponse};
use jwt_auth::middleware::{
    finish_response, get_tokens, AppData, AuthAction, AuthEvent, JwtAuth, JwtAuthMiddleware,
    Rejection, SessionLookup, UserLookup,
};
use jwt_auth::session::{session_data_at, SessionData, SessionError};
use jwt_auth::settings::{SameSite, SessionCookieSettings, TokensSettings};
use jwt_auth::tokens::TokenError;
use jwt_auth::users::{HashedPassword, User, UserId, UserName};

const NOW: u64 = 1_700_000_000;

fn session(user_id: u128, access_expiration: u64, refresh_expiration: u64) -> SessionData {
    SessionData {
        user_id,
        access_token: "foo".to_owned(),
        access_expiration,
        refresh_token: "bar".to_owned(),
        refresh_expiration,
    }
}

fn user(id: u128) -> User {
    User::new(
        UserId::gen(id),
        UserName::new("taro").unwrap(),
        EmailAddress::gen("taro@example.com").unwrap(),
        HashedPassword::new_unchecked("hash"),
        true,
        None,
        None,
        None,
    )
}

fn request(lookup: SessionLookup, access: Option<&str>, refresh: Option<&str>) -> AuthEvent {
    AuthEvent::RequestReceived {
        lookup,
        access_token: access.map(|s| s.to_owned()),
        refresh_token: refresh.map(|s| s.to_owned()),
        now: NOW,
    }
}

fn start() -> JwtAuthMiddleware {
    JwtAuth.new_transform()
}

fn rejection(action: &AuthAction) -> Rejection {
    match action {
        AuthAction::Reject(rejection) => *rejection,
        _ => panic!("not a rejection"),
    }
}

#[test]
fn a_request_with_a_valid_access_token_passes_through_unchanged() {
    let middleware = start();
    assert!(!middleware.is_finished());
    let found = SessionLookup::Found(session(7, NOW + 300, NOW + 1800));
    let (middleware, action) = middleware.call(request(found, Some("foo"), Some("bar")));
    assert!(matches!(action, AuthAction::LoadUser { user_id: 7 }));
    assert!(!middleware.is_finished());

    let (middleware, action) = middleware.call(AuthEvent::UserLoaded(UserLookup::Found(user(7))));
    match &action {
        AuthAction::CallHandler { user } => assert_eq!(user.id().value(), 7),
        _ => panic!("the handler was not called"),
    }
    assert!(!middleware.is_finished());

    let (middleware, action) = middleware.call(AuthEvent::HandlerFinished { succeeded: true });
    assert!(matches!(action, AuthAction::PassResponse { rotated: None }));
    assert!(middleware.is_finished());
}

#[test]
fn a_request_with_an_expired_access_token_gets_new_tokens_after_the_handler() {
    let settings = TokensSettings {
        secret_key: "some-secret".to_owned(),
        access_token_duration: 300,
        refresh_token_duration: 1800,
    };
    let found = SessionLookup::Found(session(7, NOW - 1, NOW + 1800));
    let (middleware, action) = start().call(request(found, Some("stale"), Some("bar")));
    assert!(matches!(action, AuthAction::LoadUser { user_id: 7 }));

    let (middleware, action) = middleware.call(AuthEvent::UserLoaded(UserLookup::Found(user(7))));
    assert!(matches!(action, AuthAction::CallHandler { .. }));

    // nothing is minted before the handler has answered
    let (middleware, action) = middleware.call(AuthEvent::HandlerFinished { succeeded: true });
    assert!(matches!(action, AuthAction::MintSession { user_id: 7 }));
    assert!(!middleware.is_finished());

    let minted = session_data_at(7, &settings, NOW).unwrap();
    let access_token = minted.access_token.clone();
    let refresh_token = minted.refresh_token.clone();
    let (middleware, action) = middleware.call(AuthEvent::SessionMinted(Ok(minted)));
    match &action {
        AuthAction::StoreSession { session } => {
            assert_eq!(session.user_id, 7);
            assert_eq!(session.access_token, access_token);
            assert_eq!(session.access_expiration, NOW + 300);
            assert_eq!(session.refresh_expiration, NOW + 1800);
        }
        _ => panic!("the record was not stored"),
    }
    assert!(!middleware.is_finished());

    let (middleware, action) = middleware.call(AuthEvent::SessionStored { succeeded: true });
    assert!(middleware.is_finished());
    let rotated = match action {
        AuthAction::PassResponse { rotated } => rotated,
        _ => panic!("the response did not pass"),
    };
    let record = rotated.as_ref().unwrap();
    assert_eq!(record.access_token, access_token);
    assert_eq!(record.refresh_token, refresh_token);

    // the handler's response keeps status and body and gains the two cookies
    let cookie_settings = SessionCookieSettings { secure: true, same_site: SameSite::Lax };
    let mut response = HttpResponse::with_body(200, "7".to_owned());
    finish_response(&mut response, &rotated, &cookie_settings);
    assert_eq!(response.status, 200);
    assert_eq!(response.body, "7");
    assert_eq!(response.cookies.len(), 2);
    assert!(matches!(
        &response.cookies[0],
        Cookie::Store { name, value, path, secure: true, http_only: true, same_site: SameSite::Lax }
            if name == "access_token" && *value == access_token && path == "/"
    ));
    assert!(matches!(
        &response.cookies[1],
        Cookie::Store { name, value, .. } if name == "refresh_token" && *value == refresh_token
    ));
}

#[test]
fn a_passed_response_without_rotation_gains_no_cookie() {
    let cookie_settings = SessionCookieSettings { secure: true, same_site: SameSite::Lax };
    let mut response = HttpResponse::with_body(404, "nothing here".to_owned());
    response.add_cookie(Cookie::Removal { name: "x".to_owned() });
    finish_response(&mut response, &None, &cookie_settings);
    assert_eq!(response.status, 404);
    assert_eq!(response.body, "nothing here");
    assert_eq!(response.cookies.len(), 1);
}

#[test]
fn a_request_without_a_session_record_is_refused_before_its_tokens_are_looked_at() {
    for (access, refresh) in [(None, None), (Some("foo"), Some("bar")), (Some(""), None)] {
        let (middleware, action) = start().call(request(SessionLookup::Missing, access, refresh));
        assert_eq!(rejection(&action), Rejection::NotAuthenticated);
        assert!(middleware.is_finished());
    }
    let response = Rejection::NotAuthenticated.to_response();
    assert_eq!(response.status, 401);
    assert_eq!(response.body, "認証されていません。");
    assert!(Rejection::NotAuthenticated.destroys_session());
}

#[test]
fn refused_tokens_end_the_request_with_a_401_that_destroys_the_session() {
    // wrong access token before its expiry
    let found = SessionLookup::Found(session(7, NOW + 300, NOW + 1800));
    let (middleware, action) = start().call(request(found, Some("baz"), Some("bar")));
    assert_eq!(rejection(&action), Rejection::TokensRefused);
    assert!(middleware.is_finished());
    // expired refresh token, whatever the access token
    let found = SessionLookup::Found(session(7, NOW + 300, NOW - 1));
    let (_, action) = start().call(request(found, Some("foo"), Some("bar")));
    assert_eq!(rejection(&action), Rejection::TokensRefused);
    // wrong refresh token after the access token's expiry
    let found = SessionLookup::Found(session(7, NOW - 1, NOW + 1800));
    let (_, action) = start().call(request(found, Some("foo"), Some("baz")));
    assert_eq!(rejection(&action), Rejection::TokensRefused);
    // a request without token cookies presents empty tokens
    let found = SessionLookup::Found(session(7, NOW + 300, NOW + 1800));
    let (_, action) = start().call(request(found, None, None));
    assert_eq!(rejection(&action), Rejection::TokensRefused);

    let rejection = Rejection::TokensRefused;
    assert_eq!(rejection.status(), 401);
    assert!(rejection.destroys_session());
    let response = rejection.to_response();
    assert_eq!(response.status, 401);
    assert_eq!(response.cookies.len(), 2);
    assert!(matches!(&response.cookies[0], Cookie::Removal { name } if name == "access_token"));
    assert!(matches!(&response.cookies[1], Cookie::Removal { name } if name == "refresh_token"));
}

#[test]
fn an_empty_stored_token_is_matched_by_a_missing_cookie() {
    let mut record = session(7, NOW + 300, NOW + 1800);
    record.access_token = String::new();
    let (_, action) = start().call(request(SessionLookup::Found(record), None, None));
    assert!(matches!(action, AuthAction::LoadUser { user_id: 7 }));
    assert_eq!(get_tokens(None, Some("r".to_owned())), (String::new(), "r".to_owned()));
    assert_eq!(
        get_tokens(Some("a".to_owned()), None),
        ("a".to_owned(), String::new())
    );
}

#[test]
fn a_vanished_user_is_refused_as_unauthenticated() {
    let found = SessionLookup::Found(session(7, NOW + 300, NOW + 1800));
    let (middleware, _) = start().call(request(found, Some("foo"), Some("bar")));
    let (middleware, action) = middleware.call(AuthEvent::UserLoaded(UserLookup::Missing));
    assert_eq!(rejection(&action), Rejection::UserMissing);
    assert!(middleware.is_finished());
    assert_eq!(Rejection::UserMissing.status(), 401);
    assert!(Rejection::UserMissing.destroys_session());
    assert_eq!(
        Rejection::UserMissing.message(),
        "セッションデータに含まれているユーザーは存在しません。"
    );
}

#[test]
fn another_user_than_the_sessions_is_never_handed_to_the_handler() {
    let found = SessionLookup::Found(session(7, NOW + 300, NOW + 1800));
    let (middleware, _) = start().call(request(found, Some("foo"), Some("bar")));
    let (middleware, action) = middleware.call(AuthEvent::UserLoaded(UserLookup::Found(user(8))));
    assert_eq!(rejection(&action), Rejection::UserMissing);
    assert!(middleware.is_finished());
}

#[test]
fn failures_of_the_stores_are_internal_errors_that_keep_the_session() {
    let (middleware, action) = start().call(request(SessionLookup::Failed, Some("foo"), None));
    assert_eq!(rejection(&action), Rejection::SessionStoreFailed);
    assert!(middleware.is_finished());

    let found = SessionLookup::Found(session(7, NOW + 300, NOW + 1800));
    let (middleware, _) = start().call(request(found, Some("foo"), Some("bar")));
    let (_, action) = middleware.call(AuthEvent::UserLoaded(UserLookup::Failed));
    assert_eq!(rejection(&action), Rejection::UserStoreFailed);

    for rejection in [
        Rejection::SessionStoreFailed,
        Rejection::UserStoreFailed,
        Rejection::AppDataMissing(AppData::Settings),
        Rejection::AppDataMissing(AppData::ConnectionPool),
        Rejection::MintFailed(SessionError::ExpirationOutOfRange),
        Rejection::UnexpectedEvent,
    ] {
        assert_eq!(rejection.status(), 500);
        assert!(!rejection.destroys_session());
        let response = rejection.to_response();
        assert_eq!(response.status, 500);
        assert!(response.cookies.is_empty());
        assert_eq!(response.body, rejection.message());
    }
}

#[test]
fn missing_application_data_is_an_internal_error() {
    let (middleware, action) = start().call(AuthEvent::AppDataMissing(AppData::Settings));
    assert_eq!(rejection(&action), Rejection::AppDataMissing(AppData::Settings));
    assert!(middleware.is_finished());
    assert_eq!(
        Rejection::AppDataMissing(AppData::Settings).message(),
        "システム設定を取得できませんでした。"
    );
    let (_, action) = start().call(AuthEvent::AppDataMissing(AppData::ConnectionPool));
    assert_eq!(
        rejection(&action).message(),
        "データベースコネクションプールを取得できませんでした。"
    );
}

#[test]
fn a_failed_handler_is_handed_on_and_no_tokens_are_replaced() {
    let found = SessionLookup::Found(session(7, NOW - 1, NOW + 1800));
    let (middleware, _) = start().call(request(found, Some("foo"), Some("bar")));
    let (middleware, _) = middleware.call(AuthEvent::UserLoaded(UserLookup::Found(user(7))));
    let (middleware, action) = middleware.call(AuthEvent::HandlerFinished { succeeded: false });
    assert!(matches!(action, AuthAction::PropagateHandlerError));
    assert!(middleware.is_finished());
}

#[test]
fn a_failed_minting_or_storing_is_an_internal_error() {
    let refreshing = || {
        let found = SessionLookup::Found(session(7, NOW - 1, NOW + 1800));
        let (middleware, _) = start().call(request(found, Some("foo"), Some("bar")));
        let (middleware, _) = middleware.call(AuthEvent::UserLoaded(UserLookup::Found(user(7))));
        let (middleware, _) = middleware.call(AuthEvent::HandlerFinished { succeeded: true });
        middleware
    };
    let (middleware, action) =
        refreshing().call(AuthEvent::SessionMinted(Err(SessionError::Token(TokenError::Signing))));
    assert_eq!(
        rejection(&action),
        Rejection::MintFailed(SessionError::Token(TokenError::Signing))
    );
    assert!(middleware.is_finished());

    // a record minted for another user is not stored
    let (middleware, action) =
        refreshing().call(AuthEvent::SessionMinted(Ok(session(8, NOW + 300, NOW + 1800))));
    assert_eq!(rejection(&action), Rejection::UnexpectedEvent);
    assert!(middleware.is_finished());

    let (middleware, _) =
        refreshing().call(AuthEvent::SessionMinted(Ok(session(7, NOW + 300, NOW + 1800))));
    let (middleware, action) = middleware.call(AuthEvent::SessionStored { succeeded: false });
    assert_eq!(rejection(&action), Rejection::SessionStoreFailed);
    assert!(middleware.is_finished());
}

#[test]
fn an_event_that_was_not_asked_for_ends_the_request() {
    let (middleware, action) = start().call(AuthEvent::HandlerFinished { succeeded: true });
    assert_eq!(rejection(&action), Rejection::UnexpectedEvent);
    assert!(middleware.is_finished());

    let (_, action) = start().call(AuthEvent::UserLoaded(UserLookup::Found(user(7))));
    assert_eq!(rejection(&action), Rejection::UnexpectedEvent);

    let found = SessionLookup::Found(session(7, NOW + 300, NOW + 1800));
    let (middleware, _) = start().call(request(found, Some("foo"), Some("bar")));
    let (middleware, action) = middleware.call(AuthEvent::SessionStored { succeeded: true });
    assert_eq!(rejection(&action), Rejection::UnexpectedEvent);

    // a finished middleware answers everything with a rejection
    let (middleware, action) = middleware.call(AuthEvent::HandlerFinished { succeeded: true });
    assert_eq!(rejection(&action), Rejection::UnexpectedEvent);
    assert!(middleware.is_finished());
}
