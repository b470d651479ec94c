use jwt_auth::clock::{current_unix_epoch, unix_epoch_of};
use jwt_auth::http::{Cookie, HttpResponse};
use jwt_auth::session::{
    add_session_data_cookies, assemble_session, build_session_data_cookie, generate_session_data,
    session_data_at, token_expirations, SessionData, SessionError, ACCESS_TOKEN_COOKIE_NAME,
    REFRESH_TOKEN_COOKIE_NAME,
};
use jwt_auth::settings::{SameSite, SessionCookieSettings, TokensSettings};
use jwt_auth::token_validation::{inspect_token_at, TokenValidation};
use jwt_auth::tokens::{generate_jwt, get_claim_from_jwt, TokenError};

fn settings(access: u64, refresh: u64) -> TokensSettings {
    TokensSettings {
        secret_key: "some-secret".to_owned(),
        access_token_duration: access,
        refresh_token_duration: refresh,
    }
}

fn store_cookie(cookie: &Cookie) -> (String, String, String, bool, bool, SameSite) {
    match cookie {
        Cookie::Store { name, value, path, secure, http_only, same_site } => (
            name.clone(),
            value.clone(),
            path.clone(),
            *secure,
            *http_only,
            *same_site,
        ),
        Cookie::Removal { name } => panic!("removal of {}", name),
    }
}

#[test]
fn both_expiry_instants_are_counted_from_one_base() {
    assert_eq!(token_expirations(1000, &settings(300, 1800)), Some((1300, 2800)));
    assert_eq!(token_expirations(0, &settings(0, 0)), Some((0, 0)));
    assert_eq!(
        token_expirations(u64::MAX - 1800, &settings(300, 1800)),
        Some((u64::MAX - 1500, u64::MAX))
    );
}

#[test]
fn an_expiry_instant_beyond_the_range_is_refused() {
    assert_eq!(token_expirations(u64::MAX - 1799, &settings(300, 1800)), None);
    assert_eq!(token_expirations(u64::MAX, &settings(1, 0)), None);
    assert_eq!(token_expirations(1, &settings(0, u64::MAX)), None);
    assert!(matches!(
        session_data_at(7, &settings(300, 1800), u64::MAX - 1799),
        Err(SessionError::ExpirationOutOfRange)
    ));
}

#[test]
fn no_session_is_minted_with_an_access_token_that_outlives_the_refresh_token() {
    assert!(matches!(
        session_data_at(7, &settings(1801, 1800), 1_700_000_000),
        Err(SessionError::LifetimesOutOfOrder)
    ));
    assert!(matches!(
        session_data_at(7, &settings(10, 3), 5),
        Err(SessionError::LifetimesOutOfOrder)
    ));
    // the order of the lifetimes is looked at before the range of the instants
    assert!(matches!(
        session_data_at(7, &settings(2, 1), u64::MAX),
        Err(SessionError::LifetimesOutOfOrder)
    ));
    assert!(matches!(
        generate_session_data(7, &settings(1801, 1800)),
        Err(SessionError::LifetimesOutOfOrder)
    ));
    // equal lifetimes are in order
    let session = session_data_at(7, &settings(1800, 1800), 1_700_000_000).unwrap();
    assert_eq!(session.access_expiration, session.refresh_expiration);
    assert_eq!(
        SessionError::LifetimesOutOfOrder.message(),
        "アクセストークンの有効期間がリフレッシュトークンの有効期間を超えています。"
    );
}

#[test]
fn a_session_is_put_together_from_its_parts() {
    let session = assemble_session(7, 1300, 2800, Ok(("a".to_owned(), "r".to_owned()))).unwrap();
    assert_eq!(session.user_id, 7);
    assert_eq!(session.access_token, "a");
    assert_eq!(session.access_expiration, 1300);
    assert_eq!(session.refresh_token, "r");
    assert_eq!(session.refresh_expiration, 2800);
    assert!(matches!(
        assemble_session(7, 1300, 2800, Err(TokenError::Signing)),
        Err(SessionError::Token(TokenError::Signing))
    ));
}

#[test]
fn a_minted_session_holds_the_tokens_of_its_user_and_instants() {
    let session = session_data_at(7, &settings(300, 1800), 1_700_000_000).unwrap();
    assert_eq!(session.user_id, 7);
    assert_eq!(session.access_expiration, 1_700_000_300);
    assert_eq!(session.refresh_expiration, 1_700_001_800);
    assert_eq!(
        session.access_token,
        generate_jwt(7, "some-secret", 1_700_000_300).unwrap()
    );
    assert_eq!(
        session.refresh_token,
        generate_jwt(7, "some-secret", 1_700_001_800).unwrap()
    );
    let claim = get_claim_from_jwt(&session.refresh_token, "some-secret").unwrap();
    assert_eq!(claim.user_id, 7);
    assert_eq!(claim.expiration, 1_700_001_800);
    assert!(session.access_expiration <= session.refresh_expiration);
}

#[test]
fn a_minted_session_validates_with_its_own_tokens_at_its_base_instant() {
    for (base, access, refresh) in [(1_700_000_000u64, 300u64, 1800u64), (0, 0, 0), (5, 3, 10)] {
        let session = session_data_at(9, &settings(access, refresh), base).unwrap();
        assert_eq!(
            inspect_token_at(&session, &session.access_token, &session.refresh_token, base),
            TokenValidation::Succeed
        );
    }
}

#[test]
fn a_session_minted_now_is_counted_from_the_clock() {
    let before = current_unix_epoch();
    let session = generate_session_data(9, &settings(300, 1800)).unwrap();
    let after = current_unix_epoch();
    assert_eq!(session.user_id, 9);
    assert!(before + 300 <= session.access_expiration);
    assert!(session.access_expiration <= after + 300);
    assert_eq!(session.refresh_expiration - session.access_expiration, 1500);
    assert_eq!(
        inspect_token_at(&session, &session.access_token, &session.refresh_token, after),
        TokenValidation::Succeed
    );
}

#[test]
fn the_clock_reads_a_plausible_instant() {
    let now = current_unix_epoch();
    // after 2020-01-01 and before 2200-01-01
    assert!(now > 1_577_836_800);
    assert!(now < 7_258_118_400);
}

#[test]
fn session_data_clone_keeps_every_field() {
    let session = SessionData {
        user_id: 3,
        access_token: "a".to_owned(),
        access_expiration: 1,
        refresh_token: "r".to_owned(),
        refresh_expiration: 2,
    };
    let copy = session.clone();
    assert_eq!(copy.user_id, 3);
    assert_eq!(copy.access_token, "a");
    assert_eq!(copy.access_expiration, 1);
    assert_eq!(copy.refresh_token, "r");
    assert_eq!(copy.refresh_expiration, 2);
}

#[test]
fn a_token_cookie_has_the_configured_attributes() {
    let settings = SessionCookieSettings { secure: true, same_site: SameSite::Strict };
    let cookie = build_session_data_cookie("access_token", "abc", &settings);
    assert_eq!(
        store_cookie(&cookie),
        ("access_token".to_owned(), "abc".to_owned(), "/".to_owned(), true, true, SameSite::Strict)
    );
    let settings = SessionCookieSettings { secure: false, same_site: SameSite::Unrestricted };
    let cookie = build_session_data_cookie("x", "", &settings);
    assert_eq!(
        store_cookie(&cookie),
        ("x".to_owned(), "".to_owned(), "/".to_owned(), false, true, SameSite::Unrestricted)
    );
}

#[test]
fn token_cookies_are_added_after_those_already_there() {
    assert_eq!(ACCESS_TOKEN_COOKIE_NAME, "access_token");
    assert_eq!(REFRESH_TOKEN_COOKIE_NAME, "refresh_token");
    let settings = SessionCookieSettings { secure: true, same_site: SameSite::Lax };
    let mut response = HttpResponse::with_body(200, "body".to_owned());
    response.add_cookie(Cookie::Removal { name: "old".to_owned() });
    add_session_data_cookies(&mut response, "acc", "ref", &settings);
    assert_eq!(response.status, 200);
    assert_eq!(response.body, "body");
    assert_eq!(response.cookies.len(), 3);
    assert!(matches!(&response.cookies[0], Cookie::Removal { name } if name == "old"));
    assert_eq!(
        store_cookie(&response.cookies[1]),
        ("access_token".to_owned(), "acc".to_owned(), "/".to_owned(), true, true, SameSite::Lax)
    );
    assert_eq!(
        store_cookie(&response.cookies[2]),
        ("refresh_token".to_owned(), "ref".to_owned(), "/".to_owned(), true, true, SameSite::Lax)
    );
}

#[test]
fn session_error_messages() {
    assert_eq!(
        SessionError::ExpirationOutOfRange.message(),
        "トークンの有効期限を計算できません。"
    );
    assert_eq!(
        SessionError::Token(TokenError::Signing).message(),
        "JWTトークンペアを生成するときにエラーが発生しました。JWTに署名できませんでした。"
    );
}

#[test]
fn a_clock_before_the_epoch_counts_as_the_epoch() {
    assert_eq!(unix_epoch_of(Some(0)), 0);
    assert_eq!(unix_epoch_of(Some(1_700_000_000)), 1_700_000_000);
    assert_eq!(unix_epoch_of(Some(u64::MAX)), u64::MAX);
    assert_eq!(unix_epoch_of(None), 0);
}
