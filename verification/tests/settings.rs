use jwt_auth::settings::{
    bool_from_text, get_settings, seconds_from_text, str_to_same_site, u16_from_text,
    DatabaseSettings, EnvTexts, EnvValues, SameSite, SessionCookieSettings, SessionStoreSettings,
    SettingsError, TokensSettings, WebAppSettings, MAX_TOKEN_SECONDS,
};

fn texts() -> EnvTexts {
    EnvTexts {
        rust_log: "info".to_owned(),
        web_app_host: "127.0.0.1".to_owned(),
        web_app_port: "8000".to_owned(),
        session_cookie_secure: "true".to_owned(),
        session_cookie_same_site: "lax".to_owned(),
        token_secret_key: "some-secret".to_owned(),
        access_token_seconds: "300".to_owned(),
        refresh_token_seconds: "1800".to_owned(),
        session_store_uri: "redis://localhost:6379".to_owned(),
        session_store_key: "store-key".to_owned(),
        postgres_user_name: "postgres".to_owned(),
        postgres_user_password: "password".to_owned(),
        postgres_host: "localhost".to_owned(),
        postgres_port: "5432".to_owned(),
        postgres_database_name: "auth".to_owned(),
    }
}

fn values() -> EnvValues {
    texts().parse().ok().unwrap()
}

#[test]
fn same_site_is_read_from_its_lower_case_name() {
    assert_eq!(str_to_same_site("none"), Ok(SameSite::Unrestricted));
    assert_eq!(str_to_same_site("lax"), Ok(SameSite::Lax));
    assert_eq!(str_to_same_site("strict"), Ok(SameSite::Strict));
    for other in ["", "None", "LAX", "Strict", " lax", "lax ", "relaxed"] {
        assert_eq!(
            str_to_same_site(other),
            Err(SettingsError::SessionCookieSameSite),
            "{:?}",
            other
        );
    }
}

#[test]
fn truth_values_are_read_from_true_and_false() {
    assert_eq!(bool_from_text("true"), Some(true));
    assert_eq!(bool_from_text("false"), Some(false));
    for other in ["", "True", "FALSE", "1", "0", "yes", " true"] {
        assert_eq!(bool_from_text(other), None, "{:?}", other);
        assert_eq!(bool_from_text(other), other.parse::<bool>().ok());
    }
}

#[test]
fn ports_are_read() {
    assert_eq!(u16_from_text("0"), Some(0));
    assert_eq!(u16_from_text("8000"), Some(8000));
    assert_eq!(u16_from_text("65535"), Some(65535));
    assert_eq!(u16_from_text("65536"), None);
    assert_eq!(u16_from_text("-1"), None);
    assert_eq!(u16_from_text(""), None);
    assert_eq!(u16_from_text("80a"), None);
}

#[test]
fn lifetimes_are_read_in_seconds() {
    assert_eq!(seconds_from_text("0"), Some(0));
    assert_eq!(seconds_from_text("300"), Some(300));
    assert_eq!(seconds_from_text("9223372036854775807"), Some(MAX_TOKEN_SECONDS));
    assert_eq!(seconds_from_text("9223372036854775808"), None);
    assert_eq!(seconds_from_text("-300"), None);
    assert_eq!(seconds_from_text("5m"), None);
    assert_eq!(MAX_TOKEN_SECONDS, i64::MAX as u64);
}

#[test]
fn environment_texts_are_read_into_values() {
    let values = values();
    assert_eq!(values.rust_log, "info");
    assert_eq!(values.web_app_host, "127.0.0.1");
    assert_eq!(values.web_app_port, 8000);
    assert!(values.session_cookie_secure);
    assert_eq!(values.session_cookie_same_site, SameSite::Lax);
    assert_eq!(values.token_secret_key, "some-secret");
    assert_eq!(values.access_token_duration, 300);
    assert_eq!(values.refresh_token_duration, 1800);
    assert_eq!(values.session_store_uri, "redis://localhost:6379");
    assert_eq!(values.session_store_key, "store-key");
    assert_eq!(values.postgres_user_name, "postgres");
    assert_eq!(values.postgres_user_password, "password");
    assert_eq!(values.postgres_host, "localhost");
    assert_eq!(values.postgres_port, 5432);
    assert_eq!(values.postgres_database_name, "auth");
}

#[test]
fn the_first_unreadable_text_decides_the_error() {
    let mut t = texts();
    t.web_app_port = "70000".to_owned();
    t.postgres_port = "x".to_owned();
    assert_eq!(t.parse().err(), Some(SettingsError::WebAppPort));

    let mut t = texts();
    t.session_cookie_secure = "yes".to_owned();
    t.session_cookie_same_site = "loose".to_owned();
    assert_eq!(t.parse().err(), Some(SettingsError::SessionCookieSecure));

    let mut t = texts();
    t.session_cookie_same_site = "loose".to_owned();
    assert_eq!(t.parse().err(), Some(SettingsError::SessionCookieSameSite));

    let mut t = texts();
    t.access_token_seconds = "-1".to_owned();
    t.refresh_token_seconds = "".to_owned();
    assert_eq!(t.parse().err(), Some(SettingsError::AccessTokenSeconds));

    let mut t = texts();
    t.refresh_token_seconds = "".to_owned();
    assert_eq!(t.parse().err(), Some(SettingsError::RefreshTokenSeconds));

    // an access token may not outlive the refresh token
    let mut t = texts();
    t.access_token_seconds = "1801".to_owned();
    t.postgres_port = "x".to_owned();
    assert_eq!(t.parse().err(), Some(SettingsError::TokenSecondsOutOfOrder));
    let mut t = texts();
    t.access_token_seconds = "1800".to_owned();
    let equal = t.parse().ok().unwrap();
    assert_eq!(equal.access_token_duration, 1800);
    assert_eq!(equal.refresh_token_duration, 1800);

    let mut t = texts();
    t.postgres_port = "65536".to_owned();
    assert_eq!(t.parse().err(), Some(SettingsError::PostgresPort));
}

#[test]
fn socket_address_is_host_colon_port() {
    let settings = WebAppSettings { host: "127.0.0.1".to_owned(), port: 8000 };
    assert_eq!(settings.socket_address(), "127.0.0.1:8000");
    let settings = WebAppSettings { host: "localhost".to_owned(), port: 0 };
    assert_eq!(settings.socket_address(), "localhost:0");
    let settings = WebAppSettings { host: "".to_owned(), port: 65535 };
    assert_eq!(settings.socket_address(), ":65535");
    let settings = WebAppSettings { host: "::1".to_owned(), port: 80 };
    assert_eq!(settings.socket_address(), "::1:80");
    assert_eq!(settings.clone().socket_address(), "::1:80");
}

#[test]
fn each_group_of_settings_takes_its_values() {
    let env = values();
    let web_app = WebAppSettings::default(&env);
    assert_eq!(web_app.host, "127.0.0.1");
    assert_eq!(web_app.port, 8000);
    assert_eq!(web_app.socket_address(), "127.0.0.1:8000");

    let cookie = SessionCookieSettings::default(&env);
    assert_eq!(cookie, SessionCookieSettings { secure: true, same_site: SameSite::Lax });

    let tokens = TokensSettings::default(&env);
    assert_eq!(tokens.secret_key, "some-secret");
    assert_eq!(tokens.access_token_duration(), 300);
    assert_eq!(tokens.refresh_token_duration(), 1800);
    assert!(tokens.is_well_formed());

    let store = SessionStoreSettings::default(&env);
    assert_eq!(store.uri, "redis://localhost:6379");
    assert_eq!(store.key, "store-key");

    let db = DatabaseSettings::default(&env);
    assert_eq!(db.username, "postgres");
    assert_eq!(db.password, "password");
    assert_eq!(db.host, "localhost");
    assert_eq!(db.port, 5432);
    assert_eq!(db.database_name, "auth");
}

#[test]
fn all_settings_are_built_from_the_values() {
    let settings = get_settings(&values());
    assert_eq!(settings.rust_log, "info");
    assert_eq!(settings.web_app.socket_address(), "127.0.0.1:8000");
    assert!(settings.session_cookie.secure);
    assert_eq!(settings.session_cookie.same_site, SameSite::Lax);
    assert_eq!(settings.tokens.secret_key, "some-secret");
    assert_eq!(settings.tokens.access_token_duration, 300);
    assert_eq!(settings.tokens.refresh_token_duration, 1800);
    assert_eq!(settings.session_store.uri, "redis://localhost:6379");
    assert_eq!(settings.db.port, 5432);
    let copy = settings.clone();
    assert_eq!(copy.db.database_name, "auth");
    assert_eq!(copy.tokens.refresh_token_duration, 1800);
}

#[test]
fn token_settings_are_well_formed_when_access_is_not_longer() {
    let settings = |access, refresh| TokensSettings {
        secret_key: "k".to_owned(),
        access_token_duration: access,
        refresh_token_duration: refresh,
    };
    assert!(settings(300, 1800).is_well_formed());
    assert!(settings(0, 1).is_well_formed());
    assert!(settings(300, 300).is_well_formed());
    assert!(!settings(301, 300).is_well_formed());
    assert!(!settings(1800, 300).is_well_formed());
}
