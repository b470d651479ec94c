//! Configuration of the service as plain values, and the reading of those
//! values from the texts in which a process environment holds them.

use crate::text::{decimal, parse_unsigned, parsed_unsigned, text_eq, u64_to_decimal};
use vstd::prelude::*;
use vstd::string::*;

verus! {

/// The `SameSite` attribute of a cookie.
#[derive(Debug, Clone, Copy, PartialEq, Eq, Structural)]
pub enum SameSite {
    /// Sent only with requests that originate from the cookie's own site.
    Strict,
    /// Also sent when a user navigates to the site from elsewhere.
    Lax,
    /// Sent with every request (the attribute value `None`).
    Unrestricted,
}

/// Which setting could not be read from its text.
#[derive(Debug, Clone, Copy, PartialEq, Eq, Structural)]
pub enum SettingsError {
    /// The web application's port is not an unsigned 16-bit decimal number.
    WebAppPort,
    /// The cookie `Secure` flag is neither `true` nor `false`.
    SessionCookieSecure,
    /// The cookie `SameSite` value is none of `none`, `lax` and `strict`.
    SessionCookieSameSite,
    /// The access token's lifetime is not a number of seconds.
    AccessTokenSeconds,
    /// The refresh token's lifetime is not a number of seconds.
    RefreshTokenSeconds,
    /// The refresh token's lifetime is shorter than the access token's.
    TokenSecondsOutOfOrder,
    /// The database port is not an unsigned 16-bit decimal number.
    PostgresPort,
}

/// The longest lifetime, in seconds, that a token setting may hold.
pub const MAX_TOKEN_SECONDS: u64 = 0x7fff_ffff_ffff_ffff;

/// The `SameSite` value that a text names: exactly `none`, `lax` or `strict`.
pub open spec fn same_site_named(value: Seq<char>) -> Option<SameSite> {
    if value == "none"@ {
        Some(SameSite::Unrestricted)
    } else if value == "lax"@ {
        Some(SameSite::Lax)
    } else if value == "strict"@ {
        Some(SameSite::Strict)
    } else {
        None
    }
}

/// The truth value that a text names: exactly `true` or `false`.
pub open spec fn bool_named(value: Seq<char>) -> Option<bool> {
    if value == "true"@ {
        Some(true)
    } else if value == "false"@ {
        Some(false)
    } else {
        None
    }
}

/// Reads a `SameSite` value from its lower-case name.
pub fn str_to_same_site(value: &str) -> (same_site: Result<SameSite, SettingsError>)
    ensures
        same_site == (match same_site_named(value@) {
            Some(found) => Ok::<SameSite, SettingsError>(found),
            None => Err(SettingsError::SessionCookieSameSite),
        }),
{
    if text_eq(value, "none") {
        Ok(SameSite::Unrestricted)
    } else if text_eq(value, "lax") {
        Ok(SameSite::Lax)
    } else if text_eq(value, "strict") {
        Ok(SameSite::Strict)
    } else {
        Err(SettingsError::SessionCookieSameSite)
    }
}

/// Reads a truth value from `true` or `false`.
pub fn bool_from_text(value: &str) -> (flag: Option<bool>)
    ensures
        flag == bool_named(value@),
{
    if text_eq(value, "true") {
        Some(true)
    } else if text_eq(value, "false") {
        Some(false)
    } else {
        None
    }
}

/// Reads a port number: an unsigned decimal numeral up to 65535.
pub fn u16_from_text(value: &str) -> (port: Option<u16>)
    ensures
        port matches Some(p) ==> parsed_unsigned(value@, 0xffff) == Some(p as nat),
        port is None ==> parsed_unsigned(value@, 0xffff) is None,
{
    match parse_unsigned(value, 0xffff) {
        Some(v) => Some(v as u16),
        None => None,
    }
}

/// Reads a lifetime in whole seconds: an unsigned decimal numeral up to
/// `MAX_TOKEN_SECONDS`.
pub fn seconds_from_text(value: &str) -> (seconds: Option<u64>)
    ensures
        seconds matches Some(s) ==> parsed_unsigned(value@, MAX_TOKEN_SECONDS as nat) == Some(
            s as nat,
        ),
        seconds is None ==> parsed_unsigned(value@, MAX_TOKEN_SECONDS as nat) is None,
{
    parse_unsigned(value, MAX_TOKEN_SECONDS)
}

/// The settings as the environment holds them: every value still a text.
pub struct EnvTexts {
    pub rust_log: String,
    pub web_app_host: String,
    pub web_app_port: String,
    pub session_cookie_secure: String,
    pub session_cookie_same_site: String,
    pub token_secret_key: String,
    pub access_token_seconds: String,
    pub refresh_token_seconds: String,
    pub session_store_uri: String,
    pub session_store_key: String,
    pub postgres_user_name: String,
    pub postgres_user_password: String,
    pub postgres_host: String,
    pub postgres_port: String,
    pub postgres_database_name: String,
}

/// The settings read from the environment, each in its own type.
pub struct EnvValues {
    pub rust_log: String,
    pub web_app_host: String,
    pub web_app_port: u16,
    pub session_cookie_secure: bool,
    pub session_cookie_same_site: SameSite,
    pub token_secret_key: String,
    pub access_token_duration: u64,
    pub refresh_token_duration: u64,
    pub session_store_uri: String,
    pub session_store_key: String,
    pub postgres_user_name: String,
    pub postgres_user_password: String,
    pub postgres_host: String,
    pub postgres_port: u16,
    pub postgres_database_name: String,
}

impl EnvTexts {
    /// The first setting, in declaration order, whose text cannot be read.
    pub open spec fn first_error(&self) -> Option<SettingsError> {
        if parsed_unsigned(self.web_app_port@, 0xffff) is None {
            Some(SettingsError::WebAppPort)
        } else if bool_named(self.session_cookie_secure@) is None {
            Some(SettingsError::SessionCookieSecure)
        } else if same_site_named(self.session_cookie_same_site@) is None {
            Some(SettingsError::SessionCookieSameSite)
        } else if parsed_unsigned(self.access_token_seconds@, MAX_TOKEN_SECONDS as nat) is None {
            Some(SettingsError::AccessTokenSeconds)
        } else if parsed_unsigned(self.refresh_token_seconds@, MAX_TOKEN_SECONDS as nat) is None {
            Some(SettingsError::RefreshTokenSeconds)
        } else if parsed_unsigned(self.access_token_seconds@, MAX_TOKEN_SECONDS as nat)->0
            > parsed_unsigned(self.refresh_token_seconds@, MAX_TOKEN_SECONDS as nat)->0 {
            Some(SettingsError::TokenSecondsOutOfOrder)
        } else if parsed_unsigned(self.postgres_port@, 0xffff) is None {
            Some(SettingsError::PostgresPort)
        } else {
            None
        }
    }

    /// The values that the texts denote, where all of them can be read.
    pub open spec fn denotes(&self, values: EnvValues) -> bool {
        &&& values.rust_log@ == self.rust_log@
        &&& values.web_app_host@ == self.web_app_host@
        &&& parsed_unsigned(self.web_app_port@, 0xffff) == Some(values.web_app_port as nat)
        &&& bool_named(self.session_cookie_secure@) == Some(values.session_cookie_secure)
        &&& same_site_named(self.session_cookie_same_site@) == Some(
            values.session_cookie_same_site,
        )
        &&& values.token_secret_key@ == self.token_secret_key@
        &&& parsed_unsigned(self.access_token_seconds@, MAX_TOKEN_SECONDS as nat) == Some(
            values.access_token_duration as nat,
        )
        &&& parsed_unsigned(self.refresh_token_seconds@, MAX_TOKEN_SECONDS as nat) == Some(
            values.refresh_token_duration as nat,
        )
        &&& values.session_store_uri@ == self.session_store_uri@
        &&& values.session_store_key@ == self.session_store_key@
        &&& values.postgres_user_name@ == self.postgres_user_name@
        &&& values.postgres_user_password@ == self.postgres_user_password@
        &&& values.postgres_host@ == self.postgres_host@
        &&& parsed_unsigned(self.postgres_port@, 0xffff) == Some(values.postgres_port as nat)
        &&& values.postgres_database_name@ == self.postgres_database_name@
    }

    /// Reads every setting from its text. The first text that cannot be read
    /// decides the error. Token lifetimes of which the access token's is the
    /// longer are refused: an access token never outlives the refresh token
    /// issued with it.
    pub fn parse(&self) -> (values: Result<EnvValues, SettingsError>)
        ensures
            values matches Ok(v) ==> self.first_error() is None && self.denotes(v),
            values matches Ok(v) ==> v.access_token_duration <= v.refresh_token_duration,
            values matches Err(e) ==> self.first_error() == Some(e),
    {
        let web_app_port = match u16_from_text(self.web_app_port.as_str()) {
            Some(p) => p,
            None => {
                return Err(SettingsError::WebAppPort);
            },
        };
        let session_cookie_secure = match bool_from_text(self.session_cookie_secure.as_str()) {
            Some(b) => b,
            None => {
                return Err(SettingsError::SessionCookieSecure);
            },
        };
        let session_cookie_same_site = match str_to_same_site(
            self.session_cookie_same_site.as_str(),
        ) {
            Ok(s) => s,
            Err(e) => {
                return Err(e);
            },
        };
        let access_token_duration = match seconds_from_text(self.access_token_seconds.as_str()) {
            Some(s) => s,
            None => {
                return Err(SettingsError::AccessTokenSeconds);
            },
        };
        let refresh_token_duration = match seconds_from_text(
            self.refresh_token_seconds.as_str(),
        ) {
            Some(s) => s,
            None => {
                return Err(SettingsError::RefreshTokenSeconds);
            },
        };
        if access_token_duration > refresh_token_duration {
            return Err(SettingsError::TokenSecondsOutOfOrder);
        }
        let postgres_port = match u16_from_text(self.postgres_port.as_str()) {
            Some(p) => p,
            None => {
                return Err(SettingsError::PostgresPort);
            },
        };
        Ok(
            EnvValues {
                rust_log: self.rust_log.clone(),
                web_app_host: self.web_app_host.clone(),
                web_app_port,
                session_cookie_secure,
                session_cookie_same_site,
                token_secret_key: self.token_secret_key.clone(),
                access_token_duration,
                refresh_token_duration,
                session_store_uri: self.session_store_uri.clone(),
                session_store_key: self.session_store_key.clone(),
                postgres_user_name: self.postgres_user_name.clone(),
                postgres_user_password: self.postgres_user_password.clone(),
                postgres_host: self.postgres_host.clone(),
                postgres_port,
                postgres_database_name: self.postgres_database_name.clone(),
            },
        )
    }
}

/// Where the web application listens.
#[derive(Debug)]
pub struct WebAppSettings {
    pub host: String,
    pub port: u16,
}

impl Clone for WebAppSettings {
    fn clone(&self) -> (copy: Self)
        ensures
            copy == *self,
    {
        WebAppSettings { host: self.host.clone(), port: self.port }
    }
}

impl WebAppSettings {
    /// The web application's settings among the values read from the
    /// environment.
    pub fn default(env: &EnvValues) -> (settings: Self)
        ensures
            settings.host@ == env.web_app_host@,
            settings.port == env.web_app_port,
    {
        WebAppSettings { host: env.web_app_host.clone(), port: env.web_app_port }
    }

    /// The socket address as text: the host, a colon and the port in decimal.
    pub open spec fn socket_address_text(&self) -> Seq<char> {
        self.host@ + seq![':'] + decimal(self.port as nat)
    }

    /// The socket address that the web application binds to.
    pub fn socket_address(&self) -> (address: String)
        ensures
            address@ == self.socket_address_text(),
    {
        proof {
            reveal_strlit(":");
        }
        let port = u64_to_decimal(self.port as u64);
        let address = self.host.clone().concat(":").concat(port.as_str());
        assert(address@ =~= self.socket_address_text());
        address
    }
}

/// Attributes of the cookies that the service sets.
#[derive(Debug, Clone, Copy, PartialEq, Eq, Structural)]
pub struct SessionCookieSettings {
    pub secure: bool,
    pub same_site: SameSite,
}

impl SessionCookieSettings {
    /// The cookie settings among the values read from the environment.
    pub fn default(env: &EnvValues) -> (settings: Self)
        ensures
            settings.secure == env.session_cookie_secure,
            settings.same_site == env.session_cookie_same_site,
    {
        SessionCookieSettings {
            secure: env.session_cookie_secure,
            same_site: env.session_cookie_same_site,
        }
    }
}

/// The secret that tokens are signed with, and how long tokens live.
pub struct TokensSettings {
    pub secret_key: String,
    /// Lifetime of an access token in seconds.
    pub access_token_duration: u64,
    /// Lifetime of a refresh token in seconds.
    pub refresh_token_duration: u64,
}

impl Clone for TokensSettings {
    fn clone(&self) -> (copy: Self)
        ensures
            copy == *self,
    {
        TokensSettings {
            secret_key: self.secret_key.clone(),
            access_token_duration: self.access_token_duration,
            refresh_token_duration: self.refresh_token_duration,
        }
    }
}

impl TokensSettings {
    /// An access token must not outlive the refresh token issued with it.
    pub open spec fn well_formed(&self) -> bool {
        self.access_token_duration <= self.refresh_token_duration
    }

    /// Whether the access token's lifetime is no longer than the refresh
    /// token's.
    pub fn is_well_formed(&self) -> (ok: bool)
        ensures
            ok == self.well_formed(),
    {
        self.access_token_duration <= self.refresh_token_duration
    }

    /// The token settings among the values read from the environment.
    pub fn default(env: &EnvValues) -> (settings: Self)
        ensures
            settings.secret_key@ == env.token_secret_key@,
            settings.access_token_duration == env.access_token_duration,
            settings.refresh_token_duration == env.refresh_token_duration,
    {
        TokensSettings {
            secret_key: env.token_secret_key.clone(),
            access_token_duration: env.access_token_duration,
            refresh_token_duration: env.refresh_token_duration,
        }
    }

    /// Lifetime of an access token in seconds.
    pub fn access_token_duration(&self) -> (seconds: u64)
        ensures
            seconds == self.access_token_duration,
    {
        self.access_token_duration
    }

    /// Lifetime of a refresh token in seconds.
    pub fn refresh_token_duration(&self) -> (seconds: u64)
        ensures
            seconds == self.refresh_token_duration,
    {
        self.refresh_token_duration
    }
}

/// Where session records are kept, and the key that signs the session cookie.
pub struct SessionStoreSettings {
    pub uri: String,
    pub key: String,
}

impl Clone for SessionStoreSettings {
    fn clone(&self) -> (copy: Self)
        ensures
            copy == *self,
    {
        SessionStoreSettings { uri: self.uri.clone(), key: self.key.clone() }
    }
}

impl SessionStoreSettings {
    /// The session store settings among the values read from the environment.
    pub fn default(env: &EnvValues) -> (settings: Self)
        ensures
            settings.uri@ == env.session_store_uri@,
            settings.key@ == env.session_store_key@,
    {
        SessionStoreSettings {
            uri: env.session_store_uri.clone(),
            key: env.session_store_key.clone(),
        }
    }
}

/// How to reach the user database.
pub struct DatabaseSettings {
    pub username: String,
    pub password: String,
    pub host: String,
    pub port: u16,
    pub database_name: String,
}

impl Clone for DatabaseSettings {
    fn clone(&self) -> (copy: Self)
        ensures
            copy == *self,
    {
        DatabaseSettings {
            username: self.username.clone(),
            password: self.password.clone(),
            host: self.host.clone(),
            port: self.port,
            database_name: self.database_name.clone(),
        }
    }
}

impl DatabaseSettings {
    /// The database settings among the values read from the environment.
    pub fn default(env: &EnvValues) -> (settings: Self)
        ensures
            settings.username@ == env.postgres_user_name@,
            settings.password@ == env.postgres_user_password@,
            settings.host@ == env.postgres_host@,
            settings.port == env.postgres_port,
            settings.database_name@ == env.postgres_database_name@,
    {
        DatabaseSettings {
            username: env.postgres_user_name.clone(),
            password: env.postgres_user_password.clone(),
            host: env.postgres_host.clone(),
            port: env.postgres_port,
            database_name: env.postgres_database_name.clone(),
        }
    }
}

/// All settings of the service.
pub struct Settings {
    pub rust_log: String,
    pub web_app: WebAppSettings,
    pub session_cookie: SessionCookieSettings,
    pub tokens: TokensSettings,
    pub session_store: SessionStoreSettings,
    pub db: DatabaseSettings,
}

impl Clone for Settings {
    fn clone(&self) -> (copy: Self)
        ensures
            copy == *self,
    {
        Settings {
            rust_log: self.rust_log.clone(),
            web_app: self.web_app.clone(),
            session_cookie: self.session_cookie,
            tokens: self.tokens.clone(),
            session_store: self.session_store.clone(),
            db: self.db.clone(),
        }
    }
}

/// Builds the settings from the values read from the environment.
pub fn get_settings(env: &EnvValues) -> (settings: Settings)
    ensures
        settings.rust_log@ == env.rust_log@,
        settings.web_app.host@ == env.web_app_host@,
        settings.web_app.port == env.web_app_port,
        settings.session_cookie.secure == env.session_cookie_secure,
        settings.session_cookie.same_site == env.session_cookie_same_site,
        settings.tokens.secret_key@ == env.token_secret_key@,
        settings.tokens.access_token_duration == env.access_token_duration,
        settings.tokens.refresh_token_duration == env.refresh_token_duration,
        settings.session_store.uri@ == env.session_store_uri@,
        settings.session_store.key@ == env.session_store_key@,
        settings.db.username@ == env.postgres_user_name@,
        settings.db.password@ == env.postgres_user_password@,
        settings.db.host@ == env.postgres_host@,
        settings.db.port == env.postgres_port,
        settings.db.database_name@ == env.postgres_database_name@,
{
    Settings {
        rust_log: env.rust_log.clone(),
        web_app: WebAppSettings::default(env),
        session_cookie: SessionCookieSettings::default(env),
        tokens: TokensSettings::default(env),
        session_store: SessionStoreSettings::default(env),
        db: DatabaseSettings::default(env),
    }
}

} // verus!
