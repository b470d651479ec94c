//! Accounts and sessions for a web application: signup, login, logout,
//! change of password, and the guarding of protected resources with an access
//! token and a refresh token.
//!
//! The core is [`token_validation`]: given the session record that the server
//! keeps, the tokens that a request presents and the current instant, it
//! decides whether the request may proceed, may proceed with new tokens, or
//! is refused. [`middleware`] and [`accounts`] take every decision around it;
//! the work that needs the network, the database or the session store is
//! left to the caller, which reports back what happened.

pub mod account_runs;
pub mod accounts;
pub mod clock;
pub mod email_address;
pub mod entity_id;
pub mod http;
pub mod middleware;
pub mod middleware_runs;
pub mod password;
pub mod repositories;
pub mod routes;
pub mod session;
pub mod settings;
pub mod text;
pub mod token_validation;
pub mod tokens;
pub mod users;
pub mod validation;
