//! The decisions of the HTTP handlers: what a request body must hold before
//! a use case is run, and the response that goes with the outcome of a use
//! case.

use crate::accounts::{is_authentication_failure, ChangePasswordError, LoginError, SignupError};
use crate::email_address::{email_is_valid, EmailAddress};
use crate::entity_id::hyphenated;
use crate::http::{
    Cookie, CookieView, HttpResponse, HttpResponseView, STATUS_BAD_REQUEST,
    STATUS_INTERNAL_SERVER_ERROR, STATUS_OK, STATUS_UNAUTHORIZED,
};
use crate::session::{
    add_session_data_cookies, token_cookie, SessionData, SessionRecord, ACCESS_TOKEN_COOKIE_NAME,
    REFRESH_TOKEN_COOKIE_NAME,
};
use crate::settings::SessionCookieSettings;
use crate::users::{password_fault, RawPassword, User, UserName};
use crate::validation::{ValidationError, ValidationFault};
use vstd::prelude::*;

verus! {

/// Body of the health check's response.
pub const HEALTH_CHECK_BODY: &'static str = "Are you ready?";

/// The body of a signup request.
pub struct SignupData {
    pub user_name: String,
    pub email_address: String,
    pub password: String,
}

/// The body of a login request.
pub struct LoginData {
    pub email_address: String,
    pub password: String,
}

/// The body of a request to change the password.
pub struct ChangePasswordData {
    pub old_password: String,
    pub new_password: String,
}

/// The validated values of a signup request.
pub struct SignupInput {
    pub user_name: UserName,
    pub email_address: EmailAddress,
    pub password: RawPassword,
}

/// The validated values of a request to change the password.
pub struct ChangePasswordInput {
    pub old_password: RawPassword,
    pub new_password: RawPassword,
}

/// The two instructions that make a client forget its tokens.
pub open spec fn expired_token_cookies() -> Seq<CookieView> {
    seq![
        CookieView::Removal { name: ACCESS_TOKEN_COOKIE_NAME@ },
        CookieView::Removal { name: REFRESH_TOKEN_COOKIE_NAME@ },
    ]
}

/// A response that has a status and a body and sets no cookie.
pub open spec fn plain_response(status: u16, body: Seq<char>) -> HttpResponseView {
    HttpResponseView { status, cookies: Seq::<CookieView>::empty(), body }
}

/// What is wrong with a signup request, if anything: the name is looked at
/// first, then the address, then the password.
pub open spec fn signup_fault(data: SignupData) -> Option<ValidationFault> {
    if !UserName::length_allowed(data.user_name@) {
        Some(ValidationFault::UserNameLength)
    } else if !email_is_valid(data.email_address@) {
        Some(ValidationFault::EmailAddress(data.email_address@))
    } else {
        password_fault(data.password@)
    }
}

/// What is wrong with a request to change the password, if anything: the old
/// password is looked at first, then the new one.
pub open spec fn change_password_fault(data: ChangePasswordData) -> Option<ValidationFault> {
    match password_fault(data.old_password@) {
        Some(fault) => Some(fault),
        None => password_fault(data.new_password@),
    }
}

/// The status that goes with a failed signup: 400 for an address that is
/// taken, 500 for anything unexpected.
pub open spec fn signup_error_status(error: SignupError) -> u16 {
    match error {
        SignupError::EmailAddressAlreadyExists => STATUS_BAD_REQUEST,
        SignupError::UnexpectedError(_) => STATUS_INTERNAL_SERVER_ERROR,
    }
}

/// The status that goes with a failed login: 401 for wrong credentials and
/// for a user that is not active, 500 for anything unexpected.
pub open spec fn login_error_status(error: LoginError) -> u16 {
    match error {
        LoginError::UnexpectedError(_) => STATUS_INTERNAL_SERVER_ERROR,
        LoginError::InvalidCredentials => STATUS_UNAUTHORIZED,
        LoginError::NotActive(_) => STATUS_UNAUTHORIZED,
    }
}

/// The status that goes with a failed change of password: 400 for a wrong
/// current password and for a user that is gone, 500 for anything
/// unexpected.
pub open spec fn change_password_error_status(error: ChangePasswordError) -> u16 {
    match error {
        ChangePasswordError::UnexpectedError(_) => STATUS_INTERNAL_SERVER_ERROR,
        ChangePasswordError::IncorrectCurrentPassword => STATUS_BAD_REQUEST,
        ChangePasswordError::NotFound(_) => STATUS_BAD_REQUEST,
    }
}

/// The response to a login: on success 200, an empty body and the cookies
/// of the two tokens; otherwise the error's status and message, and with a
/// 401 the instructions to forget both tokens.
pub open spec fn login_outcome_response(
    outcome: Result<SessionRecord, LoginError>,
    settings: SessionCookieSettings,
) -> HttpResponseView {
    match outcome {
        Ok(session) => HttpResponseView {
            status: STATUS_OK,
            cookies: seq![
                token_cookie(ACCESS_TOKEN_COOKIE_NAME@, session.access_token, settings),
                token_cookie(REFRESH_TOKEN_COOKIE_NAME@, session.refresh_token, settings),
            ],
            body: Seq::<char>::empty(),
        },
        Err(e) => HttpResponseView {
            status: login_error_status(e),
            cookies: if login_error_status(e) == STATUS_UNAUTHORIZED {
                expired_token_cookies()
            } else {
                Seq::<CookieView>::empty()
            },
            body: e.message_text(),
        },
    }
}

/// The response to a change of password: on success 200, an empty body and
/// the instructions to forget both tokens; otherwise the error's status and
/// message.
pub open spec fn change_password_outcome_response(
    outcome: Result<(), ChangePasswordError>,
) -> HttpResponseView {
    match outcome {
        Ok(()) => HttpResponseView {
            status: STATUS_OK,
            cookies: expired_token_cookies(),
            body: Seq::<char>::empty(),
        },
        Err(e) => plain_response(change_password_error_status(e), e.message_text()),
    }
}

/// A failed login is answered with 401 exactly where authentication failed,
/// and every such answer tells the client to forget both tokens; an answer
/// with 500 sets no cookie.
pub proof fn lemma_unauthorized_login_clears_tokens(
    error: LoginError,
    settings: SessionCookieSettings,
)
    ensures
        ({
            let response = login_outcome_response(Err(error), settings);
            &&& response.status == STATUS_UNAUTHORIZED <==> is_authentication_failure(error)
            &&& response.status == STATUS_UNAUTHORIZED ==> response.cookies
                == expired_token_cookies()
            &&& response.status != STATUS_UNAUTHORIZED ==> response.status
                == STATUS_INTERNAL_SERVER_ERROR && response.cookies.len() == 0
        }),
{
}

/// The response to a request that broke a validation rule: 400 and the
/// rule's message.
pub fn e400(error: &ValidationError) -> (response: HttpResponse)
    ensures
        response@ == plain_response(STATUS_BAD_REQUEST, error@.message_text()),
{
    HttpResponse::with_body(STATUS_BAD_REQUEST, error.message())
}

/// Validates the body of a signup request.
pub fn signup_request(data: &SignupData) -> (input: Result<SignupInput, ValidationError>)
    ensures
        input matches Ok(values) ==> ({
            &&& signup_fault(*data) is None
            &&& values.user_name@ == data.user_name@
            &&& values.email_address@ == data.email_address@
            &&& values.password@ == data.password@
        }),
        input matches Err(e) ==> signup_fault(*data) == Some(e@),
{
    let user_name = match UserName::new(data.user_name.as_str()) {
        Ok(name) => name,
        Err(e) => {
            return Err(e);
        },
    };
    let email_address = match EmailAddress::gen(data.email_address.as_str()) {
        Ok(address) => address,
        Err(e) => {
            return Err(e);
        },
    };
    let password = match RawPassword::new(data.password.as_str()) {
        Ok(password) => password,
        Err(e) => {
            return Err(e);
        },
    };
    Ok(SignupInput { user_name, email_address, password })
}

/// The response to a failed signup.
pub fn signup_error_response(error: &SignupError) -> (response: HttpResponse)
    ensures
        response@ == plain_response(signup_error_status(*error), error.message_text()),
{
    let status = match error {
        SignupError::EmailAddressAlreadyExists => STATUS_BAD_REQUEST,
        SignupError::UnexpectedError(_) => STATUS_INTERNAL_SERVER_ERROR,
    };
    HttpResponse::with_body(status, error.message())
}

/// Validates the body of a login request: the address must be an e-mail
/// address. The password is taken as it is.
pub fn login_request(data: &LoginData) -> (input: Result<EmailAddress, ValidationError>)
    ensures
        input matches Ok(address) ==> email_is_valid(data.email_address@) && address@
            == data.email_address@,
        input matches Err(e) ==> !email_is_valid(data.email_address@) && e@
            == ValidationFault::EmailAddress(data.email_address@),
{
    EmailAddress::gen(data.email_address.as_str())
}

/// The response to a login.
pub fn login_response(
    outcome: &Result<SessionData, LoginError>,
    settings: &SessionCookieSettings,
) -> (response: HttpResponse)
    ensures
        response@ == login_outcome_response(
            match *outcome {
                Ok(session) => Ok(session@),
                Err(e) => Err(e),
            },
            *settings,
        ),
{
    match outcome {
        Ok(session) => {
            let mut response = HttpResponse::with_status(STATUS_OK);
            add_session_data_cookies(
                &mut response,
                session.access_token.as_str(),
                session.refresh_token.as_str(),
                settings,
            );
            assert(response@.cookies =~= login_outcome_response(Ok(session@), *settings).cookies);
            response
        },
        Err(e) => {
            let status = match e {
                LoginError::UnexpectedError(_) => STATUS_INTERNAL_SERVER_ERROR,
                LoginError::InvalidCredentials => STATUS_UNAUTHORIZED,
                LoginError::NotActive(_) => STATUS_UNAUTHORIZED,
            };
            let mut response = HttpResponse::with_body(status, e.message());
            if status == STATUS_UNAUTHORIZED {
                let (access, refresh) = create_expired_token_cookies();
                response.add_cookie(access);
                response.add_cookie(refresh);
                assert(response@.cookies =~= seq![access@, refresh@]);
            }
            response
        },
    }
}

/// The two instructions that make a client forget its tokens: the access
/// token's, then the refresh token's.
pub fn create_expired_token_cookies() -> (cookies: (Cookie, Cookie))
    ensures
        seq![cookies.0@, cookies.1@] == expired_token_cookies(),
{
    let access = Cookie::Removal { name: ACCESS_TOKEN_COOKIE_NAME.to_owned() };
    let refresh = Cookie::Removal { name: REFRESH_TOKEN_COOKIE_NAME.to_owned() };
    assert(seq![access@, refresh@] =~= expired_token_cookies());
    (access, refresh)
}

/// The response to a logout: 200, an empty body and the instructions to
/// forget both tokens.
pub fn logout_response() -> (response: HttpResponse)
    ensures
        response@ == (HttpResponseView {
            status: STATUS_OK,
            cookies: expired_token_cookies(),
            body: Seq::<char>::empty(),
        }),
{
    let (access, refresh) = create_expired_token_cookies();
    let mut response = HttpResponse::with_status(STATUS_OK);
    response.add_cookie(access);
    response.add_cookie(refresh);
    assert(response@.cookies =~= seq![access@, refresh@]);
    response
}

/// Validates the body of a request to change the password.
pub fn change_password_request(data: &ChangePasswordData) -> (input: Result<
    ChangePasswordInput,
    ValidationError,
>)
    ensures
        input matches Ok(values) ==> ({
            &&& change_password_fault(*data) is None
            &&& values.old_password@ == data.old_password@
            &&& values.new_password@ == data.new_password@
        }),
        input matches Err(e) ==> change_password_fault(*data) == Some(e@),
{
    let old_password = match RawPassword::new(data.old_password.as_str()) {
        Ok(password) => password,
        Err(e) => {
            return Err(e);
        },
    };
    let new_password = match RawPassword::new(data.new_password.as_str()) {
        Ok(password) => password,
        Err(e) => {
            return Err(e);
        },
    };
    Ok(ChangePasswordInput { old_password, new_password })
}

/// The response to a change of password.
pub fn change_password_response(outcome: &Result<(), ChangePasswordError>) -> (response:
    HttpResponse)
    ensures
        response@ == change_password_outcome_response(*outcome),
{
    match outcome {
        Ok(()) => logout_response(),
        Err(e) => {
            let status = match e {
                ChangePasswordError::UnexpectedError(_) => STATUS_INTERNAL_SERVER_ERROR,
                ChangePasswordError::IncorrectCurrentPassword => STATUS_BAD_REQUEST,
                ChangePasswordError::NotFound(_) => STATUS_BAD_REQUEST,
            };
            HttpResponse::with_body(status, e.message())
        },
    }
}

/// The response of the health check.
pub fn health_check() -> (response: HttpResponse)
    ensures
        response@ == plain_response(STATUS_OK, HEALTH_CHECK_BODY@),
{
    HttpResponse::with_body(STATUS_OK, HEALTH_CHECK_BODY.to_owned())
}

/// The response of the sample protected resource: the identifier of the
/// authenticated user, in its hyphenated form.
pub fn protected_resource(user: &User) -> (response: HttpResponse)
    ensures
        response@ == plain_response(STATUS_OK, hyphenated(user@.id)),
{
    HttpResponse::with_body(STATUS_OK, user.id().to_text())
}

} // verus!
