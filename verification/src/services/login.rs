use crate::error::{agrees, ApiError, ErrorKind, Failure};
use crate::field::{field_failure, read_text, required, text_field, Field};
use crate::models::user::{Role, User};
use crate::storage::{out_of_turn, storage_error, unexpected_reply, StorageFailure};
use vstd::prelude::*;

verus! {

/// The body of a login request, as it came.
#[derive(Debug, PartialEq, Eq)]
pub struct LoginForm {
    pub email: Option<String>,
    pub password: Option<String>,
}

/// A login request with both fields present.
#[derive(Debug, PartialEq, Eq)]
pub struct LoginRequest {
    pub email: String,
    pub password: String,
}

/// What a successful login answers.
#[derive(Clone, Copy, Debug, PartialEq, Eq, Structural)]
pub struct LoginResponse {
    pub user_id: u128,
    pub role: Role,
}

impl LoginRequest {
    /// The request that the fields make, or the error for the first field
    /// that has no value.
    pub open spec fn checked(email: Field<String>, password: Field<String>) -> Result<
        LoginRequest,
        Failure,
    > {
        if !(email is Given) {
            Err(field_failure(email, "email"@))
        } else if !(password is Given) {
            Err(field_failure(password, "password"@))
        } else {
            Ok(LoginRequest { email: email->Given_0, password: password->Given_0 })
        }
    }

    /// What [`LoginRequest::validate`] makes of a form.
    pub open spec fn of_form(form: LoginForm) -> Result<LoginRequest, Failure> {
        LoginRequest::checked(text_field(form.email), text_field(form.password))
    }

    /// Validates the body of a login request: both fields are required. The
    /// address is not held to any shape here, so that a malformed one fails as
    /// an unknown one does.
    pub fn validate(form: LoginForm) -> (r: Result<LoginRequest, ApiError>)
        ensures
            agrees(LoginRequest::of_form(form), r),
    {
        let email = required(read_text(form.email), "email")?;
        let password = required(read_text(form.password), "password")?;
        Ok(LoginRequest { email, password })
    }
}

/// Where a login stands.
#[derive(Debug, PartialEq, Eq)]
pub enum LoginState {
    /// Nothing has been asked of the store yet.
    Start,
    /// The user with the address has been asked for.
    AwaitingUser { password: String },
    /// The password has been handed over to be verified.
    AwaitingVerdict { user_id: u128, role: Role },
    /// The login has been answered.
    Done,
}

/// What happened since the last step of a login.
#[derive(Debug, PartialEq, Eq)]
pub enum LoginEvent {
    /// The request came in.
    Begin(LoginForm),
    /// The store answered which user has the address.
    User(Result<Option<User>, StorageFailure>),
    /// The password was verified against the stored credential, or was not.
    Verdict(Result<bool, StorageFailure>),
}

/// What to do next in a login.
#[derive(Debug, PartialEq, Eq)]
pub enum LoginAction {
    /// Ask the store for the user with the address.
    FindUserByEmail { email: String },
    /// Have the password verified against the stored credential.
    VerifyPassword { hashed_password: String, password: String },
    /// Answer the request.
    Finish(Result<LoginResponse, ApiError>),
}

/// The mathematical content of a [`LoginAction`].
pub ghost enum LoginOrder {
    FindUserByEmail { email: String },
    VerifyPassword { hashed_password: String, password: String },
    Finish(Result<LoginResponse, Failure>),
}

impl View for LoginAction {
    type V = LoginOrder;

    open spec fn view(&self) -> LoginOrder {
        match self {
            LoginAction::FindUserByEmail { email } => LoginOrder::FindUserByEmail { email: *email },
            LoginAction::VerifyPassword { hashed_password, password } => LoginOrder::VerifyPassword {
                hashed_password: *hashed_password,
                password: *password,
            },
            LoginAction::Finish(Ok(response)) => LoginOrder::Finish(Ok(*response)),
            LoginAction::Finish(Err(error)) => LoginOrder::Finish(Err(error@)),
        }
    }
}

/// The one error of a login that fails on its credentials, whichever of them
/// is at fault.
pub open spec fn invalid_credentials() -> Failure {
    Failure { kind: ErrorKind::Unauthorized, message: "Invalid email or password"@ }
}

/// The end of a login with the given error.
pub open spec fn refuse(failure: Failure) -> (LoginState, LoginOrder) {
    (LoginState::Done, LoginOrder::Finish(Err(failure)))
}

/// One step of a login: the state it moves to and what is to be done, from
/// the state it is at and what happened.
///
/// The user with the address is asked for; where there is one, the password
/// is handed over to be verified against that user's credential; where it
/// verifies, the login answers with the user's identifier and role. An
/// unknown address and a password that does not verify end the login with
/// the same error.
pub open spec fn login_next(state: LoginState, event: LoginEvent) -> (LoginState, LoginOrder) {
    match (state, event) {
        (LoginState::Start, LoginEvent::Begin(form)) => match LoginRequest::of_form(form) {
            Ok(request) => (
                LoginState::AwaitingUser { password: request.password },
                LoginOrder::FindUserByEmail { email: request.email },
            ),
            Err(failure) => refuse(failure),
        },
        (LoginState::AwaitingUser { password }, LoginEvent::User(Ok(Some(user)))) => (
            LoginState::AwaitingVerdict { user_id: user.id, role: user.role },
            LoginOrder::VerifyPassword { hashed_password: user.hashed_password, password },
        ),
        (LoginState::AwaitingUser { .. }, LoginEvent::User(Ok(None))) => refuse(
            invalid_credentials(),
        ),
        (LoginState::AwaitingVerdict { user_id, role }, LoginEvent::Verdict(Ok(verified))) => {
            if verified {
                (LoginState::Done, LoginOrder::Finish(Ok(LoginResponse { user_id, role })))
            } else {
                refuse(invalid_credentials())
            }
        },
        (LoginState::AwaitingUser { .. }, LoginEvent::User(Err(failure))) => refuse(
            storage_error(failure),
        ),
        (LoginState::AwaitingVerdict { .. }, LoginEvent::Verdict(Err(failure))) => refuse(
            storage_error(failure),
        ),
        _ => refuse(out_of_turn()),
    }
}

fn end(answer: Result<LoginResponse, ApiError>) -> (r: (LoginState, LoginAction))
    ensures
        r.0 == LoginState::Done,
        r.1 == LoginAction::Finish(answer),
{
    (LoginState::Done, LoginAction::Finish(answer))
}

/// Computes [`invalid_credentials`].
pub fn credentials_refused() -> (e: ApiError)
    ensures
        e@ == invalid_credentials(),
{
    ApiError::new(ErrorKind::Unauthorized, "Invalid email or password")
}

/// Computes [`login_next`].
pub fn login(state: LoginState, event: LoginEvent) -> (r: (LoginState, LoginAction))
    ensures
        (r.0, r.1@) == login_next(state, event),
{
    match state {
        LoginState::Start => match event {
            LoginEvent::Begin(form) => match LoginRequest::validate(form) {
                Ok(request) => (
                    LoginState::AwaitingUser { password: request.password },
                    LoginAction::FindUserByEmail { email: request.email },
                ),
                Err(error) => end(Err(error)),
            },
            _ => end(Err(unexpected_reply())),
        },
        LoginState::AwaitingUser { password } => match event {
            LoginEvent::User(Ok(Some(user))) => (
                LoginState::AwaitingVerdict { user_id: user.id, role: user.role },
                LoginAction::VerifyPassword { hashed_password: user.hashed_password, password },
            ),
            LoginEvent::User(Ok(None)) => end(Err(credentials_refused())),
            LoginEvent::User(Err(failure)) => end(Err(failure.into_error())),
            _ => end(Err(unexpected_reply())),
        },
        LoginState::AwaitingVerdict { user_id, role } => match event {
            LoginEvent::Verdict(Ok(verified)) => if verified {
                end(Ok(LoginResponse { user_id, role }))
            } else {
                end(Err(credentials_refused()))
            },
            LoginEvent::Verdict(Err(failure)) => end(Err(failure.into_error())),
            _ => end(Err(unexpected_reply())),
        },
        LoginState::Done => end(Err(unexpected_reply())),
    }
}

/// A login with an address that no user has and a login with a password that
/// does not verify are answered alike: the same status and the same message.
pub proof fn lemma_login_failures_alike(
    password: String,
    user_id: u128,
    role: Role,
)
    ensures
        login_next(LoginState::AwaitingUser { password }, LoginEvent::User(Ok(None)))
            == login_next(
            LoginState::AwaitingVerdict { user_id, role },
            LoginEvent::Verdict(Ok(false)),
        ),
        login_next(LoginState::AwaitingUser { password }, LoginEvent::User(Ok(None))) == refuse(
            invalid_credentials(),
        ),
        invalid_credentials().kind.status() == 401,
{
}

} // verus!
