//! The pages that need no login: what the login and registration forms show
//! again after a refusal.

use crate::error::{AppError, AppErrorView};
use crate::text::same_text;
use vstd::prelude::*;

verus! {

/// What is said of a login that was refused.
pub open spec fn login_refused() -> Seq<char> {
    "Login fehlgeschlagen 😿 – bitte prüfe deine Daten."@
}

/// What is said of two passwords that differ.
pub open spec fn passwords_differ() -> Seq<char> {
    "Die Passwörter stimmen nicht überein 💔"@
}

/// What the login form shows.
#[derive(Clone, Debug, PartialEq, Eq)]
pub struct LoginTemplate {
    pub show_error: bool,
    pub error_message: String,
    pub identifier: String,
}

pub struct LoginTemplateView {
    pub show_error: bool,
    pub error_message: Seq<char>,
    pub identifier: Seq<char>,
}

impl View for LoginTemplate {
    type V = LoginTemplateView;

    open spec fn view(&self) -> LoginTemplateView {
        LoginTemplateView {
            show_error: self.show_error,
            error_message: self.error_message@,
            identifier: self.identifier@,
        }
    }
}

/// What the registration form shows.
#[derive(Clone, Debug, PartialEq, Eq)]
pub struct RegisterTemplate {
    pub show_error: bool,
    pub error_message: String,
    pub username: String,
    pub email: String,
}

pub struct RegisterTemplateView {
    pub show_error: bool,
    pub error_message: Seq<char>,
    pub username: Seq<char>,
    pub email: Seq<char>,
}

impl View for RegisterTemplate {
    type V = RegisterTemplateView;

    open spec fn view(&self) -> RegisterTemplateView {
        RegisterTemplateView {
            show_error: self.show_error,
            error_message: self.error_message@,
            username: self.username@,
            email: self.email@,
        }
    }
}

/// What the login form shows after the error `e`, if it shows the form
/// again: a refused login and an unusable request are the caller's to mend;
/// any other error is not the form's business.
pub open spec fn login_retry(identifier: Seq<char>, e: AppErrorView) -> Option<LoginTemplateView> {
    match e {
        AppErrorView::Unauthorized => Some(
            LoginTemplateView { show_error: true, error_message: login_refused(), identifier },
        ),
        AppErrorView::BadRequest(message) => Some(
            LoginTemplateView { show_error: true, error_message: message, identifier },
        ),
        _ => None,
    }
}

/// What the registration form shows after the error `e`, if it shows the
/// form again.
pub open spec fn register_retry(username: Seq<char>, email: Seq<char>, e: AppErrorView) -> Option<
    RegisterTemplateView,
> {
    match e {
        AppErrorView::BadRequest(message) => Some(
            RegisterTemplateView { show_error: true, error_message: message, username, email },
        ),
        _ => None,
    }
}

/// The empty login form.
pub fn login_form() -> (r: LoginTemplate)
    ensures
        r@ == (LoginTemplateView {
            show_error: false,
            error_message: Seq::empty(),
            identifier: Seq::empty(),
        }),
{
    LoginTemplate { show_error: false, error_message: String::new(), identifier: String::new() }
}

/// The login form with a complaint.
pub fn render_login_error(identifier: String, message: String) -> (r: LoginTemplate)
    ensures
        r@ == (LoginTemplateView {
            show_error: true,
            error_message: message@,
            identifier: identifier@,
        }),
{
    LoginTemplate { show_error: true, error_message: message, identifier }
}

/// What a failed login comes to: the form again, or the error itself.
pub fn login_failure(identifier: String, error: AppError) -> (r: Result<LoginTemplate, AppError>)
    ensures
        match login_retry(identifier@, error@) {
            Some(form) => r is Ok && r->Ok_0@ == form,
            None => r == Err::<LoginTemplate, AppError>(error),
        },
{
    match error {
        AppError::Unauthorized => Ok(
            render_login_error(
                identifier,
                "Login fehlgeschlagen 😿 – bitte prüfe deine Daten.".to_owned(),
            ),
        ),
        AppError::BadRequest(message) => Ok(render_login_error(identifier, message)),
        other => Err(other),
    }
}

/// The empty registration form.
pub fn register_form() -> (r: RegisterTemplate)
    ensures
        r@ == (RegisterTemplateView {
            show_error: false,
            error_message: Seq::empty(),
            username: Seq::empty(),
            email: Seq::empty(),
        }),
{
    RegisterTemplate {
        show_error: false,
        error_message: String::new(),
        username: String::new(),
        email: String::new(),
    }
}

/// The registration form with a complaint.
pub fn render_register_error(username: String, email: String, message: String) -> (r:
    RegisterTemplate)
    ensures
        r@ == (RegisterTemplateView {
            show_error: true,
            error_message: message@,
            username: username@,
            email: email@,
        }),
{
    RegisterTemplate { show_error: true, error_message: message, username, email }
}

/// The registration form for two passwords that differ, or `None` where
/// they are the same.
pub fn password_mismatch(username: String, email: String, password: &str, confirm: &str) -> (r:
    Option<RegisterTemplate>)
    ensures
        password@ == confirm@ <==> r is None,
        r matches Some(form) ==> form@ == (RegisterTemplateView {
            show_error: true,
            error_message: passwords_differ(),
            username: username@,
            email: email@,
        }),
{
    if same_text(password, confirm) {
        None
    } else {
        Some(
            render_register_error(
                username,
                email,
                "Die Passwörter stimmen nicht überein 💔".to_owned(),
            ),
        )
    }
}

/// What a failed registration comes to: the form again, or the error
/// itself.
pub fn register_failure(username: String, email: String, error: AppError) -> (r: Result<
    RegisterTemplate,
    AppError,
>)
    ensures
        match register_retry(username@, email@, error@) {
            Some(form) => r is Ok && r->Ok_0@ == form,
            None => r == Err::<RegisterTemplate, AppError>(error),
        },
{
    match error {
        AppError::BadRequest(message) => Ok(render_register_error(username, email, message)),
        other => Err(other),
    }
}

} // verus!
