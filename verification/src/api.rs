//! Errors of the HTTP interface and the responses that report them.

use vstd::prelude::*;
use vstd::string::*;
use crate::error::IoFailure;
use crate::text::optional_text;

verus! {

/// The application code of an error that has none of its own.
pub const UNKNOWN_JSON_ERROR_CODE: u32 = 0;

/// Where an error of the HTTP interface came from.
#[derive(Debug)]
pub enum ApiErrorKind {
    StdError(IoFailure),
    Argon2Error,
    Argon2PasswordHashError,
    DieselError,
    R2d2Error,
    Other(Option<String>),
}

/// Mathematical value of an [`ApiErrorKind`].
pub enum ApiErrorKindView {
    StdError(IoFailure),
    Argon2Error,
    Argon2PasswordHashError,
    DieselError,
    R2d2Error,
    Other(Option<Seq<char>>),
}

impl View for ApiErrorKind {
    type V = ApiErrorKindView;

    open spec fn view(&self) -> ApiErrorKindView {
        match *self {
            ApiErrorKind::StdError(failure) => ApiErrorKindView::StdError(failure),
            ApiErrorKind::Argon2Error => ApiErrorKindView::Argon2Error,
            ApiErrorKind::Argon2PasswordHashError => ApiErrorKindView::Argon2PasswordHashError,
            ApiErrorKind::DieselError => ApiErrorKindView::DieselError,
            ApiErrorKind::R2d2Error => ApiErrorKindView::R2d2Error,
            ApiErrorKind::Other(detail) => ApiErrorKindView::Other(optional_text(detail)),
        }
    }
}

impl Clone for ApiErrorKind {
    fn clone(&self) -> (r: Self)
        ensures
            r@ == self@,
    {
        match self {
            ApiErrorKind::StdError(failure) => ApiErrorKind::StdError(*failure),
            ApiErrorKind::Argon2Error => ApiErrorKind::Argon2Error,
            ApiErrorKind::Argon2PasswordHashError => ApiErrorKind::Argon2PasswordHashError,
            ApiErrorKind::DieselError => ApiErrorKind::DieselError,
            ApiErrorKind::R2d2Error => ApiErrorKind::R2d2Error,
            ApiErrorKind::Other(detail) => ApiErrorKind::Other(
                crate::text::copy_optional_text(detail),
            ),
        }
    }
}

impl Default for ApiErrorKind {
    fn default() -> (r: Self)
        ensures
            r@ == ApiErrorKindView::Other(None),
    {
        ApiErrorKind::Other(None)
    }
}

impl ApiErrorKind {
    /// The words put in front of the source's own description.
    pub open spec fn label(self) -> Seq<char> {
        match self {
            ApiErrorKind::StdError(_) => "std error: "@,
            ApiErrorKind::Argon2Error => "argon2 error: "@,
            ApiErrorKind::Argon2PasswordHashError => "argon2 password hash error: "@,
            ApiErrorKind::DieselError => "Diesel error: "@,
            ApiErrorKind::R2d2Error => "r2d2 error: "@,
            ApiErrorKind::Other(_) => ""@,
        }
    }

    fn label_text(&self) -> (r: &'static str)
        ensures
            r@ == self.label(),
    {
        match self {
            ApiErrorKind::StdError(_) => "std error: ",
            ApiErrorKind::Argon2Error => "argon2 error: ",
            ApiErrorKind::Argon2PasswordHashError => "argon2 password hash error: ",
            ApiErrorKind::DieselError => "Diesel error: ",
            ApiErrorKind::R2d2Error => "r2d2 error: ",
            ApiErrorKind::Other(_) => "",
        }
    }
}

/// An error of the HTTP interface.
#[derive(Debug)]
pub struct ApiError {
    pub http_code: u16,
    pub json_code: u32,
    pub message: String,
    pub kind: ApiErrorKind,
}

/// Mathematical value of an [`ApiError`].
pub struct ApiErrorView {
    pub http_code: u16,
    pub json_code: u32,
    pub message: Seq<char>,
    pub kind: ApiErrorKindView,
}

impl View for ApiError {
    type V = ApiErrorView;

    open spec fn view(&self) -> ApiErrorView {
        ApiErrorView {
            http_code: self.http_code,
            json_code: self.json_code,
            message: self.message@,
            kind: self.kind@,
        }
    }
}

impl Clone for ApiError {
    fn clone(&self) -> (r: Self)
        ensures
            r@ == self@,
    {
        ApiError {
            http_code: self.http_code,
            json_code: self.json_code,
            message: self.message.clone(),
            kind: self.kind.clone(),
        }
    }
}

/// The error that `new` builds from its four arguments.
pub open spec fn api_error_of(
    http_code: u16,
    json_code: Option<u32>,
    message: Seq<char>,
    kind: Option<ApiErrorKindView>,
) -> ApiErrorView {
    ApiErrorView {
        http_code,
        json_code: match json_code {
            Some(code) => code,
            None => UNKNOWN_JSON_ERROR_CODE,
        },
        message,
        kind: match kind {
            Some(kind) => kind,
            None => ApiErrorKindView::Other(None),
        },
    }
}

/// View of an optional kind.
pub open spec fn api_kind_view(kind: Option<ApiErrorKind>) -> Option<ApiErrorKindView> {
    match kind {
        Some(kind) => Some(kind@),
        None => None,
    }
}

/// What is sent for an error: the status of the response, and the code and
/// the message of its body.
#[derive(Debug)]
pub struct ErrorResponse {
    pub status: u16,
    pub code: u32,
    pub message: String,
}

impl ApiError {
    /// Builds an error. Without a JSON code the error has the code for
    /// unknown errors; without a kind it is of kind `Other(None)`.
    pub fn new(
        http_code: u16,
        json_code: Option<u32>,
        message: String,
        error: Option<ApiErrorKind>,
    ) -> (r: ApiError)
        ensures
            r@ == api_error_of(http_code, json_code, message@, api_kind_view(error)),
    {
        ApiError {
            http_code,
            json_code: match json_code {
                Some(code) => code,
                None => UNKNOWN_JSON_ERROR_CODE,
            },
            message,
            kind: match error {
                Some(kind) => kind,
                None => ApiErrorKind::Other(None),
            },
        }
    }

    /// The error that stands for a failure of an outside component.
    pub open spec fn source_error(kind: ApiErrorKind, not_found: bool, description: Seq<char>)
        -> ApiErrorView {
        if kind is DieselError && not_found {
            api_error_of(404, None, "Not found"@, Some(kind@))
        } else {
            api_error_of(500, None, kind.label() + description, Some(kind@))
        }
    }

    /// Wraps a failure of an outside component. A database lookup that found
    /// no row becomes `Not found` (404); every other failure is a 500 whose
    /// message is the component's label followed by its own description.
    pub fn from_source(kind: ApiErrorKind, not_found: bool, description: &str) -> (r: ApiError)
        ensures
            r@ == Self::source_error(kind, not_found, description@),
    {
        let database = match &kind {
            ApiErrorKind::DieselError => true,
            _ => false,
        };
        if database && not_found {
            ApiError::new(404, None, String::from_str("Not found"), Some(kind))
        } else {
            let message = String::from_str(kind.label_text()).concat(description);
            ApiError::new(500, None, message, Some(kind))
        }
    }

    /// The status under which the error is sent: its own where that is a
    /// status that HTTP knows, 500 where it is not.
    pub open spec fn status(self) -> u16 {
        if 100 <= self.http_code <= 999 {
            self.http_code
        } else {
            500
        }
    }

    /// The message under which the error is sent: its own below status 500,
    /// a generic one from there on.
    pub open spec fn safe_message(self) -> Seq<char> {
        if self.status() < 500 {
            self.message@
        } else {
            crate::error::internal_error_text()
        }
    }

    /// The response that reports the error.
    pub fn error_response(&self) -> (r: ErrorResponse)
        ensures
            r.status == self.status(),
            r.code == self.json_code,
            r.message@ == self.safe_message(),
    {
        let status: u16 = if 100 <= self.http_code && self.http_code <= 999 {
            self.http_code
        } else {
            500
        };
        let message = if status < 500 {
            self.message.clone()
        } else {
            String::from_str("Internal server error")
        };
        ErrorResponse { status, code: self.json_code, message }
    }
}

/// The errors that the HTTP interface answers with, each with its fixed
/// codes and message.
#[derive(Debug)]
pub enum ApiErrorTemplate {
    NotFound(Option<ApiErrorKind>),
    EmailTooLong(Option<ApiErrorKind>),
    PasswordTooShort(Option<ApiErrorKind>),
    PasswordTooLong(Option<ApiErrorKind>),
    UsernameTooShort(Option<ApiErrorKind>),
    UsernameTooLong(Option<ApiErrorKind>),
    EmailInvalid(Option<ApiErrorKind>),
    UsernameInvalidOrTaken(Option<ApiErrorKind>),
}

impl ApiErrorTemplate {
    pub open spec fn http_code(self) -> u16 {
        match self {
            ApiErrorTemplate::NotFound(_) => 404,
            _ => 400,
        }
    }

    pub open spec fn json_code(self) -> Option<u32> {
        match self {
            ApiErrorTemplate::NotFound(_) => None,
            ApiErrorTemplate::EmailTooLong(_) => Some(30001),
            ApiErrorTemplate::PasswordTooShort(_) => Some(30002),
            ApiErrorTemplate::PasswordTooLong(_) => Some(30003),
            ApiErrorTemplate::UsernameTooShort(_) => Some(30004),
            ApiErrorTemplate::UsernameTooLong(_) => Some(30005),
            ApiErrorTemplate::EmailInvalid(_) => Some(40001),
            ApiErrorTemplate::UsernameInvalidOrTaken(_) => Some(40002),
        }
    }

    pub open spec fn message(self) -> Seq<char> {
        match self {
            ApiErrorTemplate::NotFound(_) => "Not found"@,
            ApiErrorTemplate::EmailTooLong(_) => "The email address is too long"@,
            ApiErrorTemplate::PasswordTooShort(_) => "The password is too short"@,
            ApiErrorTemplate::PasswordTooLong(_) => "The password is too long"@,
            ApiErrorTemplate::UsernameTooShort(_) => "The username is too short"@,
            ApiErrorTemplate::UsernameTooLong(_) => "The username is too long"@,
            ApiErrorTemplate::EmailInvalid(_) => "Invalid email"@,
            ApiErrorTemplate::UsernameInvalidOrTaken(_) =>
                "The username is either invalid or taken"@,
        }
    }

    pub open spec fn kind(self) -> Option<ApiErrorKind> {
        match self {
            ApiErrorTemplate::NotFound(kind) => kind,
            ApiErrorTemplate::EmailTooLong(kind) => kind,
            ApiErrorTemplate::PasswordTooShort(kind) => kind,
            ApiErrorTemplate::PasswordTooLong(kind) => kind,
            ApiErrorTemplate::UsernameTooShort(kind) => kind,
            ApiErrorTemplate::UsernameTooLong(kind) => kind,
            ApiErrorTemplate::EmailInvalid(kind) => kind,
            ApiErrorTemplate::UsernameInvalidOrTaken(kind) => kind,
        }
    }

    /// The error that the template stands for.
    pub open spec fn error(self) -> ApiErrorView {
        api_error_of(self.http_code(), self.json_code(), self.message(), api_kind_view(self.kind()))
    }

    /// Builds the error that the template stands for.
    pub fn into_error(self) -> (r: ApiError)
        ensures
            r@ == self.error(),
    {
        match self {
            ApiErrorTemplate::NotFound(kind) => ApiError::new(
                404,
                None,
                String::from_str("Not found"),
                kind,
            ),
            ApiErrorTemplate::EmailTooLong(kind) => ApiError::new(
                400,
                Some(30001),
                String::from_str("The email address is too long"),
                kind,
            ),
            ApiErrorTemplate::PasswordTooShort(kind) => ApiError::new(
                400,
                Some(30002),
                String::from_str("The password is too short"),
                kind,
            ),
            ApiErrorTemplate::PasswordTooLong(kind) => ApiError::new(
                400,
                Some(30003),
                String::from_str("The password is too long"),
                kind,
            ),
            ApiErrorTemplate::UsernameTooShort(kind) => ApiError::new(
                400,
                Some(30004),
                String::from_str("The username is too short"),
                kind,
            ),
            ApiErrorTemplate::UsernameTooLong(kind) => ApiError::new(
                400,
                Some(30005),
                String::from_str("The username is too long"),
                kind,
            ),
            ApiErrorTemplate::EmailInvalid(kind) => ApiError::new(
                400,
                Some(40001),
                String::from_str("Invalid email"),
                kind,
            ),
            ApiErrorTemplate::UsernameInvalidOrTaken(kind) => ApiError::new(
                400,
                Some(40002),
                String::from_str("The username is either invalid or taken"),
                kind,
            ),
        }
    }
}

} // verus!
