//! Errors raised while a request is handled.

use vstd::prelude::*;
use vstd::string::*;

verus! {

/// What the library needs to know of a failed I/O operation.
#[derive(Clone, Copy, Debug, PartialEq, Eq, Structural)]
pub enum IoFailure {
    /// The peer answered with data that could not be understood.
    InvalidData,
    /// Any other failure.
    Other,
}

/// Where an error came from.
#[derive(Debug)]
pub enum WebSocketErrorKind {
    StdError(IoFailure),
    ActixMailboxError,
    Argon2Error,
    Argon2PasswordHashError,
    DieselError,
    R2d2Error,
    SerdeEetfError,
    SerdeJsonError,
    Other(Option<String>),
}

/// Mathematical value of a [`WebSocketErrorKind`].
pub enum WebSocketErrorKindView {
    StdError(IoFailure),
    ActixMailboxError,
    Argon2Error,
    Argon2PasswordHashError,
    DieselError,
    R2d2Error,
    SerdeEetfError,
    SerdeJsonError,
    Other(Option<Seq<char>>),
}

impl View for WebSocketErrorKind {
    type V = WebSocketErrorKindView;

    open spec fn view(&self) -> WebSocketErrorKindView {
        match *self {
            WebSocketErrorKind::StdError(failure) => WebSocketErrorKindView::StdError(failure),
            WebSocketErrorKind::ActixMailboxError => WebSocketErrorKindView::ActixMailboxError,
            WebSocketErrorKind::Argon2Error => WebSocketErrorKindView::Argon2Error,
            WebSocketErrorKind::Argon2PasswordHashError =>
                WebSocketErrorKindView::Argon2PasswordHashError,
            WebSocketErrorKind::DieselError => WebSocketErrorKindView::DieselError,
            WebSocketErrorKind::R2d2Error => WebSocketErrorKindView::R2d2Error,
            WebSocketErrorKind::SerdeEetfError => WebSocketErrorKindView::SerdeEetfError,
            WebSocketErrorKind::SerdeJsonError => WebSocketErrorKindView::SerdeJsonError,
            WebSocketErrorKind::Other(detail) => WebSocketErrorKindView::Other(
                match detail {
                    Some(text) => Some(text@),
                    None => None,
                },
            ),
        }
    }
}

impl Clone for WebSocketErrorKind {
    fn clone(&self) -> (r: Self)
        ensures
            r@ == self@,
    {
        match self {
            WebSocketErrorKind::StdError(failure) => WebSocketErrorKind::StdError(*failure),
            WebSocketErrorKind::ActixMailboxError => WebSocketErrorKind::ActixMailboxError,
            WebSocketErrorKind::Argon2Error => WebSocketErrorKind::Argon2Error,
            WebSocketErrorKind::Argon2PasswordHashError =>
                WebSocketErrorKind::Argon2PasswordHashError,
            WebSocketErrorKind::DieselError => WebSocketErrorKind::DieselError,
            WebSocketErrorKind::R2d2Error => WebSocketErrorKind::R2d2Error,
            WebSocketErrorKind::SerdeEetfError => WebSocketErrorKind::SerdeEetfError,
            WebSocketErrorKind::SerdeJsonError => WebSocketErrorKind::SerdeJsonError,
            WebSocketErrorKind::Other(detail) => WebSocketErrorKind::Other(
                match detail {
                    Some(text) => Some(text.clone()),
                    None => None,
                },
            ),
        }
    }
}

impl Default for WebSocketErrorKind {
    fn default() -> (r: Self)
        ensures
            r@ == WebSocketErrorKindView::Other(None),
    {
        WebSocketErrorKind::Other(None)
    }
}

impl WebSocketErrorKind {
    /// The words put in front of the source's own description.
    pub open spec fn label(self) -> Seq<char> {
        match self {
            WebSocketErrorKind::StdError(_) => "std error: "@,
            WebSocketErrorKind::ActixMailboxError => "Actix mailbox error: "@,
            WebSocketErrorKind::Argon2Error => "Argon2 error: "@,
            WebSocketErrorKind::Argon2PasswordHashError => "Argon2 password hash error: "@,
            WebSocketErrorKind::DieselError => "Diesel error: "@,
            WebSocketErrorKind::R2d2Error => "r2d2 error: "@,
            WebSocketErrorKind::SerdeEetfError => "Serde EETF error: "@,
            WebSocketErrorKind::SerdeJsonError => "Serde JSON error: "@,
            WebSocketErrorKind::Other(_) => ""@,
        }
    }

    fn label_text(&self) -> (r: &'static str)
        ensures
            r@ == self.label(),
    {
        match self {
            WebSocketErrorKind::StdError(_) => "std error: ",
            WebSocketErrorKind::ActixMailboxError => "Actix mailbox error: ",
            WebSocketErrorKind::Argon2Error => "Argon2 error: ",
            WebSocketErrorKind::Argon2PasswordHashError => "Argon2 password hash error: ",
            WebSocketErrorKind::DieselError => "Diesel error: ",
            WebSocketErrorKind::R2d2Error => "r2d2 error: ",
            WebSocketErrorKind::SerdeEetfError => "Serde EETF error: ",
            WebSocketErrorKind::SerdeJsonError => "Serde JSON error: ",
            WebSocketErrorKind::Other(_) => "",
        }
    }
}

/// An error raised while a request is handled.
#[derive(Debug)]
pub struct WebSocketError {
    pub http_code: u16,
    pub json_code: u32,
    pub message: String,
    pub kind: WebSocketErrorKind,
}

/// Mathematical value of a [`WebSocketError`].
pub struct WebSocketErrorView {
    pub http_code: u16,
    pub json_code: u32,
    pub message: Seq<char>,
    pub kind: WebSocketErrorKindView,
}

impl View for WebSocketError {
    type V = WebSocketErrorView;

    open spec fn view(&self) -> WebSocketErrorView {
        WebSocketErrorView {
            http_code: self.http_code,
            json_code: self.json_code,
            message: self.message@,
            kind: self.kind@,
        }
    }
}

impl Clone for WebSocketError {
    fn clone(&self) -> (r: Self)
        ensures
            r@ == self@,
    {
        WebSocketError {
            http_code: self.http_code,
            json_code: self.json_code,
            message: self.message.clone(),
            kind: self.kind.clone(),
        }
    }
}

/// The message shown in place of any server-side detail.
pub open spec fn internal_error_text() -> Seq<char> {
    "Internal server error"@
}

/// The error that `new` builds from its four arguments.
pub open spec fn error_of(
    http_code: u16,
    json_code: Option<u32>,
    message: Seq<char>,
    kind: Option<WebSocketErrorKindView>,
) -> WebSocketErrorView {
    WebSocketErrorView {
        http_code,
        json_code: match json_code {
            Some(code) => code,
            None => http_code as u32,
        },
        message,
        kind: match kind {
            Some(kind) => kind,
            None => WebSocketErrorKindView::Other(None),
        },
    }
}

/// View of an optional kind.
pub open spec fn kind_view(kind: Option<WebSocketErrorKind>) -> Option<WebSocketErrorKindView> {
    match kind {
        Some(kind) => Some(kind@),
        None => None,
    }
}

impl WebSocketError {
    /// Builds an error. Without a JSON code the HTTP code stands in for it;
    /// without a kind the error is of kind `Other(None)`.
    pub fn new(
        http_code: u16,
        json_code: Option<u32>,
        message: String,
        error: Option<WebSocketErrorKind>,
    ) -> (r: WebSocketError)
        ensures
            r@ == error_of(http_code, json_code, message@, kind_view(error)),
    {
        WebSocketError {
            http_code,
            json_code: match json_code {
                Some(code) => code,
                None => http_code as u32,
            },
            message,
            kind: match error {
                Some(kind) => kind,
                None => WebSocketErrorKind::Other(None),
            },
        }
    }

    /// What a client may read of this error.
    pub open spec fn safe_message(self) -> Seq<char> {
        if self.http_code < 500 {
            self.message@
        } else {
            internal_error_text()
        }
    }

    /// The message for the client: the error's own below 500, a generic one
    /// from 500 on, so that no internal detail leaves the server.
    pub fn get_safe_message(&self) -> (r: String)
        ensures
            r@ == self.safe_message(),
    {
        if self.http_code < 500 {
            self.message.clone()
        } else {
            String::from_str("Internal server error")
        }
    }

    /// The error that stands for a failure of an outside component.
    pub open spec fn source_error(
        kind: WebSocketErrorKind,
        not_found: bool,
        description: Seq<char>,
    ) -> WebSocketErrorView {
        if kind is DieselError && not_found {
            error_of(404, None, "Not found"@, Some(kind@))
        } else {
            error_of(500, None, kind.label() + description, Some(kind@))
        }
    }

    /// Wraps a failure of an outside component. A database lookup that found
    /// no row becomes `Not found` (404); every other failure is a 500 whose
    /// message is the component's label followed by its own description.
    pub fn from_source(kind: WebSocketErrorKind, not_found: bool, description: &str) -> (r:
        WebSocketError)
        ensures
            r@ == Self::source_error(kind, not_found, description@),
    {
        let database = match &kind {
            WebSocketErrorKind::DieselError => true,
            _ => false,
        };
        if database && not_found {
            WebSocketError::new(404, None, String::from_str("Not found"), Some(kind))
        } else {
            let message = String::from_str(kind.label_text()).concat(description);
            WebSocketError::new(500, None, message, Some(kind))
        }
    }
}

} // verus!
