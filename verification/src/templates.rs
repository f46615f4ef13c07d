//! The errors of the application and the reasons to close a socket, each
//! with its fixed codes and words.

use vstd::prelude::*;
use vstd::string::*;
use crate::error::{error_of, kind_view, WebSocketError, WebSocketErrorKind, WebSocketErrorView};

verus! {

/// The errors a request can end in, each with its fixed codes and message.
/// A template may carry the kind of the failure that caused it.
#[derive(Debug)]
pub enum WebSocketErrorTemplate {
    BadRequest(Option<WebSocketErrorKind>),
    Unauthorized(Option<WebSocketErrorKind>),
    Forbidden(Option<WebSocketErrorKind>),
    NotFound(Option<WebSocketErrorKind>),
    MethodNotAllowed(Option<WebSocketErrorKind>),
    GreenhousesTooMany(Option<WebSocketErrorKind>),
    GreenhouseNameTooShort(Option<WebSocketErrorKind>),
    GreenhouseNameTooLong(Option<WebSocketErrorKind>),
    GreenhouseTokenTooShort(Option<WebSocketErrorKind>),
    GreenhouseTokenTooLong(Option<WebSocketErrorKind>),
    EmailTooLong(Option<WebSocketErrorKind>),
    PasswordTooShort(Option<WebSocketErrorKind>),
    PasswordTooLong(Option<WebSocketErrorKind>),
    UsernameTooShort(Option<WebSocketErrorKind>),
    UsernameTooLong(Option<WebSocketErrorKind>),
    DeviceNameTooShort(Option<WebSocketErrorKind>),
    DeviceNameTooLong(Option<WebSocketErrorKind>),
    DeviceRecordDataTooSmall(Option<WebSocketErrorKind>),
    DeviceRecordDataTooBig(Option<WebSocketErrorKind>),
    InvalidRequestField(Option<WebSocketErrorKind>),
    GreenhouseTokenTaken(Option<WebSocketErrorKind>),
    EmailInvalid(Option<WebSocketErrorKind>),
    IncorrectPassword(Option<WebSocketErrorKind>),
    UsernameInvalidOrTaken(Option<WebSocketErrorKind>),
    InvalidDeviceState(Option<WebSocketErrorKind>),
    DeviceIsNotController(Option<WebSocketErrorKind>),
    DeviceIsNotSensor(Option<WebSocketErrorKind>),
    TooLongAgo(Option<WebSocketErrorKind>),
    FutureTime(Option<WebSocketErrorKind>),
}

impl WebSocketErrorTemplate {
    /// The HTTP-like status of the template.
    pub open spec fn http_code(self) -> u16 {
        match self {
            WebSocketErrorTemplate::BadRequest(_) => 400,
            WebSocketErrorTemplate::Unauthorized(_) => 401,
            WebSocketErrorTemplate::Forbidden(_) => 403,
            WebSocketErrorTemplate::NotFound(_) => 404,
            WebSocketErrorTemplate::MethodNotAllowed(_) => 405,
            WebSocketErrorTemplate::GreenhousesTooMany(_) => 400,
            WebSocketErrorTemplate::GreenhouseNameTooShort(_) => 400,
            WebSocketErrorTemplate::GreenhouseNameTooLong(_) => 400,
            WebSocketErrorTemplate::GreenhouseTokenTooShort(_) => 400,
            WebSocketErrorTemplate::GreenhouseTokenTooLong(_) => 400,
            WebSocketErrorTemplate::EmailTooLong(_) => 400,
            WebSocketErrorTemplate::PasswordTooShort(_) => 400,
            WebSocketErrorTemplate::PasswordTooLong(_) => 400,
            WebSocketErrorTemplate::UsernameTooShort(_) => 400,
            WebSocketErrorTemplate::UsernameTooLong(_) => 400,
            WebSocketErrorTemplate::DeviceNameTooShort(_) => 400,
            WebSocketErrorTemplate::DeviceNameTooLong(_) => 400,
            WebSocketErrorTemplate::DeviceRecordDataTooSmall(_) => 400,
            WebSocketErrorTemplate::DeviceRecordDataTooBig(_) => 400,
            WebSocketErrorTemplate::InvalidRequestField(_) => 400,
            WebSocketErrorTemplate::GreenhouseTokenTaken(_) => 400,
            WebSocketErrorTemplate::EmailInvalid(_) => 400,
            WebSocketErrorTemplate::IncorrectPassword(_) => 400,
            WebSocketErrorTemplate::UsernameInvalidOrTaken(_) => 400,
            WebSocketErrorTemplate::InvalidDeviceState(_) => 400,
            WebSocketErrorTemplate::DeviceIsNotController(_) => 400,
            WebSocketErrorTemplate::DeviceIsNotSensor(_) => 400,
            WebSocketErrorTemplate::TooLongAgo(_) => 400,
            WebSocketErrorTemplate::FutureTime(_) => 400,
        }
    }

    /// The application code of the template, where it has one of its own.
    pub open spec fn json_code(self) -> Option<u32> {
        match self {
            WebSocketErrorTemplate::BadRequest(_) => None,
            WebSocketErrorTemplate::Unauthorized(_) => None,
            WebSocketErrorTemplate::Forbidden(_) => None,
            WebSocketErrorTemplate::NotFound(_) => None,
            WebSocketErrorTemplate::MethodNotAllowed(_) => None,
            WebSocketErrorTemplate::GreenhousesTooMany(_) => Some(30001),
            WebSocketErrorTemplate::GreenhouseNameTooShort(_) => Some(30002),
            WebSocketErrorTemplate::GreenhouseNameTooLong(_) => Some(30003),
            WebSocketErrorTemplate::GreenhouseTokenTooShort(_) => Some(30004),
            WebSocketErrorTemplate::GreenhouseTokenTooLong(_) => Some(30005),
            WebSocketErrorTemplate::EmailTooLong(_) => Some(30006),
            WebSocketErrorTemplate::PasswordTooShort(_) => Some(30007),
            WebSocketErrorTemplate::PasswordTooLong(_) => Some(30008),
            WebSocketErrorTemplate::UsernameTooShort(_) => Some(30009),
            WebSocketErrorTemplate::UsernameTooLong(_) => Some(30010),
            WebSocketErrorTemplate::DeviceNameTooShort(_) => Some(30011),
            WebSocketErrorTemplate::DeviceNameTooLong(_) => Some(30012),
            WebSocketErrorTemplate::DeviceRecordDataTooSmall(_) => Some(30013),
            WebSocketErrorTemplate::DeviceRecordDataTooBig(_) => Some(30014),
            WebSocketErrorTemplate::InvalidRequestField(_) => Some(40001),
            WebSocketErrorTemplate::GreenhouseTokenTaken(_) => Some(40002),
            WebSocketErrorTemplate::EmailInvalid(_) => Some(40003),
            WebSocketErrorTemplate::IncorrectPassword(_) => Some(40004),
            WebSocketErrorTemplate::UsernameInvalidOrTaken(_) => Some(40005),
            WebSocketErrorTemplate::InvalidDeviceState(_) => Some(40006),
            WebSocketErrorTemplate::DeviceIsNotController(_) => Some(40007),
            WebSocketErrorTemplate::DeviceIsNotSensor(_) => Some(40008),
            WebSocketErrorTemplate::TooLongAgo(_) => Some(40009),
            WebSocketErrorTemplate::FutureTime(_) => Some(40010),
        }
    }

    /// The message of the template.
    pub open spec fn message(self) -> Seq<char> {
        match self {
            WebSocketErrorTemplate::BadRequest(_) => "Bad request"@,
            WebSocketErrorTemplate::Unauthorized(_) => "Unauthorized"@,
            WebSocketErrorTemplate::Forbidden(_) => "Forbidden"@,
            WebSocketErrorTemplate::NotFound(_) => "Not found"@,
            WebSocketErrorTemplate::MethodNotAllowed(_) => "Method not allowed"@,
            WebSocketErrorTemplate::GreenhousesTooMany(_) => "There are too many greenhouses"@,
            WebSocketErrorTemplate::GreenhouseNameTooShort(_) => "Greenhouse name is too short"@,
            WebSocketErrorTemplate::GreenhouseNameTooLong(_) => "Greenhouse name is too long"@,
            WebSocketErrorTemplate::GreenhouseTokenTooShort(_) => "Greenhouse token is too short"@,
            WebSocketErrorTemplate::GreenhouseTokenTooLong(_) => "Greenhouse token is too long"@,
            WebSocketErrorTemplate::EmailTooLong(_) => "The email address is too long"@,
            WebSocketErrorTemplate::PasswordTooShort(_) => "The password is too short"@,
            WebSocketErrorTemplate::PasswordTooLong(_) => "The password is too long"@,
            WebSocketErrorTemplate::UsernameTooShort(_) => "The username is too short"@,
            WebSocketErrorTemplate::UsernameTooLong(_) => "The username is too long"@,
            WebSocketErrorTemplate::DeviceNameTooShort(_) => "Device name is too short"@,
            WebSocketErrorTemplate::DeviceNameTooLong(_) => "Device name is too long"@,
            WebSocketErrorTemplate::DeviceRecordDataTooSmall(_) => "Device record data is too small"@,
            WebSocketErrorTemplate::DeviceRecordDataTooBig(_) => "Device record data is too big"@,
            WebSocketErrorTemplate::InvalidRequestField(_) => "Invalid request"@,
            WebSocketErrorTemplate::GreenhouseTokenTaken(_) => "Greenhouse token taken"@,
            WebSocketErrorTemplate::EmailInvalid(_) => "Invalid email"@,
            WebSocketErrorTemplate::IncorrectPassword(_) => "Incorrect password"@,
            WebSocketErrorTemplate::UsernameInvalidOrTaken(_) => "The username is either invalid or taken"@,
            WebSocketErrorTemplate::InvalidDeviceState(_) => "Invalid device state"@,
            WebSocketErrorTemplate::DeviceIsNotController(_) => "The device is not a controller"@,
            WebSocketErrorTemplate::DeviceIsNotSensor(_) => "The device is not a sensor"@,
            WebSocketErrorTemplate::TooLongAgo(_) => "The time is too long ago"@,
            WebSocketErrorTemplate::FutureTime(_) => "The time is in the future"@,
        }
    }

    /// The kind carried by the template.
    pub open spec fn kind(self) -> Option<WebSocketErrorKind> {
        match self {
            WebSocketErrorTemplate::BadRequest(kind) => kind,
            WebSocketErrorTemplate::Unauthorized(kind) => kind,
            WebSocketErrorTemplate::Forbidden(kind) => kind,
            WebSocketErrorTemplate::NotFound(kind) => kind,
            WebSocketErrorTemplate::MethodNotAllowed(kind) => kind,
            WebSocketErrorTemplate::GreenhousesTooMany(kind) => kind,
            WebSocketErrorTemplate::GreenhouseNameTooShort(kind) => kind,
            WebSocketErrorTemplate::GreenhouseNameTooLong(kind) => kind,
            WebSocketErrorTemplate::GreenhouseTokenTooShort(kind) => kind,
            WebSocketErrorTemplate::GreenhouseTokenTooLong(kind) => kind,
            WebSocketErrorTemplate::EmailTooLong(kind) => kind,
            WebSocketErrorTemplate::PasswordTooShort(kind) => kind,
            WebSocketErrorTemplate::PasswordTooLong(kind) => kind,
            WebSocketErrorTemplate::UsernameTooShort(kind) => kind,
            WebSocketErrorTemplate::UsernameTooLong(kind) => kind,
            WebSocketErrorTemplate::DeviceNameTooShort(kind) => kind,
            WebSocketErrorTemplate::DeviceNameTooLong(kind) => kind,
            WebSocketErrorTemplate::DeviceRecordDataTooSmall(kind) => kind,
            WebSocketErrorTemplate::DeviceRecordDataTooBig(kind) => kind,
            WebSocketErrorTemplate::InvalidRequestField(kind) => kind,
            WebSocketErrorTemplate::GreenhouseTokenTaken(kind) => kind,
            WebSocketErrorTemplate::EmailInvalid(kind) => kind,
            WebSocketErrorTemplate::IncorrectPassword(kind) => kind,
            WebSocketErrorTemplate::UsernameInvalidOrTaken(kind) => kind,
            WebSocketErrorTemplate::InvalidDeviceState(kind) => kind,
            WebSocketErrorTemplate::DeviceIsNotController(kind) => kind,
            WebSocketErrorTemplate::DeviceIsNotSensor(kind) => kind,
            WebSocketErrorTemplate::TooLongAgo(kind) => kind,
            WebSocketErrorTemplate::FutureTime(kind) => kind,
        }
    }

    /// The error that the template stands for.
    pub open spec fn error(self) -> WebSocketErrorView {
        error_of(self.http_code(), self.json_code(), self.message(), kind_view(self.kind()))
    }

    /// Builds the error that the template stands for.
    pub fn into_error(self) -> (r: WebSocketError)
        ensures
            r@ == self.error(),
    {
        match self {
            WebSocketErrorTemplate::BadRequest(kind) => WebSocketError::new(
                400,
                None,
                String::from_str("Bad request"),
                kind,
            ),
            WebSocketErrorTemplate::Unauthorized(kind) => WebSocketError::new(
                401,
                None,
                String::from_str("Unauthorized"),
                kind,
            ),
            WebSocketErrorTemplate::Forbidden(kind) => WebSocketError::new(
                403,
                None,
                String::from_str("Forbidden"),
                kind,
            ),
            WebSocketErrorTemplate::NotFound(kind) => WebSocketError::new(
                404,
                None,
                String::from_str("Not found"),
                kind,
            ),
            WebSocketErrorTemplate::MethodNotAllowed(kind) => WebSocketError::new(
                405,
                None,
                String::from_str("Method not allowed"),
                kind,
            ),
            WebSocketErrorTemplate::GreenhousesTooMany(kind) => WebSocketError::new(
                400,
                Some(30001),
                String::from_str("There are too many greenhouses"),
                kind,
            ),
            WebSocketErrorTemplate::GreenhouseNameTooShort(kind) => WebSocketError::new(
                400,
                Some(30002),
                String::from_str("Greenhouse name is too short"),
                kind,
            ),
            WebSocketErrorTemplate::GreenhouseNameTooLong(kind) => WebSocketError::new(
                400,
                Some(30003),
                String::from_str("Greenhouse name is too long"),
                kind,
            ),
            WebSocketErrorTemplate::GreenhouseTokenTooShort(kind) => WebSocketError::new(
                400,
                Some(30004),
                String::from_str("Greenhouse token is too short"),
                kind,
            ),
            WebSocketErrorTemplate::GreenhouseTokenTooLong(kind) => WebSocketError::new(
                400,
                Some(30005),
                String::from_str("Greenhouse token is too long"),
                kind,
            ),
            WebSocketErrorTemplate::EmailTooLong(kind) => WebSocketError::new(
                400,
                Some(30006),
                String::from_str("The email address is too long"),
                kind,
            ),
            WebSocketErrorTemplate::PasswordTooShort(kind) => WebSocketError::new(
                400,
                Some(30007),
                String::from_str("The password is too short"),
                kind,
            ),
            WebSocketErrorTemplate::PasswordTooLong(kind) => WebSocketError::new(
                400,
                Some(30008),
                String::from_str("The password is too long"),
                kind,
            ),
            WebSocketErrorTemplate::UsernameTooShort(kind) => WebSocketError::new(
                400,
                Some(30009),
                String::from_str("The username is too short"),
                kind,
            ),
            WebSocketErrorTemplate::UsernameTooLong(kind) => WebSocketError::new(
                400,
                Some(30010),
                String::from_str("The username is too long"),
                kind,
            ),
            WebSocketErrorTemplate::DeviceNameTooShort(kind) => WebSocketError::new(
                400,
                Some(30011),
                String::from_str("Device name is too short"),
                kind,
            ),
            WebSocketErrorTemplate::DeviceNameTooLong(kind) => WebSocketError::new(
                400,
                Some(30012),
                String::from_str("Device name is too long"),
                kind,
            ),
            WebSocketErrorTemplate::DeviceRecordDataTooSmall(kind) => WebSocketError::new(
                400,
                Some(30013),
                String::from_str("Device record data is too small"),
                kind,
            ),
            WebSocketErrorTemplate::DeviceRecordDataTooBig(kind) => WebSocketError::new(
                400,
                Some(30014),
                String::from_str("Device record data is too big"),
                kind,
            ),
            WebSocketErrorTemplate::InvalidRequestField(kind) => WebSocketError::new(
                400,
                Some(40001),
                String::from_str("Invalid request"),
                kind,
            ),
            WebSocketErrorTemplate::GreenhouseTokenTaken(kind) => WebSocketError::new(
                400,
                Some(40002),
                String::from_str("Greenhouse token taken"),
                kind,
            ),
            WebSocketErrorTemplate::EmailInvalid(kind) => WebSocketError::new(
                400,
                Some(40003),
                String::from_str("Invalid email"),
                kind,
            ),
            WebSocketErrorTemplate::IncorrectPassword(kind) => WebSocketError::new(
                400,
                Some(40004),
                String::from_str("Incorrect password"),
                kind,
            ),
            WebSocketErrorTemplate::UsernameInvalidOrTaken(kind) => WebSocketError::new(
                400,
                Some(40005),
                String::from_str("The username is either invalid or taken"),
                kind,
            ),
            WebSocketErrorTemplate::InvalidDeviceState(kind) => WebSocketError::new(
                400,
                Some(40006),
                String::from_str("Invalid device state"),
                kind,
            ),
            WebSocketErrorTemplate::DeviceIsNotController(kind) => WebSocketError::new(
                400,
                Some(40007),
                String::from_str("The device is not a controller"),
                kind,
            ),
            WebSocketErrorTemplate::DeviceIsNotSensor(kind) => WebSocketError::new(
                400,
                Some(40008),
                String::from_str("The device is not a sensor"),
                kind,
            ),
            WebSocketErrorTemplate::TooLongAgo(kind) => WebSocketError::new(
                400,
                Some(40009),
                String::from_str("The time is too long ago"),
                kind,
            ),
            WebSocketErrorTemplate::FutureTime(kind) => WebSocketError::new(
                400,
                Some(40010),
                String::from_str("The time is in the future"),
                kind,
            ),
        }
    }
}

impl vstd::std_specs::convert::FromSpecImpl<WebSocketErrorTemplate> for WebSocketError {
    /// Two strings of equal content are not known to be one value, so the
    /// conversion is stated over views, in the `ensures` of `from`.
    open spec fn obeys_from_spec() -> bool {
        false
    }

    open spec fn from_spec(template: WebSocketErrorTemplate) -> WebSocketError {
        arbitrary()
    }
}

impl From<WebSocketErrorTemplate> for WebSocketError {
    fn from(template: WebSocketErrorTemplate) -> (r: WebSocketError)
        ensures
            r@ == template.error(),
    {
        template.into_error()
    }
}

/// Why the server closes a socket. The codes lie in the range that the
/// protocol leaves to applications.
#[derive(Clone, Copy, Debug, PartialEq, Eq, Structural)]
pub enum WebSocketCloseError {
    Unknown,
    Opcode,
    InvalidPayload,
    NotAuthenticated,
    AuthenticationFailed,
    AlreadyAuthenticated,
}

impl WebSocketCloseError {
    /// The close code sent to the peer.
    pub open spec fn close_code(self) -> u16 {
        match self {
            WebSocketCloseError::Unknown => 4000,
            WebSocketCloseError::Opcode => 4001,
            WebSocketCloseError::InvalidPayload => 4002,
            WebSocketCloseError::NotAuthenticated => 4003,
            WebSocketCloseError::AuthenticationFailed => 4004,
            WebSocketCloseError::AlreadyAuthenticated => 4005,
        }
    }

    /// The reason sent along with the code.
    pub open spec fn reason(self) -> Seq<char> {
        match self {
            WebSocketCloseError::Unknown => "Unknown error"@,
            WebSocketCloseError::Opcode => "Opcode not allowed"@,
            WebSocketCloseError::InvalidPayload => "Invalid payload"@,
            WebSocketCloseError::NotAuthenticated => "Not authenticated"@,
            WebSocketCloseError::AuthenticationFailed => "Authentication failed"@,
            WebSocketCloseError::AlreadyAuthenticated => "Already authenticated"@,
        }
    }

    pub fn code(&self) -> (r: u16)
        ensures
            r == self.close_code(),
            4000 <= r <= 4005,
    {
        match self {
            WebSocketCloseError::Unknown => 4000,
            WebSocketCloseError::Opcode => 4001,
            WebSocketCloseError::InvalidPayload => 4002,
            WebSocketCloseError::NotAuthenticated => 4003,
            WebSocketCloseError::AuthenticationFailed => 4004,
            WebSocketCloseError::AlreadyAuthenticated => 4005,
        }
    }

    pub fn description(&self) -> (r: &'static str)
        ensures
            r@ == self.reason(),
    {
        match self {
            WebSocketCloseError::Unknown => "Unknown error",
            WebSocketCloseError::Opcode => "Opcode not allowed",
            WebSocketCloseError::InvalidPayload => "Invalid payload",
            WebSocketCloseError::NotAuthenticated => "Not authenticated",
            WebSocketCloseError::AuthenticationFailed => "Authentication failed",
            WebSocketCloseError::AlreadyAuthenticated => "Already authenticated",
        }
    }
}

} // verus!
