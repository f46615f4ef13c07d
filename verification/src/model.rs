//! The records of the domain and the limits on what they hold.

use vstd::prelude::*;
use vstd::string::*;
use crate::error::{WebSocketError, WebSocketErrorView};
use crate::numbers::F64Bits;
use crate::templates::WebSocketErrorTemplate;
use crate::text::same_text;

verus! {

/// Language of a user's interface.
#[derive(Clone, Copy, Debug, PartialEq, Eq, Structural)]
pub enum UserLocale {
    EnGb,
    Ru,
}

impl UserLocale {
    /// The tag under which the locale is stored and sent.
    pub open spec fn tag(self) -> Seq<char> {
        match self {
            UserLocale::EnGb => "en-GB"@,
            UserLocale::Ru => "ru-RU"@,
        }
    }

    /// The locale that a tag names: the full tag or its short form.
    pub open spec fn of_tag(tag: Seq<char>) -> Option<UserLocale> {
        if tag == "en-GB"@ || tag == "en"@ {
            Some(UserLocale::EnGb)
        } else if tag == "ru-RU"@ || tag == "ru"@ {
            Some(UserLocale::Ru)
        } else {
            None
        }
    }

    pub fn name(&self) -> (r: &'static str)
        ensures
            r@ == self.tag(),
    {
        match self {
            UserLocale::EnGb => "en-GB",
            UserLocale::Ru => "ru-RU",
        }
    }

    pub fn parse(tag: &str) -> (r: Option<UserLocale>)
        ensures
            r == Self::of_tag(tag@),
    {
        if same_text(tag, "en-GB") || same_text(tag, "en") {
            Some(UserLocale::EnGb)
        } else if same_text(tag, "ru-RU") || same_text(tag, "ru") {
            Some(UserLocale::Ru)
        } else {
            None
        }
    }

    /// A locale's own tag names that locale.
    pub proof fn lemma_tag_names_locale(locale: UserLocale)
        ensures
            Self::of_tag(locale.tag()) == Some(locale),
    {
        reveal_strlit("en-GB");
        reveal_strlit("en");
        reveal_strlit("ru-RU");
        reveal_strlit("ru");
        assert("ru-RU"@.len() == 5);
        assert("en"@.len() == 2);
        assert("en-GB"@[0] == 'e');
        assert("ru-RU"@[0] == 'r');
    }
}

/// Colour scheme of a user's interface.
#[derive(Clone, Copy, Debug, PartialEq, Eq, Structural)]
pub enum UserTheme {
    Auto,
    Light,
    Dark,
}

impl UserTheme {
    /// The number that stands for the theme in storage and on the wire.
    pub open spec fn number(self) -> i16 {
        match self {
            UserTheme::Auto => 0,
            UserTheme::Light => 1,
            UserTheme::Dark => 2,
        }
    }

    pub fn to_number(&self) -> (r: i16)
        ensures
            r == self.number(),
    {
        match self {
            UserTheme::Auto => 0,
            UserTheme::Light => 1,
            UserTheme::Dark => 2,
        }
    }

    pub fn from_number(number: i16) -> (r: Option<UserTheme>)
        ensures
            match r {
                Some(theme) => theme.number() == number,
                None => number < 0 || number > 2,
            },
    {
        if number == 0 {
            Some(UserTheme::Auto)
        } else if number == 1 {
            Some(UserTheme::Light)
        } else if number == 2 {
            Some(UserTheme::Dark)
        } else {
            None
        }
    }
}

/// Whether a device answers.
#[derive(Clone, Copy, Debug, PartialEq, Eq, Structural)]
pub enum DeviceStatus {
    Offline,
    Online,
    Disabled,
}

impl DeviceStatus {
    pub open spec fn number(self) -> i16 {
        match self {
            DeviceStatus::Offline => 0,
            DeviceStatus::Online => 1,
            DeviceStatus::Disabled => 2,
        }
    }

    pub fn to_number(&self) -> (r: i16)
        ensures
            r == self.number(),
    {
        match self {
            DeviceStatus::Offline => 0,
            DeviceStatus::Online => 1,
            DeviceStatus::Disabled => 2,
        }
    }

    pub fn from_number(number: i16) -> (r: Option<DeviceStatus>)
        ensures
            match r {
                Some(status) => status.number() == number,
                None => number < 0 || number > 2,
            },
    {
        if number == 0 {
            Some(DeviceStatus::Offline)
        } else if number == 1 {
            Some(DeviceStatus::Online)
        } else if number == 2 {
            Some(DeviceStatus::Disabled)
        } else {
            None
        }
    }
}

/// What a device measures or drives.
#[derive(Clone, Copy, Debug, PartialEq, Eq, Structural)]
pub enum DeviceKind {
    HumiditySensor,
    SoilMoistureSensor,
    TemperatureSensor,
    HumidificationController,
    IrrigationController,
    WindowsController,
}

impl DeviceKind {
    pub open spec fn number(self) -> i16 {
        match self {
            DeviceKind::HumiditySensor => 0,
            DeviceKind::SoilMoistureSensor => 1,
            DeviceKind::TemperatureSensor => 2,
            DeviceKind::HumidificationController => 3,
            DeviceKind::IrrigationController => 4,
            DeviceKind::WindowsController => 5,
        }
    }

    /// The three kinds that report readings.
    pub open spec fn sensor(self) -> bool {
        self is HumiditySensor || self is SoilMoistureSensor || self is TemperatureSensor
    }

    /// The three kinds that take a state.
    pub open spec fn controller(self) -> bool {
        self is HumidificationController || self is IrrigationController || self
            is WindowsController
    }

    pub fn to_number(&self) -> (r: i16)
        ensures
            r == self.number(),
    {
        match self {
            DeviceKind::HumiditySensor => 0,
            DeviceKind::SoilMoistureSensor => 1,
            DeviceKind::TemperatureSensor => 2,
            DeviceKind::HumidificationController => 3,
            DeviceKind::IrrigationController => 4,
            DeviceKind::WindowsController => 5,
        }
    }

    pub fn from_number(number: i16) -> (r: Option<DeviceKind>)
        ensures
            match r {
                Some(kind) => kind.number() == number,
                None => number < 0 || number > 5,
            },
    {
        if number == 0 {
            Some(DeviceKind::HumiditySensor)
        } else if number == 1 {
            Some(DeviceKind::SoilMoistureSensor)
        } else if number == 2 {
            Some(DeviceKind::TemperatureSensor)
        } else if number == 3 {
            Some(DeviceKind::HumidificationController)
        } else if number == 4 {
            Some(DeviceKind::IrrigationController)
        } else if number == 5 {
            Some(DeviceKind::WindowsController)
        } else {
            None
        }
    }

    pub fn is_sensor(&self) -> (r: bool)
        ensures
            r == self.sensor(),
    {
        match self {
            DeviceKind::HumiditySensor => true,
            DeviceKind::SoilMoistureSensor => true,
            DeviceKind::TemperatureSensor => true,
            _ => false,
        }
    }

    pub fn is_controller(&self) -> (r: bool)
        ensures
            r == self.controller(),
    {
        match self {
            DeviceKind::HumidificationController => true,
            DeviceKind::IrrigationController => true,
            DeviceKind::WindowsController => true,
            _ => false,
        }
    }
}

/// The stretch of time over which readings are averaged.
#[derive(Clone, Copy, Debug, PartialEq, Eq, Hash, Structural)]
pub enum DeviceRecordsTimestampRange {
    Today,
    Week,
    Month,
    LastMonth,
    MonthBeforeLast,
    LastThreeMoths,
}

impl Default for DeviceRecordsTimestampRange {
    fn default() -> (r: Self)
        ensures
            r == DeviceRecordsTimestampRange::Today,
    {
        DeviceRecordsTimestampRange::Today
    }
}

impl DeviceRecordsTimestampRange {
    pub open spec fn number(self) -> u8 {
        match self {
            DeviceRecordsTimestampRange::Today => 0,
            DeviceRecordsTimestampRange::Week => 1,
            DeviceRecordsTimestampRange::Month => 2,
            DeviceRecordsTimestampRange::LastMonth => 3,
            DeviceRecordsTimestampRange::MonthBeforeLast => 4,
            DeviceRecordsTimestampRange::LastThreeMoths => 5,
        }
    }

    pub fn to_number(&self) -> (r: u8)
        ensures
            r == self.number(),
    {
        match self {
            DeviceRecordsTimestampRange::Today => 0,
            DeviceRecordsTimestampRange::Week => 1,
            DeviceRecordsTimestampRange::Month => 2,
            DeviceRecordsTimestampRange::LastMonth => 3,
            DeviceRecordsTimestampRange::MonthBeforeLast => 4,
            DeviceRecordsTimestampRange::LastThreeMoths => 5,
        }
    }

    pub fn from_number(number: u8) -> (r: Option<DeviceRecordsTimestampRange>)
        ensures
            match r {
                Some(range) => range.number() == number,
                None => number > 5,
            },
    {
        if number == 0 {
            Some(DeviceRecordsTimestampRange::Today)
        } else if number == 1 {
            Some(DeviceRecordsTimestampRange::Week)
        } else if number == 2 {
            Some(DeviceRecordsTimestampRange::Month)
        } else if number == 3 {
            Some(DeviceRecordsTimestampRange::LastMonth)
        } else if number == 4 {
            Some(DeviceRecordsTimestampRange::MonthBeforeLast)
        } else if number == 5 {
            Some(DeviceRecordsTimestampRange::LastThreeMoths)
        } else {
            None
        }
    }
}

/// A login session. `created_at` counts seconds since the Unix epoch, here
/// and in every other record.
#[derive(Clone, Debug)]
pub struct Session {
    pub id: i64,
    pub token: String,
    pub user_id: Option<i64>,
    pub created_at: u64,
}

/// A user as stored.
#[derive(Clone, Debug)]
pub struct User {
    pub id: i64,
    pub email: String,
    pub password_hash: String,
    pub username: String,
    pub created_at: u64,
    pub locale: UserLocale,
    pub theme: UserTheme,
}

/// What everybody may see of a user.
#[derive(Clone, Debug)]
pub struct UserPublic {
    pub id: i64,
    pub username: String,
    pub created_at: u64,
    pub greenhouses: i64,
}

/// What a user may see of themselves.
#[derive(Clone, Debug)]
pub struct UserMe {
    pub id: i64,
    pub email: String,
    pub username: String,
    pub created_at: u64,
    pub locale: UserLocale,
    pub theme: UserTheme,
    pub greenhouses: i64,
}

/// A greenhouse as stored.
#[derive(Clone, Debug)]
pub struct Greenhouse {
    pub id: i64,
    pub name: String,
    pub token: String,
    pub owner_id: i64,
    pub created_at: u64,
    pub maximum_average_humidity: Option<F64Bits>,
    pub minimum_average_temperature: Option<F64Bits>,
}

/// What is needed to create a greenhouse.
#[derive(Clone, Debug)]
pub struct NewGreenhouse {
    pub name: String,
    pub token: String,
    pub owner_id: i64,
}

/// A device as stored.
#[derive(Clone, Debug)]
pub struct Device {
    pub id: i64,
    pub external_id: Option<i16>,
    pub name: Option<String>,
    pub status: DeviceStatus,
    pub kind: DeviceKind,
    pub greenhouse_id: i64,
    pub created_at: u64,
    pub maximum_data_value: Option<F64Bits>,
}

/// One reading of a device.
#[derive(Clone, Copy, Debug, PartialEq, Eq, Structural)]
pub struct DeviceRecord {
    pub id: i64,
    pub device_id: i64,
    pub data: F64Bits,
    pub created_at: u64,
}

/// What is needed to store a reading.
#[derive(Clone, Copy, Debug, PartialEq, Eq, Structural)]
pub struct NewDeviceRecord {
    pub device_id: i64,
    pub data: F64Bits,
}

/// The average reading over one window of time, if the window holds any.
#[derive(Clone, Copy, Debug, PartialEq, Eq)]
pub struct DeviceRecordsAverage {
    pub data: Option<F64Bits>,
    pub range: (u64, u64),
}

impl UserMe {
    /// What a user may see of themselves: the user as stored, with the
    /// number of their greenhouses.
    pub fn from_user(user: &User, greenhouses: i64) -> (r: UserMe)
        ensures
            r.id == user.id,
            r.email@ == user.email@,
            r.username@ == user.username@,
            r.created_at == user.created_at,
            r.locale == user.locale,
            r.theme == user.theme,
            r.greenhouses == greenhouses,
    {
        UserMe {
            id: user.id,
            email: user.email.clone(),
            username: user.username.clone(),
            created_at: user.created_at,
            locale: user.locale,
            theme: user.theme,
            greenhouses,
        }
    }
}

impl UserPublic {
    /// What everybody may see of a user: less than they see themselves.
    pub fn from_me(user: &UserMe) -> (r: UserPublic)
        ensures
            r.id == user.id,
            r.username@ == user.username@,
            r.created_at == user.created_at,
            r.greenhouses == user.greenhouses,
    {
        UserPublic {
            id: user.id,
            username: user.username.clone(),
            created_at: user.created_at,
            greenhouses: user.greenhouses,
        }
    }
}

/// What is wrong with a length, if anything: the error of `short` below
/// `least`, the error of `long` above `most`.
pub open spec fn length_fault(
    length: nat,
    least: nat,
    most: nat,
    short: WebSocketErrorTemplate,
    long: WebSocketErrorTemplate,
) -> Option<WebSocketErrorView> {
    if length < least {
        Some(short.error())
    } else if length > most {
        Some(long.error())
    } else {
        None
    }
}

/// A check passes where there is no fault, and fails with the fault where
/// there is one.
pub open spec fn checked(r: Result<(), WebSocketError>, fault: Option<WebSocketErrorView>) -> bool {
    match r {
        Ok(()) => fault is None,
        Err(error) => fault == Some(error@),
    }
}

/// The outcome of a check on a length.
pub open spec fn length_verdict(
    length: nat,
    least: nat,
    most: nat,
    short: WebSocketErrorTemplate,
    long: WebSocketErrorTemplate,
    r: Result<(), WebSocketError>,
) -> bool {
    checked(r, length_fault(length, least, most, short, long))
}

impl User {
    /// What is wrong with the length of an email address, if anything.
    pub open spec fn email_fault(email: Seq<char>) -> Option<WebSocketErrorView> {
        length_fault(
            email.len(),
            0,
            512,
            WebSocketErrorTemplate::EmailTooLong(None),
            WebSocketErrorTemplate::EmailTooLong(None),
        )
    }

    /// What is wrong with the length of a password, if anything.
    pub open spec fn password_fault(password: Seq<char>) -> Option<WebSocketErrorView> {
        length_fault(
            password.len(),
            8,
            128,
            WebSocketErrorTemplate::PasswordTooShort(None),
            WebSocketErrorTemplate::PasswordTooLong(None),
        )
    }

    /// What is wrong with the length of a username, if anything.
    pub open spec fn username_fault(username: Seq<char>) -> Option<WebSocketErrorView> {
        length_fault(
            username.len(),
            3,
            32,
            WebSocketErrorTemplate::UsernameTooShort(None),
            WebSocketErrorTemplate::UsernameTooLong(None),
        )
    }

    /// An email address may hold 512 characters at most.
    pub fn check_email_length(email: &str) -> (r: Result<(), WebSocketError>)
        ensures
            length_verdict(
                email@.len(),
                0,
                512,
                WebSocketErrorTemplate::EmailTooLong(None),
                WebSocketErrorTemplate::EmailTooLong(None),
                r,
            ),
    {
        let length = email.unicode_len();
        if length > 512 {
            Err(WebSocketErrorTemplate::EmailTooLong(None).into_error())
        } else {
            Ok(())
        }
    }

    /// A password holds 8 to 128 characters.
    pub fn check_password_length(password: &str) -> (r: Result<(), WebSocketError>)
        ensures
            length_verdict(
                password@.len(),
                8,
                128,
                WebSocketErrorTemplate::PasswordTooShort(None),
                WebSocketErrorTemplate::PasswordTooLong(None),
                r,
            ),
    {
        let length = password.unicode_len();
        if length < 8 {
            Err(WebSocketErrorTemplate::PasswordTooShort(None).into_error())
        } else if length > 128 {
            Err(WebSocketErrorTemplate::PasswordTooLong(None).into_error())
        } else {
            Ok(())
        }
    }

    /// A username holds 3 to 32 characters.
    pub fn check_username_length(username: &str) -> (r: Result<(), WebSocketError>)
        ensures
            length_verdict(
                username@.len(),
                3,
                32,
                WebSocketErrorTemplate::UsernameTooShort(None),
                WebSocketErrorTemplate::UsernameTooLong(None),
                r,
            ),
    {
        let length = username.unicode_len();
        if length < 3 {
            Err(WebSocketErrorTemplate::UsernameTooShort(None).into_error())
        } else if length > 32 {
            Err(WebSocketErrorTemplate::UsernameTooLong(None).into_error())
        } else {
            Ok(())
        }
    }
}

impl Greenhouse {
    /// What is wrong with the length of a greenhouse name, if anything.
    pub open spec fn name_fault(name: Seq<char>) -> Option<WebSocketErrorView> {
        length_fault(
            name.len(),
            3,
            32,
            WebSocketErrorTemplate::GreenhouseNameTooShort(None),
            WebSocketErrorTemplate::GreenhouseNameTooLong(None),
        )
    }

    /// What is wrong with the length of a greenhouse token, if anything.
    pub open spec fn token_fault(token: Seq<char>) -> Option<WebSocketErrorView> {
        length_fault(
            token.len(),
            3,
            32,
            WebSocketErrorTemplate::GreenhouseTokenTooShort(None),
            WebSocketErrorTemplate::GreenhouseTokenTooLong(None),
        )
    }

    /// A greenhouse name holds 3 to 32 characters.
    pub fn check_name_length(name: &str) -> (r: Result<(), WebSocketError>)
        ensures
            length_verdict(
                name@.len(),
                3,
                32,
                WebSocketErrorTemplate::GreenhouseNameTooShort(None),
                WebSocketErrorTemplate::GreenhouseNameTooLong(None),
                r,
            ),
    {
        let length = name.unicode_len();
        if length < 3 {
            Err(WebSocketErrorTemplate::GreenhouseNameTooShort(None).into_error())
        } else if length > 32 {
            Err(WebSocketErrorTemplate::GreenhouseNameTooLong(None).into_error())
        } else {
            Ok(())
        }
    }

    /// A greenhouse token holds 3 to 32 characters.
    pub fn check_token_length(token: &str) -> (r: Result<(), WebSocketError>)
        ensures
            length_verdict(
                token@.len(),
                3,
                32,
                WebSocketErrorTemplate::GreenhouseTokenTooShort(None),
                WebSocketErrorTemplate::GreenhouseTokenTooLong(None),
                r,
            ),
    {
        let length = token.unicode_len();
        if length < 3 {
            Err(WebSocketErrorTemplate::GreenhouseTokenTooShort(None).into_error())
        } else if length > 32 {
            Err(WebSocketErrorTemplate::GreenhouseTokenTooLong(None).into_error())
        } else {
            Ok(())
        }
    }
}

impl Device {
    /// What is wrong with the length of a device name, if anything.
    pub open spec fn name_fault(name: Seq<char>) -> Option<WebSocketErrorView> {
        length_fault(
            name.len(),
            1,
            24,
            WebSocketErrorTemplate::DeviceNameTooShort(None),
            WebSocketErrorTemplate::DeviceNameTooLong(None),
        )
    }

    /// A device name holds 1 to 24 characters.
    pub fn check_name_length(name: &str) -> (r: Result<(), WebSocketError>)
        ensures
            length_verdict(
                name@.len(),
                1,
                24,
                WebSocketErrorTemplate::DeviceNameTooShort(None),
                WebSocketErrorTemplate::DeviceNameTooLong(None),
                r,
            ),
    {
        let length = name.unicode_len();
        if length < 1 {
            Err(WebSocketErrorTemplate::DeviceNameTooShort(None).into_error())
        } else if length > 24 {
            Err(WebSocketErrorTemplate::DeviceNameTooLong(None).into_error())
        } else {
            Ok(())
        }
    }
}

/// What is wrong with the size of a reading, if anything.
pub open spec fn data_size_fault(data: F64Bits) -> Option<WebSocketErrorView> {
    if data.below_minus_hundred() {
        Some(WebSocketErrorTemplate::DeviceRecordDataTooSmall(None).error())
    } else if data.above_hundred() {
        Some(WebSocketErrorTemplate::DeviceRecordDataTooBig(None).error())
    } else {
        None
    }
}

/// The outcome of a check on a reading.
pub open spec fn data_size_verdict(data: F64Bits, r: Result<(), WebSocketError>) -> bool {
    checked(r, data_size_fault(data))
}

impl DeviceRecord {
    /// A reading lies between -100 and 100, both included. What is no
    /// number passes.
    pub fn check_data_size(data: &F64Bits) -> (r: Result<(), WebSocketError>)
        ensures
            data_size_verdict(*data, r),
    {
        if data.is_below_minus_hundred() {
            Err(WebSocketErrorTemplate::DeviceRecordDataTooSmall(None).into_error())
        } else if data.is_above_hundred() {
            Err(WebSocketErrorTemplate::DeviceRecordDataTooBig(None).into_error())
        } else {
            Ok(())
        }
    }
}

} // verus!
