use garthen::error::{IoFailure, WebSocketError, WebSocketErrorKind};
use garthen::model::{
    Device, DeviceKind, DeviceRecord, DeviceRecordsTimestampRange, DeviceStatus, Greenhouse, User,
    UserLocale, UserMe, UserPublic, UserTheme,
};
use garthen::numbers::{is_same_optional_number, or_zero, F64Bits};
use garthen::templates::{WebSocketCloseError, WebSocketErrorTemplate};

fn bits(value: f64) -> F64Bits {
    F64Bits::new(value.to_bits())
}

fn text(length: usize) -> String {
    "x".repeat(length)
}

#[test]
fn error_without_codes_of_its_own() {
    let error = WebSocketError::new(404, None, "Not found".to_string(), None);
    assert_eq!(error.http_code, 404);
    assert_eq!(error.json_code, 404);
    assert!(matches!(error.kind, WebSocketErrorKind::Other(None)));
    let error = WebSocketError::new(
        400,
        Some(30001),
        "There are too many greenhouses".to_string(),
        Some(WebSocketErrorKind::DieselError),
    );
    assert_eq!(error.json_code, 30001);
    assert!(matches!(error.kind, WebSocketErrorKind::DieselError));
}

#[test]
fn safe_message_hides_server_errors() {
    let shown = WebSocketError::new(499, None, "detail".to_string(), None);
    assert_eq!(shown.get_safe_message(), "detail");
    let hidden = WebSocketError::new(500, None, "detail".to_string(), None);
    assert_eq!(hidden.get_safe_message(), "Internal server error");
    let hidden = WebSocketError::new(503, Some(1), "database password".to_string(), None);
    assert_eq!(hidden.get_safe_message(), "Internal server error");
}

#[test]
fn failures_of_outside_components_are_wrapped() {
    let error = WebSocketError::from_source(WebSocketErrorKind::DieselError, true, "no rows");
    assert_eq!((error.http_code, error.json_code), (404, 404));
    assert_eq!(error.message, "Not found");
    assert!(matches!(error.kind, WebSocketErrorKind::DieselError));
    let error = WebSocketError::from_source(WebSocketErrorKind::DieselError, false, "broken pipe");
    assert_eq!((error.http_code, error.json_code), (500, 500));
    assert_eq!(error.message, "Diesel error: broken pipe");
    let error = WebSocketError::from_source(WebSocketErrorKind::R2d2Error, true, "timed out");
    assert_eq!(error.http_code, 500);
    assert_eq!(error.message, "r2d2 error: timed out");
    let cases = [
        (WebSocketErrorKind::StdError(IoFailure::Other), "std error: x"),
        (WebSocketErrorKind::ActixMailboxError, "Actix mailbox error: x"),
        (WebSocketErrorKind::Argon2Error, "Argon2 error: x"),
        (WebSocketErrorKind::Argon2PasswordHashError, "Argon2 password hash error: x"),
        (WebSocketErrorKind::SerdeEetfError, "Serde EETF error: x"),
        (WebSocketErrorKind::SerdeJsonError, "Serde JSON error: x"),
        (WebSocketErrorKind::Other(None), "x"),
    ];
    for (kind, message) in cases {
        assert_eq!(WebSocketError::from_source(kind, false, "x").message, message);
    }
}

#[test]
fn every_template_has_its_codes_and_message() {
    let cases: Vec<(WebSocketErrorTemplate, u16, u32, &str)> = vec![
        (WebSocketErrorTemplate::BadRequest(None), 400, 400, "Bad request"),
        (WebSocketErrorTemplate::Unauthorized(None), 401, 401, "Unauthorized"),
        (WebSocketErrorTemplate::Forbidden(None), 403, 403, "Forbidden"),
        (WebSocketErrorTemplate::NotFound(None), 404, 404, "Not found"),
        (WebSocketErrorTemplate::MethodNotAllowed(None), 405, 405, "Method not allowed"),
        (
            WebSocketErrorTemplate::GreenhousesTooMany(None),
            400,
            30001,
            "There are too many greenhouses",
        ),
        (
            WebSocketErrorTemplate::GreenhouseNameTooShort(None),
            400,
            30002,
            "Greenhouse name is too short",
        ),
        (
            WebSocketErrorTemplate::GreenhouseNameTooLong(None),
            400,
            30003,
            "Greenhouse name is too long",
        ),
        (
            WebSocketErrorTemplate::GreenhouseTokenTooShort(None),
            400,
            30004,
            "Greenhouse token is too short",
        ),
        (
            WebSocketErrorTemplate::GreenhouseTokenTooLong(None),
            400,
            30005,
            "Greenhouse token is too long",
        ),
        (WebSocketErrorTemplate::EmailTooLong(None), 400, 30006, "The email address is too long"),
        (WebSocketErrorTemplate::PasswordTooShort(None), 400, 30007, "The password is too short"),
        (WebSocketErrorTemplate::PasswordTooLong(None), 400, 30008, "The password is too long"),
        (WebSocketErrorTemplate::UsernameTooShort(None), 400, 30009, "The username is too short"),
        (WebSocketErrorTemplate::UsernameTooLong(None), 400, 30010, "The username is too long"),
        (WebSocketErrorTemplate::DeviceNameTooShort(None), 400, 30011, "Device name is too short"),
        (WebSocketErrorTemplate::DeviceNameTooLong(None), 400, 30012, "Device name is too long"),
        (
            WebSocketErrorTemplate::DeviceRecordDataTooSmall(None),
            400,
            30013,
            "Device record data is too small",
        ),
        (
            WebSocketErrorTemplate::DeviceRecordDataTooBig(None),
            400,
            30014,
            "Device record data is too big",
        ),
        (WebSocketErrorTemplate::InvalidRequestField(None), 400, 40001, "Invalid request"),
        (WebSocketErrorTemplate::GreenhouseTokenTaken(None), 400, 40002, "Greenhouse token taken"),
        (WebSocketErrorTemplate::EmailInvalid(None), 400, 40003, "Invalid email"),
        (WebSocketErrorTemplate::IncorrectPassword(None), 400, 40004, "Incorrect password"),
        (
            WebSocketErrorTemplate::UsernameInvalidOrTaken(None),
            400,
            40005,
            "The username is either invalid or taken",
        ),
        (WebSocketErrorTemplate::InvalidDeviceState(None), 400, 40006, "Invalid device state"),
        (
            WebSocketErrorTemplate::DeviceIsNotController(None),
            400,
            40007,
            "The device is not a controller",
        ),
        (WebSocketErrorTemplate::DeviceIsNotSensor(None), 400, 40008, "The device is not a sensor"),
        (WebSocketErrorTemplate::TooLongAgo(None), 400, 40009, "The time is too long ago"),
        (WebSocketErrorTemplate::FutureTime(None), 400, 40010, "The time is in the future"),
    ];
    for (template, http_code, json_code, message) in cases {
        let error: WebSocketError = template.into();
        assert_eq!(error.http_code, http_code, "{message}");
        assert_eq!(error.json_code, json_code, "{message}");
        assert_eq!(error.message, message);
        assert!(matches!(error.kind, WebSocketErrorKind::Other(None)));
    }
    let kept = WebSocketErrorTemplate::NotFound(Some(WebSocketErrorKind::DieselError)).into_error();
    assert!(matches!(kept.kind, WebSocketErrorKind::DieselError));
}

#[test]
fn close_codes() {
    let cases = [
        (WebSocketCloseError::Unknown, 4000, "Unknown error"),
        (WebSocketCloseError::Opcode, 4001, "Opcode not allowed"),
        (WebSocketCloseError::InvalidPayload, 4002, "Invalid payload"),
        (WebSocketCloseError::NotAuthenticated, 4003, "Not authenticated"),
        (WebSocketCloseError::AuthenticationFailed, 4004, "Authentication failed"),
        (WebSocketCloseError::AlreadyAuthenticated, 4005, "Already authenticated"),
    ];
    for (error, code, description) in cases {
        assert_eq!(error.code(), code);
        assert_eq!(error.description(), description);
    }
}

#[test]
fn lengths_at_their_limits() {
    assert!(User::check_email_length("").is_ok());
    assert!(User::check_email_length(&text(512)).is_ok());
    assert_eq!(User::check_email_length(&text(513)).unwrap_err().json_code, 30006);
    assert_eq!(User::check_password_length(&text(7)).unwrap_err().json_code, 30007);
    assert!(User::check_password_length(&text(8)).is_ok());
    assert!(User::check_password_length(&text(128)).is_ok());
    assert_eq!(User::check_password_length(&text(129)).unwrap_err().json_code, 30008);
    assert_eq!(User::check_username_length(&text(2)).unwrap_err().json_code, 30009);
    assert!(User::check_username_length(&text(3)).is_ok());
    assert!(User::check_username_length(&text(32)).is_ok());
    assert_eq!(User::check_username_length(&text(33)).unwrap_err().json_code, 30010);
    assert_eq!(Greenhouse::check_name_length(&text(2)).unwrap_err().json_code, 30002);
    assert!(Greenhouse::check_name_length(&text(3)).is_ok());
    assert!(Greenhouse::check_name_length(&text(32)).is_ok());
    assert_eq!(Greenhouse::check_name_length(&text(33)).unwrap_err().json_code, 30003);
    assert_eq!(Greenhouse::check_token_length(&text(2)).unwrap_err().json_code, 30004);
    assert!(Greenhouse::check_token_length(&text(32)).is_ok());
    assert_eq!(Greenhouse::check_token_length(&text(33)).unwrap_err().json_code, 30005);
    assert_eq!(Device::check_name_length("").unwrap_err().json_code, 30011);
    assert!(Device::check_name_length("a").is_ok());
    assert!(Device::check_name_length(&text(24)).is_ok());
    assert_eq!(Device::check_name_length(&text(25)).unwrap_err().json_code, 30012);
}

#[test]
fn lengths_count_characters_not_bytes() {
    let name = "ж".repeat(32);
    assert_eq!(name.len(), 64);
    assert!(Greenhouse::check_name_length(&name).is_ok());
    assert!(User::check_username_length("жжж").is_ok());
    assert!(User::check_username_length("жж").is_err());
}

#[test]
fn readings_between_minus_hundred_and_hundred() {
    for value in [0.0, -0.0, 100.0, -100.0, 99.999, -99.999, 1e-300, f64::NAN] {
        assert!(DeviceRecord::check_data_size(&bits(value)).is_ok(), "{value}");
    }
    for value in [100.00000000000001, 101.0, 1e300, f64::INFINITY] {
        assert_eq!(
            DeviceRecord::check_data_size(&bits(value)).unwrap_err().json_code,
            30014,
            "{value}"
        );
    }
    for value in [-100.00000000000001, -101.0, -1e300, f64::NEG_INFINITY] {
        assert_eq!(
            DeviceRecord::check_data_size(&bits(value)).unwrap_err().json_code,
            30013,
            "{value}"
        );
    }
}

#[test]
fn numbers_compare_as_doubles_do() {
    let values = [
        0.0,
        -0.0,
        1.0,
        -1.0,
        100.0,
        -100.0,
        1e-320,
        f64::MIN_POSITIVE,
        f64::MAX,
        f64::INFINITY,
        f64::NEG_INFINITY,
        f64::NAN,
        -f64::NAN,
    ];
    for a in values {
        assert_eq!(bits(a).is_nan(), a.is_nan(), "{a}");
        assert_eq!(bits(a).is_above_hundred(), a > 100.0, "{a}");
        assert_eq!(bits(a).is_below_minus_hundred(), a < -100.0, "{a}");
        for b in values {
            assert_eq!(bits(a).is_same_number(&bits(b)), a == b, "{a} {b}");
            assert_eq!(
                is_same_optional_number(&Some(bits(a)), &Some(bits(b))),
                Some(a) == Some(b),
                "{a} {b}"
            );
        }
        assert!(!is_same_optional_number(&Some(bits(a)), &None));
        assert!(!is_same_optional_number(&None, &Some(bits(a))));
    }
    assert!(is_same_optional_number(&None, &None));
    assert_eq!(or_zero(&None), bits(0.0));
    assert_eq!(or_zero(&Some(bits(3.5))), bits(3.5));
    assert_eq!(F64Bits::zero().bits, 0);
}

#[test]
fn locales_by_tag() {
    assert_eq!(UserLocale::parse("en-GB"), Some(UserLocale::EnGb));
    assert_eq!(UserLocale::parse("en"), Some(UserLocale::EnGb));
    assert_eq!(UserLocale::parse("ru-RU"), Some(UserLocale::Ru));
    assert_eq!(UserLocale::parse("ru"), Some(UserLocale::Ru));
    assert_eq!(UserLocale::parse("de"), None);
    assert_eq!(UserLocale::parse("EN"), None);
    assert_eq!(UserLocale::parse(""), None);
    assert_eq!(UserLocale::EnGb.name(), "en-GB");
    assert_eq!(UserLocale::Ru.name(), "ru-RU");
    for locale in [UserLocale::EnGb, UserLocale::Ru] {
        assert_eq!(UserLocale::parse(locale.name()), Some(locale));
    }
}

#[test]
fn enumerations_by_number() {
    for theme in [UserTheme::Auto, UserTheme::Light, UserTheme::Dark] {
        assert_eq!(UserTheme::from_number(theme.to_number()), Some(theme));
    }
    assert_eq!(UserTheme::Dark.to_number(), 2);
    assert_eq!(UserTheme::from_number(3), None);
    assert_eq!(UserTheme::from_number(-1), None);
    for status in [DeviceStatus::Offline, DeviceStatus::Online, DeviceStatus::Disabled] {
        assert_eq!(DeviceStatus::from_number(status.to_number()), Some(status));
    }
    assert_eq!(DeviceStatus::Disabled.to_number(), 2);
    assert_eq!(DeviceStatus::from_number(3), None);
    let kinds = [
        DeviceKind::HumiditySensor,
        DeviceKind::SoilMoistureSensor,
        DeviceKind::TemperatureSensor,
        DeviceKind::HumidificationController,
        DeviceKind::IrrigationController,
        DeviceKind::WindowsController,
    ];
    for (number, kind) in kinds.iter().enumerate() {
        assert_eq!(kind.to_number() as usize, number);
        assert_eq!(DeviceKind::from_number(number as i16), Some(*kind));
        assert_eq!(kind.is_sensor(), number < 3);
        assert_eq!(kind.is_controller(), number >= 3);
    }
    assert_eq!(DeviceKind::from_number(6), None);
    let ranges = [
        DeviceRecordsTimestampRange::Today,
        DeviceRecordsTimestampRange::Week,
        DeviceRecordsTimestampRange::Month,
        DeviceRecordsTimestampRange::LastMonth,
        DeviceRecordsTimestampRange::MonthBeforeLast,
        DeviceRecordsTimestampRange::LastThreeMoths,
    ];
    for (number, range) in ranges.iter().enumerate() {
        assert_eq!(range.to_number() as usize, number);
        assert_eq!(DeviceRecordsTimestampRange::from_number(number as u8), Some(*range));
    }
    assert_eq!(DeviceRecordsTimestampRange::from_number(6), None);
    assert_eq!(DeviceRecordsTimestampRange::default(), DeviceRecordsTimestampRange::Today);
}

#[test]
fn windows_of_each_range() {
    let now: u64 = 1_700_000_000;
    let month: u64 = 2_592_000;
    let week: u64 = 604_800;
    let cases = [
        (DeviceRecordsTimestampRange::Today, 0, 24, 3_600),
        (DeviceRecordsTimestampRange::Week, 0, 7, 86_400),
        (DeviceRecordsTimestampRange::Month, 0, 5, week),
        (DeviceRecordsTimestampRange::LastMonth, month, 5, week),
        (DeviceRecordsTimestampRange::MonthBeforeLast, 2 * month, 5, week),
        (DeviceRecordsTimestampRange::LastThreeMoths, 0, 3, month),
    ];
    for (range, offset, count, interval) in cases {
        let buckets = range.buckets(now).unwrap();
        assert_eq!(buckets.len(), count);
        assert_eq!(buckets[0].1, now - offset);
        for (i, (from, until)) in buckets.iter().enumerate() {
            assert_eq!(*until, now - offset - interval * i as u64);
            assert_eq!(*from, now - offset - interval * (i as u64 + 1));
        }
        let span = offset + count as u64 * interval;
        assert!(range.buckets(span).is_some());
        assert_eq!(range.buckets(span).unwrap().last().unwrap().0, 0);
        assert!(range.buckets(span - 1).is_none());
    }
    assert_eq!(
        DeviceRecordsTimestampRange::Today.buckets(86_400).unwrap()[23],
        (0, 3_600)
    );
}

#[test]
fn views_of_a_user() {
    let user = User {
        id: 42,
        email: "ann@example.org".to_string(),
        password_hash: "hash".to_string(),
        username: "ann".to_string(),
        created_at: 1700000000,
        locale: UserLocale::Ru,
        theme: UserTheme::Dark,
    };
    let me = UserMe::from_user(&user, 3);
    assert_eq!((me.id, me.greenhouses, me.created_at), (42, 3, 1700000000));
    assert_eq!(me.email, "ann@example.org");
    assert_eq!((me.locale, me.theme), (UserLocale::Ru, UserTheme::Dark));
    let public = UserPublic::from_me(&me);
    assert_eq!((public.id, public.greenhouses, public.created_at), (42, 3, 1700000000));
    assert_eq!(public.username, "ann");
}
