use garthen::api::{ApiError, ApiErrorKind, ApiErrorTemplate};
use garthen::auth::{
    Auth, AuthAnswer, AuthQuery, AuthStep, CheckSessionMiddleware, LoginRequest,
    RegistrationRequest, SessionStep,
};
use garthen::bridge::{publish, AmqpClient};
use garthen::error::IoFailure;
use garthen::messages::{AmqpPayload, AmqpPublisherMessage};
use garthen::model::{Device, DeviceKind, DeviceStatus, Session, User, UserLocale, UserTheme};
use garthen::numbers::F64Bits;
use garthen::wire::Term;
use garthen::model::{Greenhouse, NewDeviceRecord};
use garthen::worker::{
    asks_through_peer, change_step, command, device_to_ask,
    get_external_devices_api_url, humidity_peer, news_of_change, records_of_air, request,
    start_change_controller_state_consumer, start_data_request_consumer,
    start_data_requesting_with_interval, ChangeStep, Command, Reading, Settings, Target,
    WorkerAnswer, WorkerError, WorkerErrorKind,
};

fn ann() -> User {
    User {
        id: 42,
        email: "ann@example.org".to_string(),
        password_hash: "hash-of-ann".to_string(),
        username: "ann".to_string(),
        created_at: 1700000000,
        locale: UserLocale::EnGb,
        theme: UserTheme::Auto,
    }
}

fn not_found() -> AuthAnswer {
    AuthAnswer::Failed(ApiErrorTemplate::NotFound(None).into_error())
}

fn credentials() -> RegistrationRequest {
    RegistrationRequest {
        email: "ann@example.org".to_string(),
        password: "correct horse".to_string(),
        username: "ann".to_string(),
    }
}

fn code(step: AuthStep) -> (u16, u32) {
    match step {
        AuthStep::Failed(error) => (error.http_code, error.json_code),
        other => panic!("unexpected step {:?}", other),
    }
}

#[test]
fn api_errors() {
    let error = ApiError::new(404, None, "Not found".to_string(), None);
    assert_eq!((error.http_code, error.json_code), (404, 0));
    assert!(matches!(error.kind, ApiErrorKind::Other(None)));
    let response = error.error_response();
    assert_eq!((response.status, response.code), (404, 0));
    assert_eq!(response.message, "Not found");
    let hidden = ApiError::from_source(ApiErrorKind::DieselError, false, "connection refused");
    assert_eq!(hidden.message, "Diesel error: connection refused");
    let response = hidden.error_response();
    assert_eq!((response.status, response.code), (500, 0));
    assert_eq!(response.message, "Internal server error");
    let odd = ApiError::new(42, Some(7), "odd".to_string(), None).error_response();
    assert_eq!((odd.status, odd.code), (500, 7));
    assert_eq!(odd.message, "Internal server error");
    let edge = ApiError::new(499, Some(7), "edge".to_string(), None).error_response();
    assert_eq!(edge.message, "edge");
    assert_eq!(ApiError::from_source(ApiErrorKind::DieselError, true, "x").http_code, 404);
    assert_eq!(
        ApiError::from_source(ApiErrorKind::Argon2Error, true, "x").message,
        "argon2 error: x"
    );
    let cases: Vec<(ApiErrorTemplate, u16, u32, &str)> = vec![
        (ApiErrorTemplate::NotFound(None), 404, 0, "Not found"),
        (ApiErrorTemplate::EmailTooLong(None), 400, 30001, "The email address is too long"),
        (ApiErrorTemplate::PasswordTooShort(None), 400, 30002, "The password is too short"),
        (ApiErrorTemplate::PasswordTooLong(None), 400, 30003, "The password is too long"),
        (ApiErrorTemplate::UsernameTooShort(None), 400, 30004, "The username is too short"),
        (ApiErrorTemplate::UsernameTooLong(None), 400, 30005, "The username is too long"),
        (ApiErrorTemplate::EmailInvalid(None), 400, 40001, "Invalid email"),
        (
            ApiErrorTemplate::UsernameInvalidOrTaken(None),
            400,
            40002,
            "The username is either invalid or taken",
        ),
    ];
    for (template, http_code, json_code, message) in cases {
        let error = template.into_error();
        assert_eq!((error.http_code, error.json_code), (http_code, json_code));
        assert_eq!(error.message, message);
    }
}

#[test]
fn register() {
    let call = |answers: &Vec<AuthAnswer>| Auth::register(&credentials(), 5, answers);
    let mut answers: Vec<AuthAnswer> = vec![];
    match call(&answers) {
        AuthStep::Ask(AuthQuery::MxRecords { domain }) => assert_eq!(domain, "example.org"),
        other => panic!("unexpected step {:?}", other),
    }
    answers.push(AuthAnswer::Count(1));
    assert!(matches!(call(&answers), AuthStep::Ask(AuthQuery::UserByUsername { .. })));
    answers.push(not_found());
    assert!(matches!(call(&answers), AuthStep::Ask(AuthQuery::UserByEmail { .. })));
    answers.push(not_found());
    match call(&answers) {
        AuthStep::Ask(AuthQuery::PasswordHash { password }) => assert_eq!(password, "correct horse"),
        other => panic!("unexpected step {:?}", other),
    }
    answers.push(AuthAnswer::Text("fresh-hash".to_string()));
    match call(&answers) {
        AuthStep::Ask(AuthQuery::UserCreate { email, password_hash, username }) => {
            assert_eq!(email, "ann@example.org");
            assert_eq!(password_hash, "fresh-hash");
            assert_eq!(username, "ann");
        }
        other => panic!("unexpected step {:?}", other),
    }
    answers.push(AuthAnswer::User(ann()));
    assert!(matches!(
        call(&answers),
        AuthStep::Ask(AuthQuery::SessionUpdateUser { session_id: 5, user_id: Some(42) })
    ));
    answers.push(AuthAnswer::Stored);
    assert!(matches!(call(&answers), AuthStep::Done));
}

#[test]
fn register_refuses() {
    let with = |email: &str, password: &str, username: &str| RegistrationRequest {
        email: email.to_string(),
        password: password.to_string(),
        username: username.to_string(),
    };
    let long = "x".repeat(513);
    assert_eq!(code(Auth::register(&with(&long, "correct horse", "ann"), 5, &vec![])), (400, 30001));
    assert_eq!(code(Auth::register(&with("a@b", "short", "ann"), 5, &vec![])), (400, 30002));
    let long = "x".repeat(129);
    assert_eq!(code(Auth::register(&with("a@b", &long, "ann"), 5, &vec![])), (400, 30003));
    assert_eq!(code(Auth::register(&with("a@b", "correct horse", "an"), 5, &vec![])), (400, 30004));
    let long = "x".repeat(33);
    assert_eq!(code(Auth::register(&with("a@b", "correct horse", &long), 5, &vec![])), (400, 30005));
    assert_eq!(code(Auth::register(&with("ab", "correct horse", "ann"), 5, &vec![])), (400, 40001));
    assert_eq!(code(Auth::register(&with("a@b@c", "correct horse", "ann"), 5, &vec![])), (400, 40001));
    let call = |answers: &Vec<AuthAnswer>| code(Auth::register(&credentials(), 5, answers));
    assert_eq!(call(&vec![AuthAnswer::Count(0)]), (400, 40001));
    let garbled = ApiError::from_source(ApiErrorKind::StdError(IoFailure::InvalidData), false, "x");
    assert_eq!(call(&vec![AuthAnswer::Failed(garbled)]), (400, 40001));
    let down = ApiError::from_source(ApiErrorKind::StdError(IoFailure::Other), false, "x");
    assert_eq!(call(&vec![AuthAnswer::Failed(down)]), (500, 0));
    assert_eq!(call(&vec![AuthAnswer::Count(1), AuthAnswer::User(ann())]), (400, 40002));
    assert_eq!(
        call(&vec![AuthAnswer::Count(1), not_found(), AuthAnswer::User(ann())]),
        (400, 40001)
    );
    let down = ApiError::from_source(ApiErrorKind::R2d2Error, false, "x");
    assert_eq!(
        call(&vec![AuthAnswer::Count(1), not_found(), AuthAnswer::Failed(down)]),
        (500, 0)
    );
    assert_eq!(call(&vec![AuthAnswer::Stored]), (500, 0));
}

#[test]
fn login_and_logout() {
    let credentials =
        LoginRequest { email: "ann@example.org".to_string(), password: "correct horse".to_string() };
    let call = |answers: &Vec<AuthAnswer>| Auth::login(&credentials, 5, answers);
    assert!(matches!(call(&vec![]), AuthStep::Ask(AuthQuery::UserByEmail { .. })));
    assert_eq!(code(call(&vec![not_found()])), (404, 0));
    match call(&vec![AuthAnswer::User(ann())]) {
        AuthStep::Ask(AuthQuery::PasswordVerify { password, password_hash }) => {
            assert_eq!(password, "correct horse");
            assert_eq!(password_hash, "hash-of-ann");
        }
        other => panic!("unexpected step {:?}", other),
    }
    assert_eq!(code(call(&vec![AuthAnswer::User(ann()), AuthAnswer::Verdict(false)])), (404, 0));
    assert!(matches!(
        call(&vec![AuthAnswer::User(ann()), AuthAnswer::Verdict(true)]),
        AuthStep::Ask(AuthQuery::SessionUpdateUser { session_id: 5, user_id: Some(42) })
    ));
    assert!(matches!(
        call(&vec![AuthAnswer::User(ann()), AuthAnswer::Verdict(true), AuthAnswer::Stored]),
        AuthStep::Done
    ));
    let short = LoginRequest { email: "a@b".to_string(), password: "short".to_string() };
    assert_eq!(code(Auth::login(&short, 5, &vec![])), (400, 30002));
    assert!(matches!(
        Auth::logout(5, &vec![]),
        AuthStep::Ask(AuthQuery::SessionUpdateUser { session_id: 5, user_id: None })
    ));
    assert!(matches!(Auth::logout(5, &vec![AuthAnswer::Stored]), AuthStep::Done));
    assert_eq!(code(Auth::logout(5, &vec![not_found()])), (404, 0));
}

#[test]
fn sessions_of_requests() {
    let session = || Session { id: 5, token: "T".to_string(), user_id: None, created_at: 0 };
    match CheckSessionMiddleware::call("T", &vec![]) {
        SessionStep::Ask(AuthQuery::SessionByToken { token }) => assert_eq!(token, "T"),
        other => panic!("unexpected step {:?}", other),
    }
    match CheckSessionMiddleware::call("T", &vec![AuthAnswer::Session(session())]) {
        SessionStep::Proceed { session, announce } => {
            assert_eq!(session.id, 5);
            assert!(!announce);
        }
        other => panic!("unexpected step {:?}", other),
    }
    assert!(matches!(
        CheckSessionMiddleware::call("", &vec![not_found()]),
        SessionStep::Ask(AuthQuery::SessionCreate)
    ));
    match CheckSessionMiddleware::call("", &vec![not_found(), AuthAnswer::Session(session())]) {
        SessionStep::Proceed { session, announce } => {
            assert_eq!(session.token, "T");
            assert!(announce);
        }
        other => panic!("unexpected step {:?}", other),
    }
    let down = || AuthAnswer::Failed(ApiError::from_source(ApiErrorKind::R2d2Error, false, "x"));
    assert!(matches!(
        CheckSessionMiddleware::call("", &vec![down()]),
        SessionStep::Failed(error) if error.http_code == 500
    ));
    assert!(matches!(
        CheckSessionMiddleware::call("", &vec![not_found(), down()]),
        SessionStep::Failed(error) if error.http_code == 500
    ));
    assert_eq!(CheckSessionMiddleware::header_name(), "x-set-session-token");
}

#[test]
fn topology_of_the_bus() {
    assert_eq!(AmqpClient::exchanges(), vec!["data", "device"]);
    let queues = AmqpClient::queues();
    assert_eq!(
        queues,
        vec!["request-data", "dispatch-data", "change-controller-state", "dispatch-device"]
    );
    let bindings = AmqpClient::bindings();
    assert_eq!(bindings.len(), 4);
    let keys: Vec<&str> = bindings.iter().map(|b| b.routing_key).collect();
    assert_eq!(
        keys,
        vec![
            "data.request",
            "data.created",
            "device.controller.state.change",
            "device.controller.state.changed"
        ]
    );
    for (binding, queue) in bindings.iter().zip(&queues) {
        assert_eq!(binding.queue, *queue);
        assert!(AmqpClient::exchanges().contains(&binding.exchange));
    }
    let consumers = AmqpClient::consumers();
    assert_eq!(consumers.len(), 2);
    assert_eq!((consumers[0].name, consumers[0].queue), ("data-dispatcher", "dispatch-data"));
    assert_eq!((consumers[1].name, consumers[1].queue), ("device-dispatcher", "dispatch-device"));
    assert_eq!(AmqpClient::start_consumer("data-dispatcher"), "global-ws-data-dispatcher");
}

#[test]
fn publications() {
    let message = AmqpPublisherMessage {
        exchange: Some("device"),
        routing_key: Some("device.controller.state.change"),
        payload: AmqpPayload::ChangeControllerState { device_id: 9, state: 1 },
    };
    let publication = publish(&message);
    assert_eq!(publication.exchange, "device");
    assert_eq!(publication.routing_key, "device.controller.state.change");
    assert_eq!(AmqpPayload::from_term(&publication.payload), Some(message.payload));
    let bare =
        AmqpClient::handle(&AmqpPublisherMessage { exchange: None, routing_key: None, payload: AmqpPayload::Ping });
    assert_eq!((bare.exchange.as_str(), bare.routing_key.as_str()), ("", ""));
    assert!(matches!(bare.payload, Term::Text(word) if word == "ping"));
}

fn device(id: i64, kind: DeviceKind, external_id: Option<i16>) -> Device {
    Device {
        id,
        external_id,
        name: None,
        status: DeviceStatus::Online,
        kind,
        greenhouse_id: 3,
        created_at: 0,
        maximum_data_value: None,
    }
}

#[test]
fn what_the_worker_asks_of_devices() {
    let air = device(1, DeviceKind::TemperatureSensor, Some(4));
    assert_eq!(request(&air), Some(Reading::TemperatureAndHumidity { external_id: 4 }));
    let unnumbered = device(1, DeviceKind::TemperatureSensor, None);
    assert_eq!(request(&unnumbered), Some(Reading::TemperatureAndHumidity { external_id: 1 }));
    let soil = device(2, DeviceKind::SoilMoistureSensor, Some(6));
    assert_eq!(request(&soil), Some(Reading::SoilMoisture { external_id: 6 }));
    assert_eq!(request(&device(2, DeviceKind::SoilMoistureSensor, None)), None);
    assert_eq!(request(&device(3, DeviceKind::HumiditySensor, Some(4))), None);
    assert_eq!(request(&device(4, DeviceKind::WindowsController, Some(4))), None);
    let mut disabled = air.clone();
    disabled.status = DeviceStatus::Disabled;
    assert_eq!(request(&disabled), None);
    let mut offline = air.clone();
    offline.status = DeviceStatus::Offline;
    assert!(request(&offline).is_some());

    let devices = vec![
        device(10, DeviceKind::HumiditySensor, Some(5)),
        device(11, DeviceKind::TemperatureSensor, Some(4)),
        device(12, DeviceKind::HumiditySensor, Some(4)),
        device(13, DeviceKind::HumiditySensor, Some(4)),
    ];
    assert_eq!(humidity_peer(&air, &devices), Some(2));
    assert_eq!(humidity_peer(&unnumbered, &devices), None);
    assert_eq!(humidity_peer(&air, &vec![]), None);
    let one = F64Bits::new(1.5f64.to_bits());
    let two = F64Bits::new(2.5f64.to_bits());
    let alone = records_of_air(1, one, two, None);
    assert_eq!(alone.len(), 1);
    assert_eq!((alone[0].device_id, alone[0].data), (1, one));
    let both = records_of_air(1, one, two, Some(12));
    assert_eq!(both.len(), 2);
    assert_eq!((both[1].device_id, both[1].data), (12, two));
    assert!(asks_through_peer(&devices[0]));
    assert!(!asks_through_peer(&air));
    assert_eq!(start_data_requesting_with_interval(), 60);
    let settings = Settings { external_devices_api_url: "http://devices".to_string() };
    assert_eq!(get_external_devices_api_url(&settings), "http://devices");
}

#[test]
fn what_the_worker_does_with_payloads() {
    let both = AmqpPayload::RequestData { device_id: Some(7), greenhouse_id: Some(3) };
    assert_eq!(start_data_request_consumer(&both), Target::Device(7));
    let house = AmqpPayload::RequestData { device_id: None, greenhouse_id: Some(3) };
    assert_eq!(start_data_request_consumer(&house), Target::Greenhouse(3));
    let nobody = AmqpPayload::RequestData { device_id: None, greenhouse_id: None };
    assert_eq!(start_data_request_consumer(&nobody), Target::Nobody);
    assert_eq!(start_data_request_consumer(&AmqpPayload::Ping), Target::Nobody);
    let change = AmqpPayload::ChangeControllerState { device_id: 9, state: 1 };
    assert_eq!(start_change_controller_state_consumer(&change), Some((9, 1)));
    assert_eq!(start_change_controller_state_consumer(&both), None);
    assert_eq!(
        command(&device(9, DeviceKind::HumidificationController, None), 1),
        Some(Command::Humidification { state: 1 })
    );
    assert_eq!(
        command(&device(9, DeviceKind::IrrigationController, None), 0),
        Some(Command::Irrigation { external_id: 1, state: 0 })
    );
    assert_eq!(
        command(&device(9, DeviceKind::IrrigationController, Some(3)), 1),
        Some(Command::Irrigation { external_id: 3, state: 1 })
    );
    assert_eq!(
        command(&device(9, DeviceKind::WindowsController, None), 1),
        Some(Command::Windows { state: 1 })
    );
    assert_eq!(command(&device(9, DeviceKind::TemperatureSensor, None), 1), None);
}

#[test]
fn worker_errors() {
    let error = WorkerError::new(404, "Not found".to_string(), None);
    assert_eq!((error.http_code, error.kind), (404, WorkerErrorKind::Other));
    assert_eq!(WorkerErrorKind::default(), WorkerErrorKind::Other);
    let missing = WorkerError::from_source(WorkerErrorKind::DieselError, true, "no rows");
    assert_eq!((missing.http_code, missing.message.as_str()), (404, "Not found"));
    let broken = WorkerError::from_source(WorkerErrorKind::DieselError, false, "no rows");
    assert_eq!((broken.http_code, broken.message.as_str()), (500, "Diesel error: no rows"));
    let cases = [
        (WorkerErrorKind::StdError(IoFailure::Other), "std error: x"),
        (WorkerErrorKind::R2d2Error, "r2d2 error: x"),
        (WorkerErrorKind::ReqwestError, "Reqwest error: x"),
        (WorkerErrorKind::SerdeJsonError, "Serde JSON error: x"),
        (WorkerErrorKind::Other, "x"),
    ];
    for (kind, message) in cases {
        let error = WorkerError::from_source(kind, true, "x");
        assert_eq!((error.http_code, error.message.as_str(), error.kind), (500, message, kind));
    }
}

fn house() -> Greenhouse {
    Greenhouse {
        id: 3,
        name: "Tomatoes".to_string(),
        token: "secret".to_string(),
        owner_id: 42,
        created_at: 0,
        maximum_average_humidity: None,
        minimum_average_temperature: None,
    }
}

#[test]
fn change_of_a_controller_step_by_step() {
    let payload = AmqpPayload::ChangeControllerState { device_id: 9, state: 1 };
    let mut came: Vec<WorkerAnswer> = vec![];
    assert_eq!(change_step(&payload, &came), ChangeStep::FindDevice { id: 9 });
    came.push(WorkerAnswer::Device(device(9, DeviceKind::IrrigationController, Some(2))));
    assert_eq!(change_step(&payload, &came), ChangeStep::FindGreenhouse { id: 3 });
    came.push(WorkerAnswer::Greenhouse(house()));
    assert_eq!(
        change_step(&payload, &came),
        ChangeStep::Tell { command: Command::Irrigation { external_id: 2, state: 1 } }
    );
    came.push(WorkerAnswer::Code(200));
    assert_eq!(
        change_step(&payload, &came),
        ChangeStep::Store {
            record: NewDeviceRecord { device_id: 9, data: F64Bits::new(1.0f64.to_bits()) }
        }
    );
    came.push(WorkerAnswer::Stored(true));
    assert_eq!(change_step(&payload, &came), ChangeStep::Publish { device_id: 9 });
    came.push(WorkerAnswer::Published);
    assert_eq!(change_step(&payload, &came), ChangeStep::Done);
    let news = news_of_change(9);
    assert_eq!(news.exchange, Some("device"));
    assert_eq!(news.routing_key, Some("device.controller.state.changed"));
    assert_eq!(news.payload, AmqpPayload::DispatchDevice { id: 9 });
}

#[test]
fn change_of_a_controller_ends_early() {
    let payload = AmqpPayload::ChangeControllerState { device_id: 9, state: 0 };
    let controller = || WorkerAnswer::Device(device(9, DeviceKind::WindowsController, None));
    assert_eq!(change_step(&AmqpPayload::Ping, &vec![]), ChangeStep::Done);
    assert_eq!(
        change_step(&AmqpPayload::DispatchDevice { id: 9 }, &vec![controller()]),
        ChangeStep::Done
    );
    assert_eq!(change_step(&payload, &vec![WorkerAnswer::Missing]), ChangeStep::Done);
    assert_eq!(change_step(&payload, &vec![controller(), WorkerAnswer::Missing]), ChangeStep::Done);
    let sensor = WorkerAnswer::Device(device(9, DeviceKind::TemperatureSensor, None));
    assert_eq!(
        change_step(&payload, &vec![sensor, WorkerAnswer::Greenhouse(house())]),
        ChangeStep::Done
    );
    let told = || vec![controller(), WorkerAnswer::Greenhouse(house())];
    assert_eq!(
        change_step(&payload, &told()),
        ChangeStep::Tell { command: Command::Windows { state: 0 } }
    );
    for answer in [
        WorkerAnswer::Code(500),
        WorkerAnswer::Code(0),
        WorkerAnswer::Code(201),
        WorkerAnswer::Missing,
        WorkerAnswer::Stored(true),
    ] {
        let mut came = told();
        came.push(answer);
        assert_eq!(change_step(&payload, &came), ChangeStep::Done);
        came.push(WorkerAnswer::Stored(true));
        assert_eq!(change_step(&payload, &came), ChangeStep::Done);
    }
    let mut came = told();
    came.push(WorkerAnswer::Code(200));
    assert_eq!(
        change_step(&payload, &came),
        ChangeStep::Store { record: NewDeviceRecord { device_id: 9, data: F64Bits::new(0) } }
    );
    came.push(WorkerAnswer::Stored(false));
    assert_eq!(change_step(&payload, &came), ChangeStep::Done);
}

#[test]
fn small_numbers_as_doubles() {
    for number in 0..=255u8 {
        assert_eq!(F64Bits::from_u8(number).bits, (number as f64).to_bits(), "{number}");
    }
}

#[test]
fn whom_to_ask_for_a_humidity_sensor() {
    let humidity = device(10, DeviceKind::HumiditySensor, Some(4));
    let beside = device(11, DeviceKind::TemperatureSensor, Some(4));
    assert_eq!(device_to_ask(humidity.clone(), Some(beside.clone())).id, 11);
    assert_eq!(device_to_ask(humidity.clone(), None).id, 10);
    assert_eq!(device_to_ask(beside.clone(), Some(humidity.clone())).id, 11);
    let soil = device(12, DeviceKind::SoilMoistureSensor, Some(4));
    assert_eq!(device_to_ask(soil, Some(beside)).id, 12);
}
