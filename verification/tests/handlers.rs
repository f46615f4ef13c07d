use garthen::connection::{Encoding, WebSocketConnection};
use garthen::error::{IoFailure, WebSocketError, WebSocketErrorKind};
use garthen::exchange::{Answer, Effect, Query, Step};
use garthen::messages::{AmqpPayload, DispatchEvent, Method, Opcode, WebSocketMessage};
use garthen::model::{
    Device, DeviceKind, DeviceRecord, DeviceStatus, Greenhouse, Session, User, UserLocale,
    UserTheme,
};
use garthen::numbers::F64Bits;
use garthen::payload::WebSocketMessageData;
use garthen::services::{device, device_record, greenhouse, user};
use garthen::templates::WebSocketErrorTemplate;
use garthen::text::domain_of;

fn connection() -> WebSocketConnection {
    WebSocketConnection {
        id: 10,
        session_id: Some(5),
        last_heartbeat_at: 0,
        encoding: Encoding::Json,
        closed: false,
    }
}

fn request(data: WebSocketMessageData) -> WebSocketMessage {
    WebSocketMessage {
        id: 77,
        connection_id: 10,
        opcode: Opcode::Request,
        event: None,
        method: None,
        request: None,
        data,
    }
}

fn session() -> Answer {
    Answer::Session(Session { id: 5, token: "T".to_string(), user_id: Some(42), created_at: 0 })
}

fn ann() -> User {
    User {
        id: 42,
        email: "ann@example.org".to_string(),
        password_hash: "hash-of-ann".to_string(),
        username: "ann".to_string(),
        created_at: 1700000000,
        locale: UserLocale::EnGb,
        theme: UserTheme::Auto,
    }
}

fn tomatoes() -> Greenhouse {
    Greenhouse {
        id: 3,
        name: "Tomatoes".to_string(),
        token: "secret".to_string(),
        owner_id: 42,
        created_at: 1700000000,
        maximum_average_humidity: Some(F64Bits::new(80.0f64.to_bits())),
        minimum_average_temperature: Some(F64Bits::new(21.0f64.to_bits())),
    }
}

fn sensor(id: i64, name: Option<&str>) -> Device {
    Device {
        id,
        external_id: Some(1),
        name: name.map(|n| n.to_string()),
        status: DeviceStatus::Online,
        kind: DeviceKind::TemperatureSensor,
        greenhouse_id: 3,
        created_at: 1700000000,
        maximum_data_value: None,
    }
}

fn controller(id: i64) -> Device {
    Device { kind: DeviceKind::WindowsController, ..sensor(id, None) }
}

fn not_found() -> Answer {
    Answer::Failed(WebSocketErrorTemplate::NotFound(None).into_error())
}

fn failed(step: Step) -> WebSocketError {
    match step {
        Step::Failed(error) => error,
        other => panic!("unexpected step {:?}", other),
    }
}

fn done(step: Step) -> Vec<Effect> {
    match step {
        Step::Done(effects) => effects,
        other => panic!("unexpected step {:?}", other),
    }
}

fn asked(step: Step) -> Query {
    match step {
        Step::Ask(query) => query,
        other => panic!("unexpected step {:?}", other),
    }
}

fn is_reply(effect: &Effect, text: &str) -> bool {
    match effect {
        Effect::Send(envelope) => {
            envelope.id == 77
                && envelope.connection_id == 10
                && envelope.opcode == Opcode::Response
                && matches!(&envelope.data, WebSocketMessageData::Response { code: 200, message } if message == text)
        }
        _ => false,
    }
}

fn is_broadcast(effect: &Effect, event: DispatchEvent) -> bool {
    matches!(effect, Effect::Dispatch(message) if message.event == event && message.new_subscribers.is_none())
}

fn is_first_delivery(effect: &Effect, event: DispatchEvent) -> bool {
    matches!(effect, Effect::Dispatch(message) if message.event == event && message.new_subscribers == Some(vec![10]))
}

#[test]
fn subscribe_to_a_user_needs_no_lookup() {
    let message = request(WebSocketMessageData::SubscribeToUserUpdate { id: 9 });
    let effects = done(user::subscribe("user", &message, &connection(), &vec![]));
    assert_eq!(effects.len(), 1);
    assert!(is_first_delivery(&effects[0], DispatchEvent::UserUpdate { id: 9 }));
    let wrong = request(WebSocketMessageData::Empty);
    assert_eq!(failed(user::subscribe("user", &wrong, &connection(), &vec![])).json_code, 400);
    assert_eq!(failed(user::subscribe("users", &message, &connection(), &vec![])).json_code, 40001);
}

#[test]
fn subscribe_to_oneself_goes_by_the_session() {
    let message = request(WebSocketMessageData::SubscribeToUserMeUpdates {});
    let query = asked(user::subscribe("user/me", &message, &connection(), &vec![]));
    assert!(matches!(query, Query::SessionById { id: 5 }));
    let effects = done(user::subscribe("user/me", &message, &connection(), &vec![session()]));
    assert!(is_first_delivery(&effects[0], DispatchEvent::UserMeUpdate { id: 42 }));
    let nobody = Answer::Session(Session { id: 5, token: "T".into(), user_id: None, created_at: 0 });
    assert_eq!(
        failed(user::subscribe("user/me", &message, &connection(), &vec![nobody])).http_code,
        401
    );
    assert_eq!(
        failed(user::subscribe("user/me", &message, &connection(), &vec![Answer::Count(1)])).message,
        "Unexpected answer"
    );
}

#[test]
fn subscribe_to_greenhouses() {
    let message = request(WebSocketMessageData::SubscribeToGreenhouseUpdate { id: 3 });
    let query = asked(greenhouse::subscribe("greenhouse", &message, &connection(), &vec![session()]));
    assert!(matches!(query, Query::GreenhouseByIdAndOwner { id: 3, owner_id: 42 }));
    let answers = vec![session(), Answer::Greenhouse(tomatoes())];
    let effects = done(greenhouse::subscribe("greenhouse", &message, &connection(), &answers));
    assert!(is_first_delivery(&effects[0], DispatchEvent::GreenhouseUpdate { id: 3 }));
    let answers = vec![session(), not_found()];
    assert_eq!(
        failed(greenhouse::subscribe("greenhouse", &message, &connection(), &answers)).http_code,
        404
    );

    let any = request(WebSocketMessageData::Empty);
    let query = asked(greenhouse::subscribe("greenhouses/mine", &any, &connection(), &vec![session()]));
    assert!(matches!(query, Query::GreenhousesByOwner { owner_id: 42 }));
    let mut second = tomatoes();
    second.id = 4;
    let answers = vec![session(), Answer::Greenhouses(vec![tomatoes(), second])];
    let effects = done(greenhouse::subscribe("greenhouses/mine", &any, &connection(), &answers));
    assert_eq!(effects.len(), 2);
    assert!(is_first_delivery(&effects[0], DispatchEvent::GreenhouseUpdate { id: 3 }));
    assert!(is_first_delivery(&effects[1], DispatchEvent::GreenhouseUpdate { id: 4 }));

    let effects = done(greenhouse::subscribe("greenhouse-create", &any, &connection(), &vec![session()]));
    assert!(is_first_delivery(
        &effects[0],
        DispatchEvent::GreenhouseCreate { id: None, owner_id: 42 }
    ));
    let effects = done(greenhouse::subscribe("greenhouse-delete", &any, &connection(), &vec![session()]));
    assert!(is_first_delivery(
        &effects[0],
        DispatchEvent::GreenhouseDelete { id: None, owner_id: 42 }
    ));
    assert_eq!(
        failed(greenhouse::subscribe("greenhouse-update", &any, &connection(), &vec![])).json_code,
        40001
    );
}

#[test]
fn subscribe_to_devices_and_readings() {
    let owned = vec![session(), Answer::Greenhouse(tomatoes()), Answer::Device(sensor(7, None))];
    let message = request(WebSocketMessageData::SubscribeToDeviceUpdate { id: 7, greenhouse_id: 3 });
    let query = asked(device::subscribe("device", &message, &connection(), &owned[..2].to_vec_of()));
    assert!(matches!(query, Query::DeviceByIdAndGreenhouse { id: 7, greenhouse_id: 3 }));
    let effects = done(device::subscribe("device", &message, &connection(), &owned));
    assert!(is_first_delivery(&effects[0], DispatchEvent::DeviceUpdate { id: 7 }));

    let all = request(WebSocketMessageData::SubscribeToDevicesUpdate { greenhouse_id: 3 });
    let answers = vec![
        session(),
        Answer::Greenhouse(tomatoes()),
        Answer::Devices(vec![sensor(7, None), sensor(8, Some("b")), controller(9)]),
    ];
    let effects = done(device::subscribe("devices", &all, &connection(), &answers));
    assert_eq!(effects.len(), 3);
    for (effect, id) in effects.iter().zip([7, 8, 9]) {
        assert!(is_first_delivery(effect, DispatchEvent::DeviceUpdate { id }));
    }

    let count = request(WebSocketMessageData::SubscribeToDeviceRecordsUpdate {
        device_id: 7,
        greenhouse_id: 3,
    });
    let effects = done(device_record::subscribe("device_records", &count, &connection(), &owned));
    assert!(is_first_delivery(&effects[0], DispatchEvent::DeviceRecordsUpdate { device_id: 7 }));
    let range = garthen::model::DeviceRecordsTimestampRange::Week;
    let average = request(WebSocketMessageData::SubscribeToDeviceRecordsAverageUpdate {
        device_id: 7,
        greenhouse_id: 3,
        range,
    });
    let effects =
        done(device_record::subscribe("device_records/average", &average, &connection(), &owned));
    assert!(is_first_delivery(
        &effects[0],
        DispatchEvent::DeviceRecordsAverageUpdate { device_id: 7, range }
    ));
    assert_eq!(
        failed(device_record::subscribe("device_records", &average, &connection(), &owned)).json_code,
        400
    );
    assert_eq!(
        failed(device_record::subscribe("records", &count, &connection(), &owned)).json_code,
        40001
    );
}

trait ToVecOf {
    fn to_vec_of(&self) -> Vec<Answer>;
}

impl ToVecOf for [Answer] {
    fn to_vec_of(&self) -> Vec<Answer> {
        self.iter()
            .map(|answer| match answer {
                Answer::Session(s) => Answer::Session(s.clone()),
                Answer::Greenhouse(g) => Answer::Greenhouse(g.clone()),
                Answer::Device(d) => Answer::Device(d.clone()),
                Answer::User(u) => Answer::User(u.clone()),
                Answer::Count(n) => Answer::Count(*n),
                Answer::Verdict(v) => Answer::Verdict(*v),
                Answer::Time(t) => Answer::Time(*t),
                Answer::Text(t) => Answer::Text(t.clone()),
                Answer::DeviceRecord(r) => Answer::DeviceRecord(*r),
                Answer::Failed(e) => Answer::Failed(e.clone()),
                other => panic!("no copy of {:?}", other),
            })
            .collect()
    }
}

#[test]
fn create_greenhouse() {
    let message = request(WebSocketMessageData::RequestPostGreenhouse {
        name: "Peppers".to_string(),
        token: "pepper-token".to_string(),
    });
    let call = |answers: &Vec<Answer>| {
        greenhouse::handle("greenhouse", Method::Post, &message, &connection(), answers)
    };
    assert!(matches!(asked(call(&vec![])), Query::SessionById { id: 5 }));
    match asked(call(&vec![session()])) {
        Query::GreenhouseByToken { token } => assert_eq!(token, "pepper-token"),
        other => panic!("unexpected query {:?}", other),
    }
    assert_eq!(
        failed(call(&vec![session(), Answer::Greenhouse(tomatoes())])).json_code,
        40002
    );
    let broken = Answer::Failed(WebSocketError::from_source(
        WebSocketErrorKind::DieselError,
        false,
        "gone",
    ));
    assert_eq!(failed(call(&vec![session(), broken])).http_code, 500);
    assert!(matches!(
        asked(call(&vec![session(), not_found()])),
        Query::GreenhouseCountByOwner { owner_id: 42 }
    ));
    assert_eq!(
        failed(call(&vec![session(), not_found(), Answer::Count(15)])).json_code,
        30001
    );
    match asked(call(&vec![session(), not_found(), Answer::Count(14)])) {
        Query::GreenhouseCreate { name, token, owner_id } => {
            assert_eq!((name.as_str(), token.as_str(), owner_id), ("Peppers", "pepper-token", 42));
        }
        other => panic!("unexpected query {:?}", other),
    }
    let mut created = tomatoes();
    created.id = 900;
    let effects = done(call(&vec![
        session(),
        not_found(),
        Answer::Count(14),
        Answer::Greenhouse(created),
    ]));
    assert_eq!(effects.len(), 4);
    assert!(is_reply(&effects[0], "Successfully created"));
    assert!(is_broadcast(
        &effects[1],
        DispatchEvent::GreenhouseCreate { id: Some(900), owner_id: 42 }
    ));
    assert!(is_broadcast(&effects[2], DispatchEvent::UserUpdate { id: 42 }));
    assert!(is_broadcast(&effects[3], DispatchEvent::UserMeUpdate { id: 42 }));
}

#[test]
fn create_greenhouse_checks_lengths_first() {
    let short = request(WebSocketMessageData::RequestPostGreenhouse {
        name: "ab".to_string(),
        token: "x".to_string(),
    });
    let error = failed(greenhouse::handle("greenhouse", Method::Post, &short, &connection(), &vec![]));
    assert_eq!(error.json_code, 30002);
    let token = request(WebSocketMessageData::RequestPostGreenhouse {
        name: "abc".to_string(),
        token: "x".repeat(33),
    });
    let error = failed(greenhouse::handle("greenhouse", Method::Post, &token, &connection(), &vec![]));
    assert_eq!(error.json_code, 30005);
    let wrong = request(WebSocketMessageData::Empty);
    for method in [Method::Post, Method::Patch, Method::Delete] {
        let error = failed(greenhouse::handle("greenhouse", method, &wrong, &connection(), &vec![]));
        assert_eq!(error.json_code, 400);
        let error = failed(greenhouse::handle("greenhouses", method, &wrong, &connection(), &vec![]));
        assert_eq!(error.json_code, 40001);
    }
    let error = failed(greenhouse::handle("greenhouse", Method::Get, &wrong, &connection(), &vec![]));
    assert_eq!(error.json_code, 405);
}

#[test]
fn patch_greenhouse() {
    let patch = |name: &str, token: &str, humidity: Option<f64>| {
        request(WebSocketMessageData::RequestPatchGreenhouse {
            id: 3,
            name: name.to_string(),
            token: token.to_string(),
            maximum_average_humidity: humidity.map(|h| F64Bits::new(h.to_bits())),
            minimum_average_temperature: Some(F64Bits::new(21.0f64.to_bits())),
        })
    };
    let owned = || vec![session(), Answer::Greenhouse(tomatoes())];
    let call = |message: &WebSocketMessage, answers: &Vec<Answer>| {
        greenhouse::handle("greenhouse", Method::Patch, message, &connection(), answers)
    };
    let same = patch("Tomatoes", "secret", Some(80.0));
    let effects = done(call(&same, &owned()));
    assert_eq!(effects.len(), 1);
    assert!(is_reply(&effects[0], "Successfully deleted"));

    let renamed = patch("Cucumbers", "secret", Some(80.0));
    match asked(call(&renamed, &owned())) {
        Query::GreenhouseUpdate { id, name, token, maximum_average_humidity, .. } => {
            assert_eq!((id, name.as_str(), token.as_str()), (3, "Cucumbers", "secret"));
            assert_eq!(maximum_average_humidity, Some(F64Bits::new(80.0f64.to_bits())));
        }
        other => panic!("unexpected query {:?}", other),
    }
    let mut answers = owned();
    answers.push(Answer::Greenhouse(tomatoes()));
    let effects = done(call(&renamed, &answers));
    assert_eq!(effects.len(), 2);
    assert!(is_broadcast(&effects[0], DispatchEvent::GreenhouseUpdate { id: 3 }));
    assert!(is_reply(&effects[1], "Successfully deleted"));

    let moved = patch("Tomatoes", "other", Some(80.0));
    assert!(matches!(asked(call(&moved, &owned())), Query::GreenhouseByToken { .. }));
    let mut answers = owned();
    answers.push(Answer::Greenhouse(tomatoes()));
    assert_eq!(failed(call(&moved, &answers)).json_code, 40002);
    let mut answers = owned();
    answers.push(not_found());
    assert!(matches!(asked(call(&moved, &answers)), Query::GreenhouseUpdate { .. }));

    let humid = patch("Tomatoes", "secret", Some(100.5));
    assert_eq!(failed(call(&humid, &owned())).json_code, 30014);
    let dry = patch("Tomatoes", "secret", Some(-100.5));
    assert_eq!(failed(call(&dry, &owned())).json_code, 30013);
    let unset = patch("Tomatoes", "secret", None);
    assert!(matches!(asked(call(&unset, &owned())), Query::GreenhouseUpdate { .. }));
    let short = patch("To", "secret", Some(80.0));
    assert_eq!(failed(call(&short, &owned())).json_code, 30002);
}

#[test]
fn delete_greenhouse() {
    let message = request(WebSocketMessageData::RequestDeleteGreenhouse {
        id: 3,
        current_password: "correct horse".to_string(),
    });
    let call = |answers: &Vec<Answer>| {
        greenhouse::handle("greenhouse", Method::Delete, &message, &connection(), answers)
    };
    assert!(matches!(asked(call(&vec![session()])), Query::UserById { id: 42 }));
    match asked(call(&vec![session(), Answer::User(ann())])) {
        Query::PasswordVerify { password, password_hash } => {
            assert_eq!(password, "correct horse");
            assert_eq!(password_hash, "hash-of-ann");
        }
        other => panic!("unexpected query {:?}", other),
    }
    let wrong = vec![session(), Answer::User(ann()), Answer::Verdict(false)];
    assert_eq!(failed(call(&wrong)).json_code, 40004);
    let right = vec![session(), Answer::User(ann()), Answer::Verdict(true)];
    assert!(matches!(
        asked(call(&right)),
        Query::GreenhouseByIdAndOwner { id: 3, owner_id: 42 }
    ));
    let mut answers = right.to_vec_of();
    answers.push(Answer::Greenhouse(tomatoes()));
    assert!(matches!(asked(call(&answers)), Query::GreenhouseDelete { id: 3 }));
    answers.push(Answer::Count(1));
    let effects = done(call(&answers));
    assert_eq!(effects.len(), 4);
    assert!(is_reply(&effects[0], "Successfully deleted"));
    assert!(is_broadcast(
        &effects[1],
        DispatchEvent::GreenhouseDelete { id: Some(3), owner_id: 42 }
    ));
    assert!(is_broadcast(&effects[2], DispatchEvent::UserUpdate { id: 42 }));
    assert!(is_broadcast(&effects[3], DispatchEvent::UserMeUpdate { id: 42 }));
    let short = request(WebSocketMessageData::RequestDeleteGreenhouse {
        id: 3,
        current_password: "short".to_string(),
    });
    let error =
        failed(greenhouse::handle("greenhouse", Method::Delete, &short, &connection(), &vec![]));
    assert_eq!(error.json_code, 30007);
}

fn owned_sensor() -> Vec<Answer> {
    vec![session(), Answer::Greenhouse(tomatoes()), Answer::Device(sensor(7, Some("Air")))]
}

fn owned_controller() -> Vec<Answer> {
    vec![session(), Answer::Greenhouse(tomatoes()), Answer::Device(controller(9))]
}

#[test]
fn patch_device() {
    let patch = |name: Option<&str>, limit: Option<f64>| {
        request(WebSocketMessageData::RequestPatchDevice {
            id: 7,
            greenhouse_id: 3,
            name: name.map(|n| n.to_string()),
            maximum_data_value: limit.map(|l| F64Bits::new(l.to_bits())),
        })
    };
    let call = |message: &WebSocketMessage, answers: &Vec<Answer>| {
        device::handle("device", Method::Patch, message, &connection(), answers)
    };
    let effects = done(call(&patch(Some("Air"), None), &owned_sensor()));
    assert_eq!(effects.len(), 1);
    assert!(is_reply(&effects[0], "Successfully updated"));
    match asked(call(&patch(Some("Wind"), Some(50.0)), &owned_sensor())) {
        Query::DeviceUpdate { id, name, maximum_data_value } => {
            assert_eq!((id, name.as_deref()), (7, Some("Wind")));
            assert_eq!(maximum_data_value, Some(F64Bits::new(50.0f64.to_bits())));
        }
        other => panic!("unexpected query {:?}", other),
    }
    let mut answers = owned_sensor();
    answers.push(Answer::Device(sensor(7, Some("Wind"))));
    let effects = done(call(&patch(Some("Wind"), None), &answers));
    assert_eq!(effects.len(), 2);
    assert!(is_broadcast(&effects[0], DispatchEvent::DeviceUpdate { id: 7 }));
    assert!(is_reply(&effects[1], "Successfully updated"));
    assert_eq!(failed(call(&patch(Some(""), None), &owned_sensor())).json_code, 30011);
    let long = "x".repeat(25);
    assert_eq!(failed(call(&patch(Some(&long), None), &owned_sensor())).json_code, 30012);
    assert_eq!(failed(call(&patch(Some("Air"), Some(101.0)), &owned_sensor())).json_code, 30014);
    assert!(matches!(
        asked(call(&patch(None, None), &owned_sensor())),
        Query::DeviceUpdate { name: None, .. }
    ));
    assert!(matches!(
        asked(call(&patch(Some("Air"), Some(f64::NAN)), &owned_sensor())),
        Query::DeviceUpdate { .. }
    ));
}

#[test]
fn patch_device_state() {
    let state = |state: u8| {
        request(WebSocketMessageData::RequestPatchDeviceState { id: 9, greenhouse_id: 3, state })
    };
    let call = |message: &WebSocketMessage, answers: &Vec<Answer>| {
        device::handle("device/state", Method::Patch, message, &connection(), answers)
    };
    assert_eq!(failed(call(&state(2), &vec![])).json_code, 40006);
    assert_eq!(failed(call(&state(1), &owned_sensor())).json_code, 40007);
    let effects = done(call(&state(1), &owned_controller()));
    assert_eq!(effects.len(), 2);
    match &effects[0] {
        Effect::Publish { exchange, routing_key, payload } => {
            assert_eq!(*exchange, "device");
            assert_eq!(*routing_key, "device.controller.state.change");
            assert_eq!(*payload, AmqpPayload::ChangeControllerState { device_id: 9, state: 1 });
        }
        other => panic!("unexpected effect {:?}", other),
    }
    assert!(is_reply(&effects[1], "Successfully requested"));
}

#[test]
fn reset_device_names() {
    let message = request(WebSocketMessageData::RequestPatchDevicesResetNames { greenhouse_id: 3 });
    let call = |answers: &Vec<Answer>| {
        device::handle("devices/reset-names", Method::Patch, &message, &connection(), answers)
    };
    let owned = || vec![session(), Answer::Greenhouse(tomatoes())];
    assert!(matches!(asked(call(&owned())), Query::DevicesByGreenhouse { greenhouse_id: 3 }));
    let mut answers = owned();
    answers.push(Answer::Devices(vec![sensor(7, None), controller(9)]));
    let effects = done(call(&answers));
    assert_eq!(effects.len(), 1);
    assert!(is_reply(&effects[0], "Successful reset"));
    let mut answers = owned();
    answers.push(Answer::Devices(vec![sensor(7, Some("a")), sensor(8, None), sensor(6, Some("c"))]));
    assert!(matches!(asked(call(&answers)), Query::DeviceNamesReset { greenhouse_id: 3 }));
    answers.push(Answer::Count(2));
    let effects = done(call(&answers));
    assert_eq!(effects.len(), 3);
    assert!(is_broadcast(&effects[0], DispatchEvent::DeviceUpdate { id: 7 }));
    assert!(is_broadcast(&effects[1], DispatchEvent::DeviceUpdate { id: 6 }));
    assert!(is_reply(&effects[2], "Successful reset"));
}

#[test]
fn post_device_custom_data() {
    let now: u64 = 1_700_000_000;
    let data = |value: f64, time: u64| {
        request(WebSocketMessageData::RequestPostDeviceCustomData {
            id: 7,
            greenhouse_id: 3,
            data: F64Bits::new(value.to_bits()),
            time,
        })
    };
    let call = |message: &WebSocketMessage, answers: &Vec<Answer>| {
        device::handle("device/custom-data", Method::Post, message, &connection(), answers)
    };
    assert_eq!(failed(call(&data(100.5, now), &vec![])).json_code, 30014);
    assert!(matches!(asked(call(&data(20.0, now), &vec![])), Query::Clock));
    let clock = || vec![Answer::Time(now)];
    assert_eq!(failed(call(&data(20.0, now + 1), &clock())).json_code, 40010);
    assert_eq!(failed(call(&data(20.0, now - 7_889_230), &clock())).json_code, 40009);
    assert!(matches!(
        asked(call(&data(20.0, now - 7_889_229), &clock())),
        Query::SessionById { id: 5 }
    ));
    assert!(matches!(asked(call(&data(20.0, now), &clock())), Query::SessionById { id: 5 }));
    let mut answers = clock();
    answers.extend(owned_controller());
    assert_eq!(failed(call(&data(20.0, now), &answers)).json_code, 40008);
    let mut answers = clock();
    answers.extend(owned_sensor());
    match asked(call(&data(20.0, now - 5), &answers)) {
        Query::DeviceRecordCreate { device_id, data, time } => {
            assert_eq!((device_id, time), (7, now - 5));
            assert_eq!(data, F64Bits::new(20.0f64.to_bits()));
        }
        other => panic!("unexpected query {:?}", other),
    }
    let record = |id: i64| {
        Answer::DeviceRecord(DeviceRecord {
            id,
            device_id: 7,
            data: F64Bits::new(20.0f64.to_bits()),
            created_at: now,
        })
    };
    answers.push(record(500));
    assert!(matches!(
        asked(call(&data(20.0, now), &answers)),
        Query::DeviceRecordLatest { device_id: 7 }
    ));
    let mut latest = answers.to_vec_of();
    latest.push(record(500));
    let effects = done(call(&data(20.0, now), &latest));
    assert_eq!(effects.len(), 3);
    assert!(is_reply(&effects[0], "Successfully created"));
    assert!(is_broadcast(&effects[1], DispatchEvent::DeviceUpdate { id: 7 }));
    assert!(is_broadcast(&effects[2], DispatchEvent::DeviceRecordsUpdate { device_id: 7 }));
    let mut older = answers.to_vec_of();
    older.push(record(501));
    let effects = done(call(&data(20.0, now), &older));
    assert_eq!(effects.len(), 2);
    assert!(is_reply(&effects[0], "Successfully created"));
    assert!(is_broadcast(&effects[1], DispatchEvent::DeviceRecordsUpdate { device_id: 7 }));
    let mut lost = answers.to_vec_of();
    lost.push(not_found());
    let effects = done(call(&data(20.0, now), &lost));
    assert_eq!(effects.len(), 2);
    assert!(is_reply(&effects[0], "Successfully created"));
    assert!(matches!(&effects[1], Effect::Fail(error) if error.http_code == 404));
}

#[test]
fn post_device_request_data() {
    let ask = |id: Option<i64>| {
        request(WebSocketMessageData::RequestPostDeviceRequestData { id, greenhouse_id: 3 })
    };
    let call = |message: &WebSocketMessage, answers: &Vec<Answer>| {
        device::handle("device/request-data", Method::Post, message, &connection(), answers)
    };
    let owned = || vec![session(), Answer::Greenhouse(tomatoes())];
    let effects = done(call(&ask(None), &owned()));
    assert_eq!(effects.len(), 2);
    match &effects[0] {
        Effect::Publish { exchange, routing_key, payload } => {
            assert_eq!((*exchange, *routing_key), ("data", "data.request"));
            assert_eq!(
                *payload,
                AmqpPayload::RequestData { device_id: None, greenhouse_id: Some(3) }
            );
        }
        other => panic!("unexpected effect {:?}", other),
    }
    assert!(is_reply(&effects[1], "Successfully requested"));
    assert!(matches!(asked(call(&ask(Some(7)), &owned())), Query::DeviceById { id: 7 }));
    let mut answers = owned();
    let mut elsewhere = sensor(7, None);
    elsewhere.greenhouse_id = 4;
    answers.push(Answer::Device(elsewhere));
    assert_eq!(failed(call(&ask(Some(7)), &answers)).json_code, 404);
    let effects = done(call(&ask(Some(7)), &owned_sensor()));
    assert!(matches!(
        &effects[0],
        Effect::Publish {
            payload: AmqpPayload::RequestData { device_id: Some(7), greenhouse_id: Some(3) },
            ..
        }
    ));
}

#[test]
fn enable_and_disable_a_device() {
    let disable = request(WebSocketMessageData::RequestPostDeviceDisable { id: 7, greenhouse_id: 3 });
    let enable = request(WebSocketMessageData::RequestPostDeviceEnable { id: 7, greenhouse_id: 3 });
    let effects =
        done(device::handle("device/enable", Method::Post, &enable, &connection(), &owned_sensor()));
    assert_eq!(effects.len(), 1);
    assert!(is_reply(&effects[0], "Successfully enabled"));
    let step = device::handle("device/disable", Method::Post, &disable, &connection(), &owned_sensor());
    assert!(matches!(
        asked(step),
        Query::DeviceStatusUpdate { id: 7, status: DeviceStatus::Disabled }
    ));
    let mut answers = owned_sensor();
    answers.push(Answer::Device(sensor(7, Some("Air"))));
    let effects =
        done(device::handle("device/disable", Method::Post, &disable, &connection(), &answers));
    assert_eq!(effects.len(), 2);
    assert!(is_broadcast(&effects[0], DispatchEvent::DeviceUpdate { id: 7 }));
    assert!(is_reply(&effects[1], "Successfully disabled"));
    let wrong = request(WebSocketMessageData::Empty);
    assert_eq!(
        failed(device::handle("device/enable", Method::Post, &wrong, &connection(), &vec![]))
            .json_code,
        400
    );
    for (path, method, code) in [
        ("device/enable", Method::Patch, 40001),
        ("device", Method::Post, 40001),
        ("device", Method::Get, 405),
        ("device", Method::Delete, 405),
    ] {
        assert_eq!(
            failed(device::handle(path, method, &wrong, &connection(), &vec![])).json_code,
            code
        );
    }
}

fn patch_user(
    email: &str,
    username: &str,
    locale: &str,
    new_password: Option<&str>,
    current_password: Option<&str>,
) -> WebSocketMessage {
    request(WebSocketMessageData::RequestPatchUser {
        email: email.to_string(),
        username: username.to_string(),
        locale: locale.to_string(),
        theme: UserTheme::Auto,
        new_password: new_password.map(|p| p.to_string()),
        current_password: current_password.map(|p| p.to_string()),
    })
}

fn known() -> Vec<Answer> {
    vec![session(), Answer::User(ann())]
}

fn handle_user(message: &WebSocketMessage, answers: &Vec<Answer>) -> Step {
    user::handle("user/me", Method::Patch, message, &connection(), answers)
}

#[test]
fn patch_user_without_a_change_stores_nothing() {
    let same = patch_user("ann@example.org", "ann", "en", None, None);
    let effects = done(handle_user(&same, &known()));
    assert_eq!(effects.len(), 1);
    assert!(is_reply(&effects[0], "Successfully updated"));
    assert_eq!(
        failed(handle_user(&patch_user("ann@example.org", "ann", "fr", None, None), &known()))
            .json_code,
        400
    );
    assert_eq!(failed(handle_user(&request(WebSocketMessageData::Empty), &known())).json_code, 400);
    assert_eq!(
        failed(user::handle("user/me", Method::Post, &same, &connection(), &known())).json_code,
        405
    );
    assert_eq!(
        failed(user::handle("user", Method::Patch, &same, &connection(), &known())).json_code,
        40001
    );
}

#[test]
fn patch_user_preferences_alone_need_no_password() {
    let russian = patch_user("ann@example.org", "ann", "ru-RU", None, None);
    assert!(matches!(
        asked(handle_user(&russian, &known())),
        Query::UserSoftUpdate { id: 42, locale: UserLocale::Ru, theme: UserTheme::Auto }
    ));
    let mut stored = ann();
    stored.locale = UserLocale::Ru;
    let mut answers = known();
    answers.push(Answer::User(stored));
    assert!(matches!(
        asked(handle_user(&russian, &answers)),
        Query::GreenhouseCountByOwner { owner_id: 42 }
    ));
    answers.push(Answer::Count(2));
    assert!(matches!(
        asked(handle_user(&russian, &answers)),
        Query::GreenhouseCountByOwner { owner_id: 42 }
    ));
    answers.push(Answer::Count(2));
    let effects = done(handle_user(&russian, &answers));
    assert_eq!(effects.len(), 2);
    assert!(is_reply(&effects[0], "Successfully updated"));
    assert!(is_broadcast(&effects[1], DispatchEvent::UserMeUpdate { id: 42 }));
    answers.pop();
    answers.push(not_found());
    let effects = done(handle_user(&russian, &answers));
    assert_eq!(effects.len(), 2);
    assert!(is_reply(&effects[0], "Successfully updated"));
    assert!(matches!(&effects[1], Effect::Fail(error) if error.http_code == 404));
}

#[test]
fn patch_user_credentials() {
    let renamed = patch_user("ann@example.org", "anna", "en-GB", None, Some("correct horse"));
    assert!(matches!(
        asked(handle_user(&renamed, &known())),
        Query::PasswordVerify { .. }
    ));
    let mut answers = known();
    answers.push(Answer::Verdict(false));
    assert_eq!(failed(handle_user(&renamed, &answers)).json_code, 40004);
    let mut answers = known();
    answers.push(Answer::Verdict(true));
    match asked(handle_user(&renamed, &answers)) {
        Query::UserByUsername { username } => assert_eq!(username, "anna"),
        other => panic!("unexpected query {:?}", other),
    }
    let mut taken = answers.to_vec_of();
    taken.push(Answer::User(ann()));
    assert_eq!(failed(handle_user(&renamed, &taken)).json_code, 40005);
    answers.push(not_found());
    match asked(handle_user(&renamed, &answers)) {
        Query::UserHardUpdate { id, email, password_hash, username, locale, theme } => {
            assert_eq!(id, 42);
            assert_eq!(email, "ann@example.org");
            assert_eq!(password_hash, "hash-of-ann");
            assert_eq!(username, "anna");
            assert_eq!((locale, theme), (UserLocale::EnGb, UserTheme::Auto));
        }
        other => panic!("unexpected query {:?}", other),
    }
    let mut stored = ann();
    stored.username = "anna".to_string();
    answers.push(Answer::User(stored));
    answers.push(Answer::Count(2));
    answers.push(Answer::Count(2));
    let effects = done(handle_user(&renamed, &answers));
    assert_eq!(effects.len(), 3);
    assert!(is_reply(&effects[0], "Successfully updated"));
    assert!(is_broadcast(&effects[1], DispatchEvent::UserMeUpdate { id: 42 }));
    assert!(is_broadcast(&effects[2], DispatchEvent::UserUpdate { id: 42 }));
}

#[test]
fn patch_user_checks_what_it_is_given() {
    let missing = patch_user("ann@example.org", "anna", "en", None, None);
    assert_eq!(failed(handle_user(&missing, &known())).json_code, 30007);
    let short = patch_user("ann@example.org", "an", "en", None, Some("correct horse"));
    assert_eq!(failed(handle_user(&short, &known())).json_code, 30009);
    let weak = patch_user("ann@example.org", "ann", "en", Some("weak"), Some("correct horse"));
    assert_eq!(failed(handle_user(&weak, &known())).json_code, 30007);
    let long = "x".repeat(513);
    let email = patch_user(&long, "ann", "en", None, Some("correct horse"));
    assert_eq!(failed(handle_user(&email, &known())).json_code, 30006);
}

#[test]
fn patch_user_email_and_password() {
    let moved = patch_user("ann@new.example", "ann", "en", Some("battery staple"), Some("correct horse"));
    let mut answers = known();
    answers.push(Answer::Verdict(true));
    match asked(handle_user(&moved, &answers)) {
        Query::MxRecords { domain } => assert_eq!(domain, "new.example"),
        other => panic!("unexpected query {:?}", other),
    }
    let mut none = answers.to_vec_of();
    none.push(Answer::Count(0));
    assert_eq!(failed(handle_user(&moved, &none)).json_code, 40003);
    let mut garbled = answers.to_vec_of();
    garbled.push(Answer::Failed(WebSocketError::from_source(
        WebSocketErrorKind::StdError(IoFailure::InvalidData),
        false,
        "bad packet",
    )));
    assert_eq!(failed(handle_user(&moved, &garbled)).json_code, 40003);
    let mut unreachable = answers.to_vec_of();
    unreachable.push(Answer::Failed(WebSocketError::from_source(
        WebSocketErrorKind::StdError(IoFailure::Other),
        false,
        "timed out",
    )));
    assert_eq!(failed(handle_user(&moved, &unreachable)).message, "std error: timed out");
    answers.push(Answer::Count(2));
    match asked(handle_user(&moved, &answers)) {
        Query::UserByEmail { email } => assert_eq!(email, "ann@new.example"),
        other => panic!("unexpected query {:?}", other),
    }
    let mut taken = answers.to_vec_of();
    taken.push(Answer::User(ann()));
    assert_eq!(failed(handle_user(&moved, &taken)).json_code, 40003);
    answers.push(not_found());
    match asked(handle_user(&moved, &answers)) {
        Query::PasswordHash { password } => assert_eq!(password, "battery staple"),
        other => panic!("unexpected query {:?}", other),
    }
    answers.push(Answer::Text("new-hash".to_string()));
    match asked(handle_user(&moved, &answers)) {
        Query::UserHardUpdate { email, password_hash, username, .. } => {
            assert_eq!(email, "ann@new.example");
            assert_eq!(password_hash, "new-hash");
            assert_eq!(username, "ann");
        }
        other => panic!("unexpected query {:?}", other),
    }
    let mut stored = ann();
    stored.email = "ann@new.example".to_string();
    stored.password_hash = "new-hash".to_string();
    answers.push(Answer::User(stored));
    answers.push(Answer::Count(2));
    answers.push(Answer::Count(2));
    let effects = done(handle_user(&moved, &answers));
    assert_eq!(effects.len(), 2);
    assert!(is_broadcast(&effects[1], DispatchEvent::UserMeUpdate { id: 42 }));
    for invalid in ["ann.new.example", "ann@new@example", ""] {
        let message = patch_user(invalid, "ann", "en", None, Some("correct horse"));
        let mut answers = known();
        answers.push(Answer::Verdict(true));
        assert_eq!(failed(handle_user(&message, &answers)).json_code, 40003, "{invalid}");
    }
}

#[test]
fn domains_of_addresses() {
    assert_eq!(domain_of("ann@example.org").as_deref(), Some("example.org"));
    assert_eq!(domain_of("ann@").as_deref(), Some(""));
    assert_eq!(domain_of("@example.org").as_deref(), Some("example.org"));
    assert_eq!(domain_of("жук@пример.рф").as_deref(), Some("пример.рф"));
    assert_eq!(domain_of("ann"), None);
    assert_eq!(domain_of(""), None);
    assert_eq!(domain_of("a@b@c"), None);
    assert_eq!(domain_of("@@"), None);
}
