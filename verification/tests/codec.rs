use garthen::eetf::EetfError;
use garthen::messages::{AmqpPayload, DispatchEvent, Method, Opcode, WebSocketMessage};
use garthen::model::{
    DeviceKind, DeviceRecordsAverage, DeviceRecordsTimestampRange, DeviceStatus, UserTheme,
};
use garthen::numbers::F64Bits;
use garthen::payload::WebSocketMessageData;
use garthen::wire::{Field, Term};

fn bits(value: f64) -> F64Bits {
    F64Bits::new(value.to_bits())
}

fn s(text: &str) -> String {
    text.to_string()
}

fn bodies() -> Vec<WebSocketMessageData> {
    vec![
        WebSocketMessageData::RequestPatchUser {
            email: s("ann@example.org"),
            username: s("ann"),
            locale: s("en-GB"),
            theme: UserTheme::Dark,
            new_password: None,
            current_password: Some(s("correct horse")),
        },
        WebSocketMessageData::RequestPostGreenhouse { name: s("Tomatoes"), token: s("secret") },
        WebSocketMessageData::RequestPatchGreenhouse {
            id: 3,
            name: s("Tomatoes"),
            token: s("secret"),
            maximum_average_humidity: Some(bits(80.5)),
            minimum_average_temperature: None,
        },
        WebSocketMessageData::RequestDeleteGreenhouse { id: -3, current_password: s("correct") },
        WebSocketMessageData::RequestPatchDevice {
            id: 7,
            greenhouse_id: 3,
            name: Some(s("Air")),
            maximum_data_value: Some(bits(-0.0)),
        },
        WebSocketMessageData::RequestPatchDevicesResetNames { greenhouse_id: 3 },
        WebSocketMessageData::RequestPatchDeviceState { id: 7, greenhouse_id: 3, state: 255 },
        WebSocketMessageData::RequestPostDeviceCustomData {
            id: 7,
            greenhouse_id: 3,
            data: bits(21.25),
            time: u64::MAX,
        },
        WebSocketMessageData::RequestPostDeviceRequestData { id: None, greenhouse_id: 3 },
        WebSocketMessageData::RequestPostDeviceRequestData { id: Some(7), greenhouse_id: 3 },
        WebSocketMessageData::RequestPostDeviceDisable { id: 7, greenhouse_id: 3 },
        WebSocketMessageData::RequestPostDeviceEnable { id: 7, greenhouse_id: 3 },
        WebSocketMessageData::Authorize { token: s("T") },
        WebSocketMessageData::SubscribeToUserUpdate { id: i64::MIN },
        WebSocketMessageData::SubscribeToUserMeUpdates {},
        WebSocketMessageData::SubscribeToGreenhouseUpdate { id: i64::MAX },
        WebSocketMessageData::SubscribeToDeviceUpdate { id: 7, greenhouse_id: 3 },
        WebSocketMessageData::SubscribeToDevicesUpdate { greenhouse_id: 3 },
        WebSocketMessageData::SubscribeToDeviceRecordsUpdate { device_id: 7, greenhouse_id: 3 },
        WebSocketMessageData::SubscribeToDeviceRecordsAverageUpdate {
            device_id: 7,
            greenhouse_id: 3,
            range: DeviceRecordsTimestampRange::MonthBeforeLast,
        },
        WebSocketMessageData::DispatchUserUpdate {
            id: 42,
            username: s("ann"),
            created_at: 1700000000,
            greenhouses: 2,
        },
        WebSocketMessageData::DispatchUserMeUpdate {
            id: 42,
            email: s("ann@example.org"),
            username: s("ann"),
            created_at: 1700000000,
            locale: s("ru-RU"),
            theme: UserTheme::Light,
            greenhouses: 2,
        },
        WebSocketMessageData::DispatchGreenhouseMineUpdate {
            id: 3,
            name: s("Tomatoes"),
            token: s("secret"),
            owner_id: 42,
            created_at: 1700000000,
            maximum_average_humidity: Some(bits(80.0)),
            minimum_average_temperature: Some(bits(21.0)),
        },
        WebSocketMessageData::DispatchGreenhouseMineDelete { id: 3 },
        WebSocketMessageData::DispatchDeviceUpdate {
            id: 7,
            external_id: Some(-2),
            name: None,
            status: DeviceStatus::Disabled,
            kind: DeviceKind::WindowsController,
            greenhouse_id: 3,
            created_at: 1700000000,
            maximum_data_value: None,
            latest_data: Some(bits(f64::INFINITY)),
        },
        WebSocketMessageData::DispatchDeviceRecordsUpdate { device_id: 7, quantity: 12 },
        WebSocketMessageData::DispatchDeviceRecordsAverageUpdate {
            device_id: 7,
            range: DeviceRecordsTimestampRange::Week,
            records: vec![
                DeviceRecordsAverage { data: Some(bits(20.5)), range: (100, 200) },
                DeviceRecordsAverage { data: None, range: (0, 100) },
            ],
        },
        WebSocketMessageData::DispatchDeviceRecordsAverageUpdate {
            device_id: 7,
            range: DeviceRecordsTimestampRange::Today,
            records: vec![],
        },
        WebSocketMessageData::Response { code: 200, message: s("Successfully authorized") },
        WebSocketMessageData::Empty,
    ]
}

fn same_message(a: &WebSocketMessage, b: &WebSocketMessage) -> bool {
    a.id == b.id
        && a.connection_id == b.connection_id
        && a.opcode == b.opcode
        && a.event == b.event
        && a.method == b.method
        && a.request == b.request
        && format!("{:?}", a.data) == format!("{:?}", b.data)
}

#[test]
fn every_body_comes_back_as_it_was_sent() {
    let opcodes = [
        Opcode::Dispatch,
        Opcode::HeartBeat,
        Opcode::Request,
        Opcode::Response,
        Opcode::Error,
        Opcode::Authorize,
        Opcode::Subscribe,
    ];
    for (i, data) in bodies().into_iter().enumerate() {
        let message = WebSocketMessage {
            id: i as i64 - 5,
            connection_id: 0,
            opcode: opcodes[i % 7],
            event: None,
            method: [None, Some(Method::Get), Some(Method::Post), Some(Method::Patch)][i % 4],
            request: if i % 2 == 0 { Some(s("device/state")) } else { None },
            data,
        };
        let back = WebSocketMessage::from_term(&message.to_term()).expect("decodes");
        assert!(same_message(&message, &back), "{:?} became {:?}", message, back);
    }
}

#[test]
fn what_is_never_written_comes_back_at_its_default() {
    let events = [
        (DispatchEvent::UserUpdate { id: 5 }, DispatchEvent::UserUpdate { id: 0 }),
        (DispatchEvent::UserMeUpdate { id: 5 }, DispatchEvent::UserMeUpdate { id: 0 }),
        (DispatchEvent::GreenhouseUpdate { id: 5 }, DispatchEvent::GreenhouseUpdate { id: 0 }),
        (
            DispatchEvent::GreenhouseCreate { id: Some(5), owner_id: 42 },
            DispatchEvent::GreenhouseCreate { id: None, owner_id: 0 },
        ),
        (
            DispatchEvent::GreenhouseDelete { id: None, owner_id: 42 },
            DispatchEvent::GreenhouseDelete { id: None, owner_id: 0 },
        ),
        (DispatchEvent::DeviceUpdate { id: 7 }, DispatchEvent::DeviceUpdate { id: 0 }),
        (
            DispatchEvent::DeviceRecordsUpdate { device_id: 7 },
            DispatchEvent::DeviceRecordsUpdate { device_id: 0 },
        ),
        (
            DispatchEvent::DeviceRecordsAverageUpdate {
                device_id: 7,
                range: DeviceRecordsTimestampRange::Week,
            },
            DispatchEvent::DeviceRecordsAverageUpdate {
                device_id: 0,
                range: DeviceRecordsTimestampRange::Today,
            },
        ),
    ];
    for (event, bare) in events {
        let message = WebSocketMessage::dispatch(
            1,
            10,
            event,
            WebSocketMessageData::DispatchDeviceRecordsUpdate { device_id: 7, quantity: 1 },
        );
        let back = WebSocketMessage::from_term(&message.to_term()).unwrap();
        assert_eq!(back.connection_id, 0);
        assert_eq!(back.event, Some(bare));
        assert_eq!(back.id, 1);
        assert_eq!(back.opcode, Opcode::Dispatch);
        let again = WebSocketMessage::from_term(&back.to_term()).unwrap();
        assert!(same_message(&back, &again));
    }
}

#[test]
fn shape_of_an_envelope_on_the_wire() {
    let mut message = WebSocketMessage::reply(9, 10, 200, "ok");
    message.method = Some(Method::Delete);
    message.request = Some(s("greenhouse"));
    message.event = Some(DispatchEvent::DeviceUpdate { id: 7 });
    match message.to_term() {
        Term::Record(entries) => {
            let keys: Vec<Field> = entries.iter().map(|(key, _)| *key).collect();
            assert_eq!(
                keys,
                vec![
                    Field::Ident,
                    Field::Opcode,
                    Field::Event,
                    Field::Method,
                    Field::Request,
                    Field::Body
                ]
            );
            assert!(matches!(entries[0].1, Term::Int(9)));
            assert!(matches!(entries[1].1, Term::Int(3)));
            match &entries[2].1 {
                Term::Record(event) => {
                    assert_eq!(event.len(), 1);
                    assert_eq!(event[0].0, Field::EventName);
                    assert!(matches!(&event[0].1, Term::Text(name) if name == "device_update"));
                }
                other => panic!("unexpected event {:?}", other),
            }
            assert!(matches!(&entries[3].1, Term::Text(word) if word == "delete"));
            assert!(matches!(&entries[4].1, Term::Text(path) if path == "greenhouse"));
            match &entries[5].1 {
                Term::Record(body) => {
                    assert_eq!(body.len(), 3);
                    assert!(matches!(&body[0], (Field::Action, Term::Text(a)) if a == "response"));
                    assert!(matches!(&body[1], (Field::Code, Term::Int(200))));
                    assert!(matches!(&body[2], (Field::Message, Term::Text(m)) if m == "ok"));
                }
                other => panic!("unexpected body {:?}", other),
            }
        }
        other => panic!("unexpected term {:?}", other),
    }
    let bare = WebSocketMessage {
        id: 1,
        connection_id: 10,
        opcode: Opcode::HeartBeat,
        event: None,
        method: None,
        request: None,
        data: WebSocketMessageData::Empty,
    };
    match bare.to_term() {
        Term::Record(entries) => {
            assert_eq!(entries.len(), 2);
            assert!(matches!(entries[1], (Field::Opcode, Term::Int(1))));
        }
        other => panic!("unexpected term {:?}", other),
    }
    assert_eq!(Field::Ident.name(), "i");
    assert_eq!(Field::Opcode.name(), "o");
    assert_eq!(Field::Event.name(), "e");
    assert_eq!(Field::Method.name(), "m");
    assert_eq!(Field::Request.name(), "r");
    assert_eq!(Field::Body.name(), "d");
    assert_eq!(Field::Action.name(), "a");
    assert_eq!(Field::EventName.name(), "n");
    assert_eq!(Field::parse("maximum_average_humidity"), Some(Field::MaximumAverageHumidity));
    assert_eq!(Field::parse("id"), Some(Field::Id));
    assert_eq!(Field::parse("unknown"), None);
}

fn envelope(entries: Vec<(Field, Term)>) -> Option<WebSocketMessage> {
    WebSocketMessage::from_term(&Term::Record(entries))
}

fn text(value: &str) -> Term {
    Term::Text(value.to_string())
}

#[test]
fn reading_is_lenient_where_the_wire_is() {
    let message = envelope(vec![
        (Field::Body, Term::Record(vec![
            (Field::Token, text("T")),
            (Field::Action, text("authorize")),
            (Field::Code, Term::Int(1)),
        ])),
        (Field::Request, Term::Nil),
        (Field::Method, Term::Nil),
        (Field::Event, Term::Nil),
        (Field::Opcode, Term::Number { value: 5, float: bits(5.0) }),
        (Field::Ident, Term::Int(1)),
    ])
    .unwrap();
    assert_eq!(message.opcode, Opcode::Authorize);
    assert_eq!((message.event, message.method, message.request.clone()), (None, None, None));
    assert!(matches!(&message.data, WebSocketMessageData::Authorize { token } if token == "T"));

    let whole = envelope(vec![
        (Field::Ident, Term::Int(1)),
        (Field::Opcode, Term::Int(2)),
        (Field::Body, Term::Record(vec![
            (Field::Action, text("request_patch_device")),
            (Field::Id, Term::Number { value: 7, float: bits(7.0) }),
            (Field::GreenhouseId, Term::Int(3)),
            (Field::MaximumDataValue, Term::Number { value: 50, float: bits(50.0) }),
        ])),
    ])
    .unwrap();
    match whole.data {
        WebSocketMessageData::RequestPatchDevice { id, name, maximum_data_value, .. } => {
            assert_eq!(id, 7);
            assert_eq!(name, None);
            assert_eq!(maximum_data_value, Some(bits(50.0)));
        }
        other => panic!("unexpected body {:?}", other),
    }
    let none = envelope(vec![
        (Field::Ident, Term::Int(1)),
        (Field::Opcode, Term::Int(1)),
        (Field::Body, Term::Record(vec![(Field::Action, text("none"))])),
    ])
    .unwrap();
    assert!(none.data.is_none());
    let long = envelope(vec![(Field::Id, Term::Int(8)), (Field::Opcode, Term::Int(1))]).unwrap();
    assert_eq!(long.id, 8);
    let both = envelope(vec![
        (Field::Id, Term::Int(8)),
        (Field::Ident, Term::Int(9)),
        (Field::Opcode, Term::Int(1)),
    ])
    .unwrap();
    assert_eq!(both.id, 9);
    assert!(envelope(vec![
        (Field::Id, Term::Int(8)),
        (Field::Ident, Term::Nil),
        (Field::Opcode, Term::Int(1)),
    ])
    .is_none());
}

#[test]
fn what_does_not_fit_is_not_read() {
    let id = || (Field::Ident, Term::Int(1));
    let opcode = || (Field::Opcode, Term::Int(5));
    assert!(envelope(vec![id(), opcode()]).is_some());
    assert!(envelope(vec![opcode()]).is_none());
    assert!(envelope(vec![id()]).is_none());
    assert!(envelope(vec![id(), (Field::Opcode, Term::Int(7))]).is_none());
    assert!(envelope(vec![id(), (Field::Opcode, Term::Int(-1))]).is_none());
    assert!(envelope(vec![id(), (Field::Opcode, text("5"))]).is_none());
    assert!(envelope(vec![(Field::Ident, Term::Int(1 << 63)), opcode()]).is_none());
    assert!(envelope(vec![(Field::Ident, Term::Float(bits(1.0))), opcode()]).is_none());
    assert!(envelope(vec![id(), opcode(), (Field::Method, text("put"))]).is_none());
    assert!(envelope(vec![id(), opcode(), (Field::Method, Term::Int(1))]).is_none());
    assert!(envelope(vec![id(), opcode(), (Field::Request, Term::Int(1))]).is_none());
    assert!(envelope(vec![id(), opcode(), (Field::Event, text("user_update"))]).is_none());
    let event = |name: &str| (Field::Event, Term::Record(vec![(Field::EventName, text(name))]));
    assert!(envelope(vec![id(), opcode(), event("user_update")]).is_some());
    assert!(envelope(vec![id(), opcode(), event("user_updated")]).is_none());
    assert!(envelope(vec![id(), opcode(), (Field::Body, Term::Nil)]).is_none());
    let body = |entries: Vec<(Field, Term)>| (Field::Body, Term::Record(entries));
    assert!(envelope(vec![id(), opcode(), body(vec![])]).is_none());
    assert!(envelope(vec![id(), opcode(), body(vec![(Field::Action, text("authorise"))])]).is_none());
    assert!(envelope(vec![id(), opcode(), body(vec![(Field::Action, text("authorize"))])]).is_none());
    assert!(envelope(vec![
        id(),
        opcode(),
        body(vec![(Field::Action, text("authorize")), (Field::Token, Term::Nil)])
    ])
    .is_none());
    assert!(envelope(vec![
        id(),
        opcode(),
        body(vec![
            (Field::Action, text("request_patch_device_state")),
            (Field::Id, Term::Int(1)),
            (Field::GreenhouseId, Term::Int(1)),
            (Field::State, Term::Int(256)),
        ])
    ])
    .is_none());
    assert!(envelope(vec![
        id(),
        opcode(),
        body(vec![
            (Field::Action, text("request_post_device_custom_data")),
            (Field::Id, Term::Int(1)),
            (Field::GreenhouseId, Term::Int(1)),
            (Field::Data, Term::Int(20)),
            (Field::Time, Term::Int(1)),
        ])
    ])
    .is_none());
    assert!(WebSocketMessage::from_term(&Term::List(vec![])).is_none());
    assert!(WebSocketMessage::from_term(&Term::Nil).is_none());
}

#[test]
fn bus_payloads_come_back_as_they_were_sent() {
    let payloads = [
        AmqpPayload::DispatchData { device_id: 7 },
        AmqpPayload::RequestData { device_id: None, greenhouse_id: None },
        AmqpPayload::RequestData { device_id: Some(7), greenhouse_id: Some(-3) },
        AmqpPayload::ChangeControllerState { device_id: 9, state: 1 },
        AmqpPayload::DispatchDevice { id: i64::MIN },
        AmqpPayload::Ping,
    ];
    for payload in payloads {
        assert_eq!(AmqpPayload::from_term(&payload.to_term()), Some(payload));
    }
    assert_eq!(AmqpPayload::default(), AmqpPayload::Ping);
    match (AmqpPayload::DispatchData { device_id: 7 }).to_term() {
        Term::Record(entries) => {
            assert_eq!(entries.len(), 1);
            assert_eq!(entries[0].0, Field::DispatchData);
            assert_eq!(Field::DispatchData.name(), "dispatch_data");
            match &entries[0].1 {
                Term::Record(fields) => {
                    assert!(matches!(fields[0], (Field::DeviceId, Term::Int(7))));
                }
                other => panic!("unexpected fields {:?}", other),
            }
        }
        other => panic!("unexpected term {:?}", other),
    }
    assert!(matches!(AmqpPayload::Ping.to_term(), Term::Text(word) if word == "ping"));
}

#[test]
fn unknown_bus_payloads_are_dropped() {
    assert_eq!(AmqpPayload::from_term(&text("pong")), None);
    assert_eq!(AmqpPayload::from_term(&Term::Nil), None);
    assert_eq!(AmqpPayload::from_term(&Term::Record(vec![])), None);
    let fields = || Term::Record(vec![(Field::DeviceId, Term::Int(7))]);
    assert_eq!(
        AmqpPayload::from_term(&Term::Record(vec![(Field::DispatchData, fields())])),
        Some(AmqpPayload::DispatchData { device_id: 7 })
    );
    assert_eq!(AmqpPayload::from_term(&Term::Record(vec![(Field::DispatchDevice, fields())])), None);
    assert_eq!(AmqpPayload::from_term(&Term::Record(vec![(Field::Token, fields())])), None);
    assert_eq!(
        AmqpPayload::from_term(&Term::Record(vec![
            (Field::DispatchData, fields()),
            (Field::DispatchData, fields())
        ])),
        None
    );
    assert_eq!(
        AmqpPayload::from_term(&Term::Record(vec![(Field::DispatchData, Term::Int(7))])),
        None
    );
    assert_eq!(
        AmqpPayload::from_term(&Term::Record(vec![(
            Field::ChangeControllerState,
            Term::Record(vec![(Field::DeviceId, Term::Int(7)), (Field::State, Term::Int(300))])
        )])),
        None
    );
    assert!(garthen::bridge::AmqpClient::received(None).is_none());
    assert!(garthen::bridge::AmqpClient::received(Some(&text("pong"))).is_none());
    assert_eq!(
        garthen::bridge::AmqpClient::received(Some(&text("ping"))).unwrap().payload,
        AmqpPayload::Ping
    );
}

#[test]
fn words_of_methods_and_opcodes() {
    for (method, word) in [
        (Method::Get, "get"),
        (Method::Post, "post"),
        (Method::Patch, "patch"),
        (Method::Delete, "delete"),
    ] {
        assert_eq!(method.name(), word);
        assert_eq!(Method::parse(word), Some(method));
    }
    assert_eq!(Method::parse("GET"), None);
    let opcodes = [
        Opcode::Dispatch,
        Opcode::HeartBeat,
        Opcode::Request,
        Opcode::Response,
        Opcode::Error,
        Opcode::Authorize,
        Opcode::Subscribe,
    ];
    for (number, opcode) in opcodes.iter().enumerate() {
        assert_eq!(opcode.to_number() as usize, number);
        assert_eq!(Opcode::from_number(number as u8), Some(*opcode));
    }
    assert_eq!(Opcode::from_number(7), None);
    assert_eq!(Opcode::default(), Opcode::Response);
}

#[test]
fn term_errors_describe_themselves() {
    assert_eq!(EetfError::custom("boom").message(), "boom");
    assert_eq!(EetfError::Message("boom".to_string()).message(), "boom");
    assert_eq!(EetfError::DecodeError("detail".to_string()).message(), "Decode error");
    assert_eq!(EetfError::EncodeError("detail".to_string()).message(), "detail");
    assert_eq!(EetfError::WrongTupleLength.message(), "Tuple was wrong length");
    assert_eq!(EetfError::ExpectedMap.message(), "Expected map, got something else");
    assert_eq!(
        EetfError::TypeHintsRequired.message(),
        "Type Hints are required for deserializing eetf"
    );
}
