use garthen::exchange::{Answer, Effect, Query, Step};
use garthen::messages::{
    AmqpPayload, AuthorizationMessage, DisconnectionMessage, DispatchAmqpMessage, DispatchEvent,
    DispatchMessage, Opcode, WebSocketMessage,
};
use garthen::model::{
    Device, DeviceKind, DeviceRecord, DeviceRecordsTimestampRange, DeviceStatus, UserPublic,
};
use garthen::numbers::F64Bits;
use garthen::payload::WebSocketMessageData;
use garthen::snowflake::init;
use garthen::socket::Socket;
use garthen::templates::WebSocketErrorTemplate;

fn authorization(connection_id: i64) -> AuthorizationMessage {
    AuthorizationMessage { id: 1, connection_id, token: "T".to_string() }
}

fn state() -> WebSocketMessageData {
    WebSocketMessageData::DispatchDeviceRecordsUpdate { device_id: 7, quantity: 3 }
}

fn recipients(deliveries: &[WebSocketMessage]) -> Vec<i64> {
    let mut ids: Vec<i64> = deliveries.iter().map(|m| m.connection_id).collect();
    ids.sort();
    ids
}

#[test]
fn authorize_inserts_with_no_subscriptions_and_replies() {
    let mut socket = Socket::new();
    let reply = socket.authorize(&AuthorizationMessage {
        id: 77,
        connection_id: 10,
        token: "T".to_string(),
    });
    assert_eq!(reply.id, 77);
    assert_eq!(reply.connection_id, 10);
    assert_eq!(reply.opcode, Opcode::Response);
    match reply.data {
        WebSocketMessageData::Response { code, message } => {
            assert_eq!(code, 200);
            assert_eq!(message, "Successfully authorized");
        }
        other => panic!("unexpected body {:?}", other),
    }
    assert!(socket.is_connected(10));
    assert!(socket.get_connection(&10).unwrap().is_empty());
}

#[test]
fn broadcast_reaches_each_subscriber_once() {
    let mut generator = init(0, 0);
    let mut socket = Socket::new();
    socket.authorize(&authorization(10));
    socket.authorize(&authorization(11));
    socket.authorize(&authorization(12));
    let event = DispatchEvent::DeviceRecordsUpdate { device_id: 7 };
    let first = socket.deliver(&DispatchMessage::to_one(event, 10), &state(), &mut generator);
    assert_eq!(first.len(), 1);
    assert_eq!(first[0].connection_id, 10);
    assert_eq!(first[0].opcode, Opcode::Dispatch);
    assert_eq!(first[0].event, Some(event));
    socket.deliver(&DispatchMessage::to_one(event, 11), &state(), &mut generator);
    let all = socket.deliver(&DispatchMessage::to_all(event), &state(), &mut generator);
    assert_eq!(recipients(&all), vec![10, 11]);
    for envelope in &all {
        assert_eq!(envelope.opcode, Opcode::Dispatch);
        assert_eq!(envelope.event, Some(event));
        assert!(matches!(
            envelope.data,
            WebSocketMessageData::DispatchDeviceRecordsUpdate { device_id: 7, quantity: 3 }
        ));
    }
}

#[test]
fn broadcast_of_another_event_reaches_nobody() {
    let mut generator = init(0, 0);
    let mut socket = Socket::new();
    socket.authorize(&authorization(10));
    let event = DispatchEvent::DeviceRecordsUpdate { device_id: 7 };
    socket.deliver(&DispatchMessage::to_one(event, 10), &state(), &mut generator);
    let other = DispatchEvent::DeviceRecordsUpdate { device_id: 8 };
    assert!(socket.deliver(&DispatchMessage::to_all(other), &state(), &mut generator).is_empty());
    let other = DispatchEvent::DeviceUpdate { id: 7 };
    assert!(socket.deliver(&DispatchMessage::to_all(other), &state(), &mut generator).is_empty());
}

#[test]
fn subscribing_twice_files_the_connection_once() {
    let mut generator = init(0, 0);
    let mut socket = Socket::new();
    socket.authorize(&authorization(10));
    let event = DispatchEvent::UserUpdate { id: 5 };
    let first = socket.deliver(&DispatchMessage::to_one(event, 10), &state(), &mut generator);
    let second = socket.deliver(&DispatchMessage::to_one(event, 10), &state(), &mut generator);
    assert_eq!(first.len(), 1);
    assert_eq!(second.len(), 1);
    assert_eq!(socket.subscribers(&event), vec![10]);
    assert_eq!(socket.get_connection(&10).unwrap().len(), 1);
    let all = socket.deliver(&DispatchMessage::to_all(event), &state(), &mut generator);
    assert_eq!(recipients(&all), vec![10]);
}

#[test]
fn empty_state_subscribes_but_delivers_nothing() {
    let mut generator = init(0, 0);
    let mut socket = Socket::new();
    socket.authorize(&authorization(10));
    let event = DispatchEvent::GreenhouseCreate { id: None, owner_id: 42 };
    let first = socket.deliver(
        &DispatchMessage::to_one(event, 10),
        &WebSocketMessageData::Empty,
        &mut generator,
    );
    assert!(first.is_empty());
    assert!(socket.is_subscribed(10, &event));
    let all = socket.deliver(
        &DispatchMessage::to_all(event),
        &WebSocketMessageData::Empty,
        &mut generator,
    );
    assert!(all.is_empty());
}

#[test]
fn unknown_connection_cannot_subscribe() {
    let mut generator = init(0, 0);
    let mut socket = Socket::new();
    let event = DispatchEvent::UserUpdate { id: 5 };
    let first = socket.deliver(&DispatchMessage::to_one(event, 99), &state(), &mut generator);
    assert!(first.is_empty());
    assert!(!socket.has_entry(&event));
    assert!(socket.subscribers(&event).is_empty());
}

#[test]
fn first_delivery_goes_to_connected_newcomers_only() {
    let mut generator = init(0, 0);
    let mut socket = Socket::new();
    socket.authorize(&authorization(10));
    socket.authorize(&authorization(12));
    let event = DispatchEvent::UserUpdate { id: 5 };
    let message = DispatchMessage { event, new_subscribers: Some(vec![10, 11, 12, 10]) };
    let first = socket.deliver(&message, &state(), &mut generator);
    let ids: Vec<i64> = first.iter().map(|m| m.connection_id).collect();
    assert_eq!(ids, vec![10, 12, 10]);
    let mut filed = socket.subscribers(&event);
    filed.sort();
    assert_eq!(filed, vec![10, 12]);
}

#[test]
fn empty_list_of_newcomers_is_a_broadcast() {
    let mut generator = init(0, 0);
    let mut socket = Socket::new();
    socket.authorize(&authorization(10));
    let event = DispatchEvent::UserUpdate { id: 5 };
    socket.deliver(&DispatchMessage::to_one(event, 10), &state(), &mut generator);
    let message = DispatchMessage { event, new_subscribers: Some(vec![]) };
    let all = socket.deliver(&message, &state(), &mut generator);
    assert_eq!(recipients(&all), vec![10]);
}

#[test]
fn disconnect_removes_subscriptions_and_empty_entries() {
    let mut generator = init(0, 0);
    let mut socket = Socket::new();
    socket.authorize(&authorization(10));
    socket.authorize(&authorization(11));
    let alone = DispatchEvent::UserUpdate { id: 5 };
    let shared = DispatchEvent::DeviceUpdate { id: 7 };
    socket.deliver(&DispatchMessage::to_one(alone, 10), &state(), &mut generator);
    socket.deliver(&DispatchMessage::to_one(shared, 10), &state(), &mut generator);
    socket.deliver(&DispatchMessage::to_one(shared, 11), &state(), &mut generator);
    assert!(socket.has_entry(&alone));
    assert!(socket.disconnect(&DisconnectionMessage { connection_id: 10 }).is_ok());
    assert!(!socket.has_entry(&alone));
    assert!(socket.has_entry(&shared));
    assert!(!socket.is_connected(10));
    assert!(!socket.is_subscribed(10, &shared));
    assert!(socket.deliver(&DispatchMessage::to_all(alone), &state(), &mut generator).is_empty());
    let all = socket.deliver(&DispatchMessage::to_all(shared), &state(), &mut generator);
    assert_eq!(recipients(&all), vec![11]);
}

#[test]
fn second_disconnect_is_an_error_that_changes_nothing() {
    let mut socket = Socket::new();
    socket.authorize(&authorization(10));
    socket.authorize(&authorization(11));
    assert!(socket.disconnect(&DisconnectionMessage { connection_id: 10 }).is_ok());
    let again = socket.disconnect(&DisconnectionMessage { connection_id: 10 }).unwrap_err();
    assert_eq!(again.http_code, 500);
    assert_eq!(again.json_code, 500);
    assert_eq!(again.message, "Couldn't find a connection");
    assert_eq!(again.get_safe_message(), "Internal server error");
    assert!(socket.is_connected(11));
}

#[test]
fn authorizing_again_clears_the_subscriptions() {
    let mut generator = init(0, 0);
    let mut socket = Socket::new();
    socket.authorize(&authorization(10));
    let event = DispatchEvent::UserUpdate { id: 5 };
    socket.deliver(&DispatchMessage::to_one(event, 10), &state(), &mut generator);
    socket.authorize(&authorization(10));
    assert!(socket.is_connected(10));
    assert!(!socket.is_subscribed(10, &event));
    assert!(!socket.has_entry(&event));
}

#[test]
fn creation_is_filed_under_the_key_without_id() {
    let mut generator = init(0, 0);
    let mut socket = Socket::new();
    socket.authorize(&authorization(10));
    let subscribed = DispatchEvent::GreenhouseCreate { id: None, owner_id: 42 };
    socket.deliver(
        &DispatchMessage::to_one(subscribed, 10),
        &WebSocketMessageData::Empty,
        &mut generator,
    );
    let created = DispatchEvent::GreenhouseCreate { id: Some(900), owner_id: 42 };
    assert_eq!(created.normalized(), subscribed);
    assert!(subscribed.is_stable());
    assert!(!created.is_stable());
    let body = WebSocketMessageData::DispatchGreenhouseMineDelete { id: 900 };
    let all = socket.deliver(&DispatchMessage::to_all(created), &body, &mut generator);
    assert_eq!(recipients(&all), vec![10]);
    assert_eq!(all[0].event, Some(subscribed));
    assert!(socket.has_entry(&created));
    assert_eq!(socket.get_connection(&10).unwrap().clone(), vec![subscribed]);
    let other_owner = DispatchEvent::GreenhouseCreate { id: Some(900), owner_id: 43 };
    assert!(socket.deliver(&DispatchMessage::to_all(other_owner), &body, &mut generator).is_empty());
    let deletion = DispatchEvent::GreenhouseDelete { id: Some(900), owner_id: 42 };
    assert!(socket.deliver(&DispatchMessage::to_all(deletion), &body, &mut generator).is_empty());
}

#[test]
fn route_finds_connected_recipients_only() {
    let mut socket = Socket::new();
    socket.authorize(&authorization(10));
    let routed = socket.route(WebSocketMessage::reply(3, 10, 200, "ok")).unwrap();
    assert_eq!(routed.connection_id, 10);
    assert_eq!(routed.id, 3);
    let lost = socket.route(WebSocketMessage::reply(3, 11, 200, "ok")).unwrap_err();
    assert_eq!(lost.http_code, 500);
    assert_eq!(lost.message, "Couldn't find a connection");
    assert_eq!(socket.get_connection(&11).unwrap_err().message, "Couldn't find a connection");
}

#[test]
fn events_of_different_families_and_ranges_do_not_mix() {
    let mut generator = init(0, 0);
    let mut socket = Socket::new();
    socket.authorize(&authorization(10));
    let events = vec![
        DispatchEvent::UserUpdate { id: -1 },
        DispatchEvent::UserMeUpdate { id: -1 },
        DispatchEvent::GreenhouseUpdate { id: -1 },
        DispatchEvent::GreenhouseCreate { id: None, owner_id: -1 },
        DispatchEvent::GreenhouseDelete { id: None, owner_id: -1 },
        DispatchEvent::DeviceUpdate { id: -1 },
        DispatchEvent::DeviceRecordsUpdate { device_id: -1 },
        DispatchEvent::DeviceRecordsAverageUpdate {
            device_id: -1,
            range: DeviceRecordsTimestampRange::Today,
        },
        DispatchEvent::DeviceRecordsAverageUpdate {
            device_id: -1,
            range: DeviceRecordsTimestampRange::LastThreeMoths,
        },
        DispatchEvent::UserUpdate { id: i64::MAX },
        DispatchEvent::UserUpdate { id: i64::MIN },
    ];
    for (i, event) in events.iter().enumerate() {
        for other in &events[..i] {
            assert!(!socket.is_subscribed(10, event), "{:?} after {:?}", event, other);
        }
        socket.deliver(&DispatchMessage::to_one(*event, 10), &state(), &mut generator);
        assert!(socket.is_subscribed(10, event));
        assert_eq!(socket.subscribers(event), vec![10]);
    }
    assert_eq!(socket.get_connection(&10).unwrap().len(), events.len());
}

fn device(id: i64) -> Device {
    Device {
        id,
        external_id: Some(2),
        name: Some("Sensor".to_string()),
        status: DeviceStatus::Online,
        kind: DeviceKind::TemperatureSensor,
        greenhouse_id: 3,
        created_at: 1700000000,
        maximum_data_value: None,
    }
}

#[test]
fn dispatch_to_nobody_looks_nothing_up() {
    let mut generator = init(0, 0);
    let mut socket = Socket::new();
    socket.authorize(&authorization(10));
    let message = DispatchMessage::to_all(DispatchEvent::DeviceUpdate { id: 7 });
    match socket.dispatch(&message, &vec![], &mut generator) {
        Step::Done(effects) => assert!(effects.is_empty()),
        other => panic!("unexpected step {:?}", other),
    }
}

#[test]
fn dispatch_resolves_a_device_with_its_latest_reading() {
    let mut generator = init(0, 0);
    let mut socket = Socket::new();
    socket.authorize(&authorization(10));
    let message = DispatchMessage::to_one(DispatchEvent::DeviceUpdate { id: 7 }, 10);
    let mut answers: Vec<Answer> = vec![];
    match socket.dispatch(&message, &answers, &mut generator) {
        Step::Ask(Query::DeviceById { id }) => assert_eq!(id, 7),
        other => panic!("unexpected step {:?}", other),
    }
    assert!(!socket.is_subscribed(10, &message.event));
    answers.push(Answer::Device(device(7)));
    match socket.dispatch(&message, &answers, &mut generator) {
        Step::Ask(Query::DeviceRecordLatest { device_id }) => assert_eq!(device_id, 7),
        other => panic!("unexpected step {:?}", other),
    }
    let reading = F64Bits::new(21.5f64.to_bits());
    answers.push(Answer::DeviceRecord(DeviceRecord {
        id: 1,
        device_id: 7,
        data: reading,
        created_at: 1700000001,
    }));
    match socket.dispatch(&message, &answers, &mut generator) {
        Step::Done(effects) => {
            assert_eq!(effects.len(), 1);
            match &effects[0] {
                Effect::Send(envelope) => {
                    assert_eq!(envelope.connection_id, 10);
                    assert_eq!(envelope.opcode, Opcode::Dispatch);
                    assert_eq!(envelope.event, Some(DispatchEvent::DeviceUpdate { id: 7 }));
                    match &envelope.data {
                        WebSocketMessageData::DispatchDeviceUpdate {
                            id,
                            latest_data,
                            name,
                            greenhouse_id,
                            ..
                        } => {
                            assert_eq!(*id, 7);
                            assert_eq!(*latest_data, Some(reading));
                            assert_eq!(name.as_deref(), Some("Sensor"));
                            assert_eq!(*greenhouse_id, 3);
                        }
                        other => panic!("unexpected body {:?}", other),
                    }
                }
                other => panic!("unexpected effect {:?}", other),
            }
        }
        other => panic!("unexpected step {:?}", other),
    }
    assert!(socket.is_subscribed(10, &message.event));
}

fn database_down() -> Answer {
    Answer::Failed(garthen::error::WebSocketError::from_source(
        garthen::error::WebSocketErrorKind::DieselError,
        false,
        "connection refused",
    ))
}

#[test]
fn dispatch_fails_with_the_lookup_and_subscribes_nobody() {
    let mut generator = init(0, 0);
    let mut socket = Socket::new();
    socket.authorize(&authorization(10));
    let message = DispatchMessage::to_one(DispatchEvent::UserUpdate { id: 5 }, 10);
    match socket.dispatch(&message, &vec![database_down()], &mut generator) {
        Step::Failed(error) => {
            assert_eq!(error.http_code, 500);
            assert_eq!(error.message, "Diesel error: connection refused");
        }
        other => panic!("unexpected step {:?}", other),
    }
    assert!(!socket.is_subscribed(10, &message.event));
    let answers = vec![Answer::Count(1)];
    match socket.dispatch(&message, &answers, &mut generator) {
        Step::Failed(error) => {
            assert_eq!(error.http_code, 500);
            assert_eq!(error.message, "Unexpected answer");
        }
        other => panic!("unexpected step {:?}", other),
    }
    assert!(!socket.is_subscribed(10, &message.event));
}

fn gone() -> Vec<Answer> {
    vec![Answer::Failed(WebSocketErrorTemplate::NotFound(None).into_error())]
}

#[test]
fn first_delivery_for_a_gone_entity_subscribes_and_sends_nothing() {
    let events = [
        DispatchEvent::UserUpdate { id: 5 },
        DispatchEvent::UserMeUpdate { id: 5 },
        DispatchEvent::GreenhouseUpdate { id: 5 },
        DispatchEvent::GreenhouseCreate { id: Some(5), owner_id: 42 },
        DispatchEvent::DeviceUpdate { id: 5 },
        DispatchEvent::DeviceRecordsUpdate { device_id: 5 },
    ];
    for event in events {
        let mut generator = init(0, 0);
        let mut socket = Socket::new();
        socket.authorize(&authorization(10));
        socket.authorize(&authorization(11));
        socket.deliver(&DispatchMessage::to_one(event, 11), &state(), &mut generator);
        match socket.dispatch(&DispatchMessage::to_one(event, 10), &gone(), &mut generator) {
            Step::Done(effects) => assert!(effects.is_empty(), "{:?}", event),
            other => panic!("unexpected step {:?}", other),
        }
        assert!(socket.is_subscribed(10, &event));
        assert!(socket.is_subscribed(11, &event));
        let mut filed = socket.subscribers(&event);
        filed.sort();
        assert_eq!(filed, vec![10, 11]);
    }
}

#[test]
fn broadcast_for_a_gone_entity_is_suppressed() {
    let mut generator = init(0, 0);
    let mut socket = Socket::new();
    socket.authorize(&authorization(10));
    let event = DispatchEvent::DeviceUpdate { id: 7 };
    socket.deliver(&DispatchMessage::to_one(event, 10), &state(), &mut generator);
    match socket.dispatch(&DispatchMessage::to_all(event), &gone(), &mut generator) {
        Step::Done(effects) => assert!(effects.is_empty()),
        other => panic!("unexpected step {:?}", other),
    }
    assert!(socket.is_subscribed(10, &event));
    assert_eq!(socket.subscribers(&event), vec![10]);
    match socket.dispatch(&DispatchMessage::to_all(event), &vec![database_down()], &mut generator) {
        Step::Failed(error) => assert_eq!(error.http_code, 500),
        other => panic!("unexpected step {:?}", other),
    }
}

#[test]
fn first_delivery_reaches_the_newcomer_alone() {
    let mut generator = init(0, 0);
    let mut socket = Socket::new();
    socket.authorize(&authorization(10));
    socket.authorize(&authorization(11));
    let event = DispatchEvent::DeviceRecordsUpdate { device_id: 7 };
    socket.deliver(&DispatchMessage::to_one(event, 11), &state(), &mut generator);
    let first = socket.deliver(&DispatchMessage::to_one(event, 10), &state(), &mut generator);
    assert_eq!(recipients(&first), vec![10]);
    let twice = DispatchMessage { event, new_subscribers: Some(vec![10, 10]) };
    socket.deliver(&twice, &state(), &mut generator);
    let mut filed = socket.subscribers(&event);
    filed.sort();
    assert_eq!(filed, vec![10, 11]);
    assert_eq!(socket.get_connection(&10).unwrap().clone(), vec![event]);
}

#[test]
fn dispatch_of_a_user_sends_what_everybody_may_see() {
    let mut generator = init(0, 0);
    let mut socket = Socket::new();
    socket.authorize(&authorization(10));
    let message = DispatchMessage::to_one(DispatchEvent::UserUpdate { id: 5 }, 10);
    let answers = vec![Answer::UserPublic(UserPublic {
        id: 5,
        username: "ann".to_string(),
        created_at: 1700000000,
        greenhouses: 2,
    })];
    match socket.dispatch(&message, &answers, &mut generator) {
        Step::Done(effects) => match &effects[0] {
            Effect::Send(envelope) => match &envelope.data {
                WebSocketMessageData::DispatchUserUpdate {
                    id,
                    username,
                    created_at,
                    greenhouses,
                } => {
                    assert_eq!((*id, *created_at, *greenhouses), (5, 1700000000, 2));
                    assert_eq!(username, "ann");
                }
                other => panic!("unexpected body {:?}", other),
            },
            other => panic!("unexpected effect {:?}", other),
        },
        other => panic!("unexpected step {:?}", other),
    }
}

#[test]
fn deletion_needs_no_lookup_and_names_the_greenhouse() {
    let mut generator = init(0, 0);
    let mut socket = Socket::new();
    socket.authorize(&authorization(10));
    let key = DispatchEvent::GreenhouseDelete { id: None, owner_id: 42 };
    match socket.dispatch(&DispatchMessage::to_one(key, 10), &vec![], &mut generator) {
        Step::Done(effects) => assert!(effects.is_empty()),
        other => panic!("unexpected step {:?}", other),
    }
    let deleted = DispatchEvent::GreenhouseDelete { id: Some(900), owner_id: 42 };
    match socket.dispatch(&DispatchMessage::to_all(deleted), &vec![], &mut generator) {
        Step::Done(effects) => {
            assert_eq!(effects.len(), 1);
            match &effects[0] {
                Effect::Send(envelope) => {
                    assert_eq!(envelope.connection_id, 10);
                    assert_eq!(envelope.event, Some(key));
                    assert!(matches!(
                        envelope.data,
                        WebSocketMessageData::DispatchGreenhouseMineDelete { id: 900 }
                    ));
                }
                other => panic!("unexpected effect {:?}", other),
            }
        }
        other => panic!("unexpected step {:?}", other),
    }
}

#[test]
fn averages_are_asked_window_by_window() {
    let mut generator = init(0, 0);
    let mut socket = Socket::new();
    socket.authorize(&authorization(10));
    let event = DispatchEvent::DeviceRecordsAverageUpdate {
        device_id: 7,
        range: DeviceRecordsTimestampRange::LastThreeMoths,
    };
    let message = DispatchMessage::to_one(event, 10);
    let mut answers: Vec<Answer> = vec![];
    assert!(matches!(socket.dispatch(&message, &answers, &mut generator), Step::Ask(Query::Clock)));
    let now: u64 = 1_700_000_000;
    answers.push(Answer::Time(now));
    let month: u64 = 2_592_000;
    for i in 0..3u64 {
        match socket.dispatch(&message, &answers, &mut generator) {
            Step::Ask(Query::DeviceRecordAverage { device_id, from, until }) => {
                assert_eq!(device_id, 7);
                assert_eq!(until, now - month * i);
                assert_eq!(from, now - month * (i + 1));
            }
            other => panic!("unexpected step {:?}", other),
        }
        answers.push(Answer::Average(if i == 1 { None } else { Some(F64Bits::new(i)) }));
    }
    match socket.dispatch(&message, &answers, &mut generator) {
        Step::Done(effects) => match &effects[0] {
            Effect::Send(envelope) => match &envelope.data {
                WebSocketMessageData::DispatchDeviceRecordsAverageUpdate {
                    device_id,
                    range,
                    records,
                } => {
                    assert_eq!(*device_id, 7);
                    assert_eq!(*range, DeviceRecordsTimestampRange::LastThreeMoths);
                    assert_eq!(records.len(), 3);
                    assert_eq!(records[0].range, (now - month, now));
                    assert_eq!(records[1].data, None);
                    assert_eq!(records[2].data, Some(F64Bits::new(2)));
                    assert_eq!(records[2].range, (now - 3 * month, now - 2 * month));
                }
                other => panic!("unexpected body {:?}", other),
            },
            other => panic!("unexpected effect {:?}", other),
        },
        other => panic!("unexpected step {:?}", other),
    }
    let early = vec![Answer::Time(100)];
    match socket.dispatch(&message, &early, &mut generator) {
        Step::Failed(error) => assert_eq!(error.http_code, 400),
        other => panic!("unexpected step {:?}", other),
    }
}

#[test]
fn bus_payloads_turn_into_broadcasts() {
    let news = Socket::bridge(&DispatchAmqpMessage {
        payload: AmqpPayload::DispatchData { device_id: 7 },
    });
    assert_eq!(news.len(), 2);
    assert_eq!(news[0].event, DispatchEvent::DeviceUpdate { id: 7 });
    assert_eq!(news[1].event, DispatchEvent::DeviceRecordsUpdate { device_id: 7 });
    assert!(news.iter().all(|m| m.new_subscribers.is_none()));
    let news = Socket::bridge(&DispatchAmqpMessage {
        payload: AmqpPayload::DispatchDevice { id: 9 },
    });
    assert_eq!(news.len(), 1);
    assert_eq!(news[0].event, DispatchEvent::DeviceUpdate { id: 9 });
    for payload in [
        AmqpPayload::Ping,
        AmqpPayload::RequestData { device_id: Some(1), greenhouse_id: None },
        AmqpPayload::ChangeControllerState { device_id: 1, state: 1 },
    ] {
        assert!(Socket::bridge(&DispatchAmqpMessage { payload }).is_empty());
    }
}
