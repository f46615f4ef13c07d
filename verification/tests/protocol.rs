use garthen::connection::{
    Encoding, State, WebSocketConnection, CLIENT_TIMEOUT, HEARTBEAT_INTERVAL,
};
use garthen::exchange::{Answer, Effect, Query, Step};
use garthen::messages::{
    AmqpPayload, DispatchAmqpMessage, DispatchEvent, DispatchMessage, Method, Opcode,
    WebSocketMessage,
};
use garthen::model::{Device, DeviceKind, DeviceRecord, DeviceStatus, Greenhouse, Session};
use garthen::numbers::F64Bits;
use garthen::passwd::answer_locally;
use garthen::payload::WebSocketMessageData;
use garthen::router::{Frame, Outgoing};
use garthen::snowflake::{init, IdGenerator};
use garthen::socket::Socket;
use garthen::templates::{WebSocketCloseError, WebSocketErrorTemplate};
use garthen::wire::{Field, Term};

fn envelope(id: i64, opcode: Opcode, data: WebSocketMessageData) -> WebSocketMessage {
    WebSocketMessage { id, connection_id: 0, opcode, event: None, method: None, request: None, data }
}

fn fresh(id: i64) -> WebSocketConnection {
    WebSocketConnection {
        id,
        session_id: None,
        last_heartbeat_at: 0,
        encoding: Encoding::Json,
        closed: false,
    }
}

fn authenticated(id: i64) -> WebSocketConnection {
    WebSocketConnection {
        id,
        session_id: Some(5),
        last_heartbeat_at: 0,
        encoding: Encoding::Json,
        closed: false,
    }
}

fn not_found() -> Answer {
    Answer::Failed(WebSocketErrorTemplate::NotFound(None).into_error())
}

/// The datastore of the scenario: token T opens session 5 of user 42, who
/// owns greenhouse 3, in which device 7 stands.
fn store(query: &Query) -> Answer {
    match query {
        Query::SessionByToken { token } if token == "T" => Answer::Session(Session {
            id: 5,
            token: "T".to_string(),
            user_id: Some(42),
            created_at: 1700000000,
        }),
        Query::SessionById { id: 5 } => Answer::Session(Session {
            id: 5,
            token: "T".to_string(),
            user_id: Some(42),
            created_at: 1700000000,
        }),
        Query::GreenhouseByIdAndOwner { id: 3, owner_id: 42 } => Answer::Greenhouse(Greenhouse {
            id: 3,
            name: "Tomatoes".to_string(),
            token: "secret".to_string(),
            owner_id: 42,
            created_at: 1700000000,
            maximum_average_humidity: None,
            minimum_average_temperature: None,
        }),
        Query::DeviceByIdAndGreenhouse { id: 7, greenhouse_id: 3 } | Query::DeviceById { id: 7 } => {
            Answer::Device(Device {
                id: 7,
                external_id: Some(1),
                name: None,
                status: DeviceStatus::Online,
                kind: DeviceKind::TemperatureSensor,
                greenhouse_id: 3,
                created_at: 1700000000,
                maximum_data_value: None,
            })
        }
        Query::DeviceRecordLatest { device_id: 7 } => Answer::DeviceRecord(DeviceRecord {
            id: 1,
            device_id: 7,
            data: F64Bits::new(20.0f64.to_bits()),
            created_at: 1700000000,
        }),
        Query::DeviceRecordCount { device_id: 7 } => Answer::Count(12),
        _ => not_found(),
    }
}

fn answer(query: &Query) -> Answer {
    match answer_locally(query) {
        Some(answer) => answer,
        None => store(query),
    }
}

fn drive(connection: &mut WebSocketConnection, message: &WebSocketMessage, now: u64) -> Step {
    let mut answers: Vec<Answer> = vec![];
    loop {
        match connection.handle_message(message.clone(), &answers, now) {
            Step::Ask(query) => answers.push(answer(&query)),
            other => return other,
        }
        assert!(answers.len() < 20);
    }
}

fn dispatch(
    socket: &mut Socket,
    message: &DispatchMessage,
    generator: &mut IdGenerator,
) -> Vec<WebSocketMessage> {
    let mut answers: Vec<Answer> = vec![];
    loop {
        match socket.dispatch(message, &answers, generator) {
            Step::Ask(query) => answers.push(answer(&query)),
            Step::Done(effects) => {
                return effects
                    .into_iter()
                    .map(|effect| match effect {
                        Effect::Send(envelope) => envelope,
                        other => panic!("unexpected effect {:?}", other),
                    })
                    .collect();
            }
            Step::Failed(error) => panic!("dispatch failed: {:?}", error),
        }
    }
}

fn closes_with(step: &Step, error: WebSocketCloseError) -> bool {
    match step {
        Step::Done(effects) => {
            effects.len() == 1 && matches!(&effects[0], Effect::Close(e) if *e == error)
        }
        _ => false,
    }
}

#[test]
fn nothing_is_served_before_authorization() {
    for opcode in [
        Opcode::Request,
        Opcode::Subscribe,
        Opcode::HeartBeat,
        Opcode::Dispatch,
        Opcode::Response,
        Opcode::Error,
    ] {
        let mut connection = fresh(10);
        let mut message = envelope(1, opcode, WebSocketMessageData::SubscribeToUserUpdate { id: 5 });
        message.request = Some("user".to_string());
        message.method = Some(Method::Get);
        let step = Socket::handle(&mut connection, &message, &vec![], 1000);
        assert!(closes_with(&step, WebSocketCloseError::NotAuthenticated), "{:?}", opcode);
        assert_eq!(connection, WebSocketConnection { closed: true, ..fresh(10) });
        assert_eq!(connection.position(), State::Closed);
        let mut connection = fresh(10);
        let answers = vec![store(&Query::SessionById { id: 5 })];
        let step = Socket::handle(&mut connection, &message, &answers, 1000);
        assert!(closes_with(&step, WebSocketCloseError::NotAuthenticated), "{:?}", opcode);
        assert_eq!(connection.session_id, None);
        assert_eq!(connection.last_heartbeat_at, 0);
    }
}

#[test]
fn closed_connection_handles_nothing() {
    let mut connection = fresh(10);
    assert_eq!(connection.position(), State::Unauthenticated);
    let beat = envelope(1, Opcode::HeartBeat, WebSocketMessageData::Empty);
    let step = Socket::handle(&mut connection, &beat, &vec![], 0);
    assert!(closes_with(&step, WebSocketCloseError::NotAuthenticated));
    let authorize = envelope(
        2,
        Opcode::Authorize,
        WebSocketMessageData::Authorize { token: "T".to_string() },
    );
    let answers = vec![store(&Query::SessionByToken { token: "T".to_string() })];
    match Socket::handle(&mut connection, &authorize, &answers, 0) {
        Step::Done(effects) => assert!(effects.is_empty()),
        other => panic!("unexpected step {:?}", other),
    }
    assert_eq!(connection.session_id, None);
    assert_eq!(connection.position(), State::Closed);
    match connection.handle(Ok(Frame::Close), &vec![], 0) {
        Step::Done(effects) => assert!(effects.is_empty()),
        other => panic!("unexpected step {:?}", other),
    }
    assert_eq!(authenticated(11).position(), State::Authenticated);
}

#[test]
fn authorization_needs_a_token() {
    let mut connection = fresh(10);
    let message = envelope(1, Opcode::Authorize, WebSocketMessageData::Empty);
    match Socket::handle(&mut connection, &message, &vec![], 0) {
        Step::Failed(error) => assert_eq!((error.http_code, error.json_code), (400, 400)),
        other => panic!("unexpected step {:?}", other),
    }
    assert_eq!(connection.session_id, None);
}

#[test]
fn unknown_token_closes_the_socket() {
    let mut connection = fresh(10);
    let message = envelope(
        1,
        Opcode::Authorize,
        WebSocketMessageData::Authorize { token: "nope".to_string() },
    );
    match Socket::handle(&mut connection, &message, &vec![], 0) {
        Step::Ask(Query::SessionByToken { token }) => assert_eq!(token, "nope"),
        other => panic!("unexpected step {:?}", other),
    }
    let step = Socket::handle(&mut connection, &message, &vec![not_found()], 0);
    assert!(closes_with(&step, WebSocketCloseError::AuthenticationFailed));
    assert_eq!(connection.session_id, None);
    assert!(connection.closed);
    let mut connection = fresh(10);
    let broken = vec![Answer::Failed(garthen::error::WebSocketError::from_source(
        garthen::error::WebSocketErrorKind::R2d2Error,
        false,
        "pool is closed",
    ))];
    match Socket::handle(&mut connection, &message, &broken, 0) {
        Step::Failed(error) => assert_eq!(error.message, "r2d2 error: pool is closed"),
        other => panic!("unexpected step {:?}", other),
    }
}

#[test]
fn session_without_user_is_unauthorized() {
    let mut connection = fresh(10);
    let message = envelope(
        1,
        Opcode::Authorize,
        WebSocketMessageData::Authorize { token: "T".to_string() },
    );
    let answers = vec![Answer::Session(Session {
        id: 5,
        token: "T".to_string(),
        user_id: None,
        created_at: 0,
    })];
    match Socket::handle(&mut connection, &message, &answers, 0) {
        Step::Failed(error) => assert_eq!(error.http_code, 401),
        other => panic!("unexpected step {:?}", other),
    }
    assert_eq!(connection.session_id, None);
}

#[test]
fn gate_steps_of_an_authenticated_connection() {
    let mut connection = authenticated(10);
    let again = envelope(
        2,
        Opcode::Authorize,
        WebSocketMessageData::Authorize { token: "T".to_string() },
    );
    let step = Socket::handle(&mut connection, &again, &vec![], 0);
    assert!(closes_with(&step, WebSocketCloseError::AlreadyAuthenticated));
    assert!(connection.closed);
    for opcode in [Opcode::Dispatch, Opcode::Error] {
        let mut connection = authenticated(10);
        let step = Socket::handle(
            &mut connection,
            &envelope(3, opcode, WebSocketMessageData::Empty),
            &vec![],
            0,
        );
        assert!(closes_with(&step, WebSocketCloseError::Opcode));
    }
    let mut connection = authenticated(10);
    match Socket::handle(
        &mut connection,
        &envelope(4, Opcode::Response, WebSocketMessageData::Empty),
        &vec![],
        0,
    ) {
        Step::Done(effects) => assert!(effects.is_empty()),
        other => panic!("unexpected step {:?}", other),
    }
    assert_eq!(connection, authenticated(10));
}

#[test]
fn heartbeat_refreshes_and_is_answered() {
    let mut connection = authenticated(10);
    let mut beat = envelope(9, Opcode::HeartBeat, WebSocketMessageData::Empty);
    beat.connection_id = 10;
    match Socket::handle(&mut connection, &beat, &vec![], 30_000) {
        Step::Done(effects) => match &effects[0] {
            Effect::Send(reply) => {
                assert_eq!((reply.id, reply.connection_id), (9, 10));
                assert_eq!(reply.opcode, Opcode::Response);
                assert!(reply.data.is_none());
            }
            other => panic!("unexpected effect {:?}", other),
        },
        other => panic!("unexpected step {:?}", other),
    }
    assert_eq!(connection.last_heartbeat_at, 30_000);
    assert_eq!(connection.session_id, Some(5));
}

#[test]
fn silence_beyond_the_timeout_closes() {
    assert_eq!(HEARTBEAT_INTERVAL, 15_000);
    assert_eq!(CLIENT_TIMEOUT, 45_000);
    let mut connection = authenticated(10);
    connection.last_heartbeat_at = 100_000;
    assert!(!connection.heartbeat(100_000));
    assert!(!connection.heartbeat(145_000));
    assert!(!connection.heartbeat(50_000));
    assert!(!connection.closed);
    assert!(connection.heartbeat(145_001));
    assert!(connection.closed);
    assert!(!connection.heartbeat(145_002));
    assert_eq!(connection.stopping().connection_id, 10);
}

#[test]
fn requests_and_subscriptions_need_a_known_path() {
    let mut connection = authenticated(10);
    let mut request = envelope(1, Opcode::Request, WebSocketMessageData::Empty);
    for (path, method) in [
        (None, Some(Method::Get)),
        (Some("user/me"), None),
        (Some("nowhere"), Some(Method::Get)),
        (Some("user"), Some(Method::Patch)),
    ] {
        request.request = path.map(|p| p.to_string());
        request.method = method;
        match Socket::handle(&mut connection, &request, &vec![], 0) {
            Step::Failed(error) => assert_eq!(error.json_code, 400, "{:?}", path),
            other => panic!("unexpected step {:?}", other),
        }
    }
    let mut subscription = envelope(1, Opcode::Subscribe, WebSocketMessageData::Empty);
    for path in [None, Some("nowhere"), Some("device/state")] {
        subscription.request = path.map(|p| p.to_string());
        match Socket::handle(&mut connection, &subscription, &vec![], 0) {
            Step::Failed(error) => assert_eq!(error.json_code, 400, "{:?}", path),
            other => panic!("unexpected step {:?}", other),
        }
    }
}

#[test]
fn errors_are_reported_under_the_request_id() {
    let mut connection = authenticated(10);
    let mut request = envelope(77, Opcode::Request, WebSocketMessageData::Empty);
    request.request = Some("nowhere".to_string());
    request.method = Some(Method::Get);
    match connection.handle_message(request, &vec![], 0) {
        Step::Done(effects) => match &effects[0] {
            Effect::Reply(reply) => {
                assert_eq!((reply.id, reply.connection_id), (77, 10));
                assert_eq!(reply.opcode, Opcode::Error);
                match &reply.data {
                    WebSocketMessageData::Response { code, message } => {
                        assert_eq!(*code, 400);
                        assert_eq!(message, "Bad request");
                    }
                    other => panic!("unexpected body {:?}", other),
                }
            }
            other => panic!("unexpected effect {:?}", other),
        },
        other => panic!("unexpected step {:?}", other),
    }
}

#[test]
fn server_errors_reach_the_peer_without_detail() {
    let mut connection = authenticated(10);
    let mut subscription = envelope(8, Opcode::Subscribe, WebSocketMessageData::Empty);
    subscription.request = Some("user/me".to_string());
    let answers = vec![Answer::Failed(garthen::error::WebSocketError::from_source(
        garthen::error::WebSocketErrorKind::DieselError,
        false,
        "password authentication failed",
    ))];
    match connection.handle_message(subscription, &answers, 0) {
        Step::Done(effects) => match &effects[0] {
            Effect::Reply(reply) => match &reply.data {
                WebSocketMessageData::Response { code, message } => {
                    assert_eq!(*code, 500);
                    assert_eq!(message, "Internal server error");
                }
                other => panic!("unexpected body {:?}", other),
            },
            other => panic!("unexpected effect {:?}", other),
        },
        other => panic!("unexpected step {:?}", other),
    }
}

#[test]
fn failed_handover_is_reported_to_the_peer() {
    let connection = authenticated(10);
    assert!(Socket::send_message(4, &connection, &Ok(())).is_none());
    let lost = Err(garthen::error::WebSocketError::new(
        500,
        None,
        "Failed to upgrade recipient in Socket::send".to_string(),
        None,
    ));
    let report = Socket::send_message(4, &connection, &lost).unwrap();
    assert_eq!((report.id, report.connection_id), (4, 10));
    assert_eq!(report.opcode, Opcode::Error);
    match report.data {
        WebSocketMessageData::Response { code, message } => {
            assert_eq!(code, 500);
            assert_eq!(message, "Internal server error");
        }
        other => panic!("unexpected body {:?}", other),
    }
}

fn authorize_term(token: &str) -> Term {
    Term::Record(vec![
        (Field::Ident, Term::Int(1)),
        (Field::Opcode, Term::Int(5)),
        (
            Field::Body,
            Term::Record(vec![
                (Field::Action, Term::Text("authorize".to_string())),
                (Field::Token, Term::Text(token.to_string())),
            ]),
        ),
    ])
}

#[test]
fn frames_in_the_wrong_encoding_or_shape_close_the_socket() {
    let term = authorize_term("T");
    let step = fresh(10).handle(Ok(Frame::binary(Some(&term))), &vec![], 0);
    assert!(closes_with(&step, WebSocketCloseError::InvalidPayload));
    let step = fresh(10).handle(Ok(Frame::text(None)), &vec![], 0);
    assert!(closes_with(&step, WebSocketCloseError::InvalidPayload));
    let step = fresh(10).handle(Ok(Frame::text(Some(&Term::Int(3)))), &vec![], 0);
    assert!(closes_with(&step, WebSocketCloseError::InvalidPayload));
    let mut connection = fresh(10);
    let step = connection.handle(Ok(Frame::text(Some(&term))), &vec![], 0);
    assert!(matches!(step, Step::Ask(Query::SessionByToken { .. })));
    assert!(!connection.closed);
    let mut binary = fresh(11);
    binary.encoding = Encoding::Etf;
    let step = binary.handle(Ok(Frame::binary(Some(&term))), &vec![], 0);
    assert!(matches!(step, Step::Ask(Query::SessionByToken { .. })));
    let step = binary.handle(Ok(Frame::text(Some(&term))), &vec![], 0);
    assert!(closes_with(&step, WebSocketCloseError::InvalidPayload));
    assert!(binary.closed);
    match connection.handle(Ok(Frame::Other), &vec![], 0) {
        Step::Done(effects) => assert!(effects.is_empty()),
        other => panic!("unexpected step {:?}", other),
    }
    assert!(!connection.closed);
    match connection.handle(Ok(Frame::Close), &vec![], 0) {
        Step::Done(effects) => assert!(matches!(effects[0], Effect::CloseEcho)),
        other => panic!("unexpected step {:?}", other),
    }
    assert!(connection.closed);
    match fresh(12).handle(Err(()), &vec![], 0) {
        Step::Done(effects) => assert!(matches!(effects[0], Effect::Hangup)),
        other => panic!("unexpected step {:?}", other),
    }
}

#[test]
fn envelopes_go_out_in_the_encoding_of_the_connection() {
    let reply = WebSocketMessage::reply(1, 10, 200, "ok");
    assert!(matches!(
        WebSocketConnection::send_message(Encoding::Json, &reply),
        Outgoing::Text(Term::Record(_))
    ));
    assert!(matches!(
        WebSocketConnection::send_message(Encoding::Etf, &reply),
        Outgoing::Binary(Term::Record(_))
    ));
}

#[test]
fn authorize_subscribe_and_hear_of_new_readings() {
    let mut generator = init(1, 1);
    let mut socket = Socket::new();
    let mut connection = WebSocketConnection::new(Encoding::Json, &mut generator, 0);
    let connection_id = connection.id;

    // The client authorizes with token T.
    let step = {
        let mut answers: Vec<Answer> = vec![];
        loop {
            match connection.handle(Ok(Frame::text(Some(&authorize_term("T")))), &answers, 0) {
                Step::Ask(query) => answers.push(answer(&query)),
                other => break other,
            }
        }
    };
    assert_eq!(connection.session_id, Some(5));
    let reply = match step {
        Step::Done(effects) => match effects.into_iter().next() {
            Some(Effect::Authorize(message)) => {
                assert_eq!(message.connection_id, connection_id);
                assert_eq!(message.token, "T");
                socket.authorize(&message)
            }
            other => panic!("unexpected effect {:?}", other),
        },
        other => panic!("unexpected step {:?}", other),
    };
    assert_eq!(reply.opcode, Opcode::Response);
    assert!(matches!(reply.data, WebSocketMessageData::Response { code: 200, .. }));
    assert_eq!(socket.route(reply).unwrap().connection_id, connection_id);

    // The client subscribes to device 7 of greenhouse 3.
    let mut subscription = envelope(
        2,
        Opcode::Subscribe,
        WebSocketMessageData::SubscribeToDeviceUpdate { id: 7, greenhouse_id: 3 },
    );
    subscription.request = Some("device".to_string());
    let first = match drive(&mut connection, &subscription, 0) {
        Step::Done(effects) => match effects.into_iter().next() {
            Some(Effect::Dispatch(message)) => dispatch(&mut socket, &message, &mut generator),
            other => panic!("unexpected effect {:?}", other),
        },
        other => panic!("unexpected step {:?}", other),
    };
    assert_eq!(first.len(), 1);
    assert_eq!(first[0].connection_id, connection_id);
    assert_eq!(first[0].opcode, Opcode::Dispatch);
    assert_eq!(first[0].event, Some(DispatchEvent::DeviceUpdate { id: 7 }));

    // A second client subscribes to the count of readings of the device.
    let mut other = WebSocketConnection::new(Encoding::Json, &mut generator, 0);
    other.session_id = Some(5);
    let registered = garthen::messages::AuthorizationMessage {
        id: 1,
        connection_id: other.id,
        token: "T".to_string(),
    };
    socket.authorize(&registered);
    let mut counting = envelope(
        3,
        Opcode::Subscribe,
        WebSocketMessageData::SubscribeToDeviceRecordsUpdate { device_id: 7, greenhouse_id: 3 },
    );
    counting.request = Some("device_records".to_string());
    match drive(&mut other, &counting, 0) {
        Step::Done(effects) => match effects.into_iter().next() {
            Some(Effect::Dispatch(message)) => {
                assert_eq!(dispatch(&mut socket, &message, &mut generator).len(), 1);
            }
            other => panic!("unexpected effect {:?}", other),
        },
        other => panic!("unexpected step {:?}", other),
    }

    // The bus reports a new reading of device 7.
    let news = Socket::bridge(&DispatchAmqpMessage {
        payload: AmqpPayload::DispatchData { device_id: 7 },
    });
    assert_eq!(news.len(), 2);
    let changed = dispatch(&mut socket, &news[0], &mut generator);
    assert_eq!(changed.len(), 1);
    assert_eq!(changed[0].connection_id, connection_id);
    assert_eq!(changed[0].event, Some(DispatchEvent::DeviceUpdate { id: 7 }));
    let counted = dispatch(&mut socket, &news[1], &mut generator);
    assert_eq!(counted.len(), 1);
    assert_eq!(counted[0].connection_id, other.id);
    assert_eq!(counted[0].event, Some(DispatchEvent::DeviceRecordsUpdate { device_id: 7 }));
    assert!(matches!(
        counted[0].data,
        WebSocketMessageData::DispatchDeviceRecordsUpdate { device_id: 7, quantity: 12 }
    ));

    // Once the first client is gone the news pass it by.
    assert!(socket.disconnect(&connection.stopping()).is_ok());
    assert!(dispatch(&mut socket, &news[0], &mut generator).is_empty());
    assert_eq!(dispatch(&mut socket, &news[1], &mut generator).len(), 1);
}

#[test]
fn subscription_to_a_device_of_somebody_else_fails() {
    let mut connection = authenticated(10);
    let mut subscription = envelope(
        2,
        Opcode::Subscribe,
        WebSocketMessageData::SubscribeToDeviceUpdate { id: 7, greenhouse_id: 4 },
    );
    subscription.request = Some("device".to_string());
    match drive(&mut connection, &subscription, 0) {
        Step::Done(effects) => match &effects[0] {
            Effect::Reply(reply) => {
                assert_eq!(reply.opcode, Opcode::Error);
                assert!(matches!(reply.data, WebSocketMessageData::Response { code: 404, .. }));
            }
            other => panic!("unexpected effect {:?}", other),
        },
        other => panic!("unexpected step {:?}", other),
    }
}
