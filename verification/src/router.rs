//! The protocol of a connection: admission, routing to the handlers, and
//! frames.

use vstd::prelude::*;
use crate::codec::{decoded, encoded, message_view};
use crate::connection::{Encoding, State, WebSocketConnection};
use crate::error::WebSocketError;
use crate::exchange::{
    done0, done1, fail, unexpected, unexpected_answer, Answer, Effect,
    EffectView, Query, QueryView, Step, StepView,
};
use crate::messages::{
    error_envelope, plain_envelope, AuthorizationMessage, Opcode, WebSocketMessage,
};
use crate::payload::{WebSocketMessageData, WebSocketMessageDataView};
use crate::services::{device, device_record, greenhouse, user};
use crate::socket::Socket;
use crate::templates::{WebSocketCloseError, WebSocketErrorTemplate};
use crate::text::same_text;
use crate::wire::Term;

verus! {

/// The family of handlers that a request path belongs to.
#[derive(Clone, Copy, Debug, PartialEq, Eq, Structural)]
pub enum Family {
    User,
    Greenhouse,
    Device,
    DeviceRecord,
}

/// The family that handles requests for a path, if any does.
pub open spec fn request_family(path: Seq<char>) -> Option<Family> {
    if path == "user/me"@ {
        Some(Family::User)
    } else if path == "greenhouse"@ {
        Some(Family::Greenhouse)
    } else if path == "device"@ || path == "device/state"@ || path == "device/custom-data"@ || path
        == "device/request-data"@ || path == "device/disable"@ || path == "device/enable"@ || path
        == "devices/reset-names"@ {
        Some(Family::Device)
    } else {
        None
    }
}

/// The family that handles subscriptions to a path, if any does.
pub open spec fn subscribe_family(path: Seq<char>) -> Option<Family> {
    if path == "user"@ || path == "user/me"@ {
        Some(Family::User)
    } else if path == "greenhouse"@ || path == "greenhouses/mine"@ || path == "greenhouse-create"@
        || path == "greenhouse-delete"@ {
        Some(Family::Greenhouse)
    } else if path == "device"@ || path == "devices"@ {
        Some(Family::Device)
    } else if path == "device_records"@ || path == "device_records/average"@ {
        Some(Family::DeviceRecord)
    } else {
        None
    }
}

fn family_of_request(path: &str) -> (r: Option<Family>)
    ensures
        r == request_family(path@),
{
    if same_text(path, "user/me") {
        Some(Family::User)
    } else if same_text(path, "greenhouse") {
        Some(Family::Greenhouse)
    } else if same_text(path, "device") || same_text(path, "device/state") || same_text(
        path,
        "device/custom-data",
    ) || same_text(path, "device/request-data") || same_text(path, "device/disable") || same_text(
        path,
        "device/enable",
    ) || same_text(path, "devices/reset-names") {
        Some(Family::Device)
    } else {
        None
    }
}

fn family_of_subscription(path: &str) -> (r: Option<Family>)
    ensures
        r == subscribe_family(path@),
{
    if same_text(path, "user") || same_text(path, "user/me") {
        Some(Family::User)
    } else if same_text(path, "greenhouse") || same_text(path, "greenhouses/mine") || same_text(
        path,
        "greenhouse-create",
    ) || same_text(path, "greenhouse-delete") {
        Some(Family::Greenhouse)
    } else if same_text(path, "device") || same_text(path, "devices") {
        Some(Family::Device)
    } else if same_text(path, "device_records") || same_text(path, "device_records/average") {
        Some(Family::DeviceRecord)
    } else {
        None
    }
}

/// The step that closes the socket for a reason of the application.
pub open spec fn closing(error: WebSocketCloseError) -> StepView {
    StepView::Done(seq![EffectView::Close(error)])
}

fn close(connection: &mut WebSocketConnection, error: WebSocketCloseError) -> (r: Step)
    ensures
        r@ == closing(error),
        *final(connection) == old(connection).shut(),
{
    connection.closed = true;
    done1(Effect::Close(error))
}

/// The step that fails with a bad request.
pub open spec fn bad_request() -> StepView {
    StepView::Failed(WebSocketErrorTemplate::BadRequest(None).error())
}

impl Socket {
    /// What an unauthenticated connection does with an envelope, and what
    /// becomes of the connection.
    ///
    /// Anything but an authorization closes the socket. An authorization
    /// must carry a token; the session that the token opens is looked up
    /// through the first answer. A token that opens no session closes the
    /// socket; a session without a user is unauthorized; a session with a
    /// user authenticates the connection, and the registry is told.
    pub open spec fn admitted(
        connection: WebSocketConnection,
        message: WebSocketMessage,
        answers: Seq<Answer>,
    ) -> (StepView, WebSocketConnection) {
        if message.opcode != Opcode::Authorize {
            (closing(WebSocketCloseError::NotAuthenticated), connection.shut())
        } else {
            match message.data {
                WebSocketMessageData::Authorize { token } => if answers.len() == 0 {
                    (StepView::Ask(QueryView::SessionByToken { token: token@ }), connection)
                } else {
                    match answers[0] {
                        Answer::Session(session) => match session.user_id {
                            Some(_) => (
                                StepView::Done(
                                    seq![
                                        EffectView::Authorize {
                                            id: message.id,
                                            connection_id: connection.id,
                                            token: token@,
                                        },
                                    ],
                                ),
                                WebSocketConnection { session_id: Some(session.id), ..connection },
                            ),
                            None => (
                                StepView::Failed(
                                    WebSocketErrorTemplate::Unauthorized(None).error(),
                                ),
                                connection,
                            ),
                        },
                        Answer::Failed(error) => if error.http_code == 404 {
                            (closing(WebSocketCloseError::AuthenticationFailed), connection.shut())
                        } else {
                            (StepView::Failed(error@), connection)
                        },
                        _ => (StepView::Failed(unexpected_answer()), connection),
                    }
                },
                _ => (bad_request(), connection),
            }
        }
    }

    /// What an authenticated connection does with an envelope, and what
    /// becomes of the connection.
    ///
    /// A heartbeat refreshes the connection and is answered. A request or
    /// a subscription goes to the family of handlers that its path names.
    /// A second authorization closes the socket, and so does an opcode that
    /// only the server may send. A response is taken without a word.
    pub open spec fn served(
        connection: WebSocketConnection,
        message: WebSocketMessage,
        answers: Seq<Answer>,
        now: u64,
    ) -> (StepView, WebSocketConnection) {
        match message.opcode {
            Opcode::HeartBeat => (
                StepView::Done(
                    seq![
                        EffectView::Send(
                            plain_envelope(
                                message.id,
                                message.connection_id,
                                Opcode::Response,
                                WebSocketMessageDataView::Empty,
                            ),
                        ),
                    ],
                ),
                WebSocketConnection { last_heartbeat_at: now, ..connection },
            ),
            Opcode::Request => (
                match (message.request, message.method) {
                    (Some(request), Some(method)) => match request_family(request@) {
                        Some(Family::User) => user::handled(
                            request@,
                            method,
                            message,
                            connection,
                            answers,
                        ),
                        Some(Family::Greenhouse) => greenhouse::handled(
                            request@,
                            method,
                            message,
                            connection,
                            answers,
                        ),
                        Some(Family::Device) => device::handled(
                            request@,
                            method,
                            message,
                            connection,
                            answers,
                        ),
                        _ => bad_request(),
                    },
                    _ => bad_request(),
                },
                connection,
            ),
            Opcode::Response => (StepView::Done(Seq::empty()), connection),
            Opcode::Authorize => (
                closing(WebSocketCloseError::AlreadyAuthenticated),
                connection.shut(),
            ),
            Opcode::Subscribe => (
                match message.request {
                    Some(request) => match subscribe_family(request@) {
                        Some(Family::User) => user::subscribed(
                            request@,
                            message,
                            connection,
                            answers,
                        ),
                        Some(Family::Greenhouse) => greenhouse::subscribed(
                            request@,
                            message,
                            connection,
                            answers,
                        ),
                        Some(Family::Device) => device::subscribed(
                            request@,
                            message,
                            connection,
                            answers,
                        ),
                        Some(Family::DeviceRecord) => device_record::subscribed(
                            request@,
                            message,
                            connection,
                            answers,
                        ),
                        None => bad_request(),
                    },
                    None => bad_request(),
                },
                connection,
            ),
            Opcode::Dispatch => (closing(WebSocketCloseError::Opcode), connection.shut()),
            Opcode::Error => (closing(WebSocketCloseError::Opcode), connection.shut()),
        }
    }

    /// What a connection does with an envelope, and what becomes of the
    /// connection: a closed one does nothing any more, an unauthenticated
    /// one asks for admission, an authenticated one is served.
    pub open spec fn handled(
        connection: WebSocketConnection,
        message: WebSocketMessage,
        answers: Seq<Answer>,
        now: u64,
    ) -> (StepView, WebSocketConnection) {
        if connection.closed {
            (StepView::Done(Seq::empty()), connection)
        } else if connection.authenticated() {
            Self::served(connection, message, answers, now)
        } else {
            Self::admitted(connection, message, answers)
        }
    }

    fn let_in(
        connection: &mut WebSocketConnection,
        message: &WebSocketMessage,
        answers: &Vec<Answer>,
    ) -> (r: Step)
        ensures
            (r@, *final(connection)) == Self::admitted(*old(connection), *message, answers@),
    {
        if message.opcode != Opcode::Authorize {
            return close(connection, WebSocketCloseError::NotAuthenticated);
        }
        let token = match &message.data {
            WebSocketMessageData::Authorize { token } => token,
            _ => {
                return fail(WebSocketErrorTemplate::BadRequest(None));
            },
        };
        if answers.len() == 0 {
            return Step::Ask(Query::SessionByToken { token: token.clone() });
        }
        match &answers[0] {
            Answer::Session(session) => {
                if session.user_id.is_none() {
                    return fail(WebSocketErrorTemplate::Unauthorized(None));
                }
                connection.session_id = Some(session.id);
                done1(
                    Effect::Authorize(
                        AuthorizationMessage {
                            id: message.id,
                            connection_id: connection.id,
                            token: token.clone(),
                        },
                    ),
                )
            },
            Answer::Failed(error) => {
                if error.http_code == 404 {
                    close(connection, WebSocketCloseError::AuthenticationFailed)
                } else {
                    Step::Failed(error.clone())
                }
            },
            _ => Step::Failed(unexpected()),
        }
    }

    fn serve(
        connection: &mut WebSocketConnection,
        message: &WebSocketMessage,
        answers: &Vec<Answer>,
        now: u64,
    ) -> (r: Step)
        requires
            old(connection).authenticated(),
        ensures
            (r@, *final(connection)) == Self::served(*old(connection), *message, answers@, now),
    {
        match message.opcode {
            Opcode::HeartBeat => {
                connection.last_heartbeat_at = now;
                done1(
                    Effect::Send(
                        WebSocketMessage {
                            id: message.id,
                            connection_id: message.connection_id,
                            opcode: Opcode::Response,
                            event: None,
                            method: None,
                            request: None,
                            data: WebSocketMessageData::Empty,
                        },
                    ),
                )
            },
            Opcode::Request => {
                let (request, method) = match (&message.request, &message.method) {
                    (Some(request), Some(method)) => (request, *method),
                    _ => {
                        return fail(WebSocketErrorTemplate::BadRequest(None));
                    },
                };
                match family_of_request(request.as_str()) {
                    Some(Family::User) => user::handle(
                        request.as_str(),
                        method,
                        message,
                        connection,
                        answers,
                    ),
                    Some(Family::Greenhouse) => greenhouse::handle(
                        request.as_str(),
                        method,
                        message,
                        connection,
                        answers,
                    ),
                    Some(Family::Device) => device::handle(
                        request.as_str(),
                        method,
                        message,
                        connection,
                        answers,
                    ),
                    _ => fail(WebSocketErrorTemplate::BadRequest(None)),
                }
            },
            Opcode::Response => done0(),
            Opcode::Authorize => close(connection, WebSocketCloseError::AlreadyAuthenticated),
            Opcode::Subscribe => {
                let request = match &message.request {
                    Some(request) => request,
                    None => {
                        return fail(WebSocketErrorTemplate::BadRequest(None));
                    },
                };
                match family_of_subscription(request.as_str()) {
                    Some(Family::User) => user::subscribe(
                        request.as_str(),
                        message,
                        connection,
                        answers,
                    ),
                    Some(Family::Greenhouse) => greenhouse::subscribe(
                        request.as_str(),
                        message,
                        connection,
                        answers,
                    ),
                    Some(Family::Device) => device::subscribe(
                        request.as_str(),
                        message,
                        connection,
                        answers,
                    ),
                    Some(Family::DeviceRecord) => device_record::subscribe(
                        request.as_str(),
                        message,
                        connection,
                        answers,
                    ),
                    None => fail(WebSocketErrorTemplate::BadRequest(None)),
                }
            },
            Opcode::Dispatch => close(connection, WebSocketCloseError::Opcode),
            Opcode::Error => close(connection, WebSocketCloseError::Opcode),
        }
    }

    /// Handles an envelope that a peer sent: admits or turns away an
    /// unauthenticated connection, and hands the envelope of an
    /// authenticated one to the handler it is for.
    ///
    /// The step asks for what is still to be looked up; the caller answers
    /// and calls again with the same envelope and one answer more. The
    /// connection changes on the step that is done, never on one that asks.
    /// `now` counts milliseconds on the clock of the heartbeats.
    pub fn handle(
        connection: &mut WebSocketConnection,
        message: &WebSocketMessage,
        answers: &Vec<Answer>,
        now: u64,
    ) -> (r: Step)
        ensures
            (r@, *final(connection)) == Self::handled(*old(connection), *message, answers@, now),
    {
        if connection.closed {
            done0()
        } else if connection.session_id.is_none() {
            Self::let_in(connection, message, answers)
        } else {
            Self::serve(connection, message, answers, now)
        }
    }

    /// What to tell the peer once a message was handed to the registry:
    /// nothing where that went well, else the error, under the id of the
    /// request that the message came from.
    pub fn send_message(
        message_id: i64,
        connection: &WebSocketConnection,
        outcome: &Result<(), WebSocketError>,
    ) -> (r: Option<WebSocketMessage>)
        ensures
            match *outcome {
                Ok(()) => r is None,
                Err(error) => r is Some && r->Some_0@ == error_envelope(
                    message_id,
                    connection.id,
                    error.json_code,
                    error.safe_message(),
                ),
            },
    {
        match outcome {
            Ok(()) => None,
            Err(error) => Some(
                WebSocketMessage::failure(
                    message_id,
                    connection.id,
                    error.json_code,
                    error.get_safe_message(),
                ),
            ),
        }
    }

    /// No request, subscription or heartbeat is served before a successful
    /// authorization: whatever the answers, an unauthenticated connection
    /// that gets anything but an authorization closes the socket as not
    /// authenticated, looks nothing up, and stays as it is.
    pub proof fn lemma_authorize_first(
        connection: WebSocketConnection,
        message: WebSocketMessage,
        answers: Seq<Answer>,
        now: u64,
    )
        requires
            connection.state() == State::Unauthenticated,
            message.opcode != Opcode::Authorize,
        ensures
            Self::handled(connection, message, answers, now) == (
                closing(WebSocketCloseError::NotAuthenticated),
                connection.shut(),
            ),
            Self::handled(connection, message, answers, now).1.state() == State::Closed,
    {
    }

    /// Closed is the end: a connection that the server has decided to close
    /// handles nothing any more and stays closed.
    pub proof fn lemma_closed_for_good(
        connection: WebSocketConnection,
        message: WebSocketMessage,
        answers: Seq<Answer>,
        now: u64,
    )
        requires
            connection.state() == State::Closed,
        ensures
            Self::handled(connection, message, answers, now) == (
                StepView::Done(Seq::<EffectView>::empty()),
                connection,
            ),
    {
    }

    /// A connection only ever moves forward: from unauthenticated to
    /// authenticated, and from either to closed.
    pub proof fn lemma_states_move_forward(
        connection: WebSocketConnection,
        message: WebSocketMessage,
        answers: Seq<Answer>,
        now: u64,
    )
        ensures
            match (connection.state(), Self::handled(connection, message, answers, now).1.state()) {
                (State::Unauthenticated, _) => true,
                (State::Authenticated, State::Unauthenticated) => false,
                (State::Authenticated, _) => true,
                (State::Closed, after) => after == State::Closed,
            },
            Self::handled(connection, message, answers, now).1.id == connection.id,
            Self::handled(connection, message, answers, now).1.encoding == connection.encoding,
    {
    }

    /// A connection becomes authenticated in one way only: by an
    /// authorization whose token opens a session that has a user. Nothing
    /// ever takes the session away again.
    pub proof fn lemma_authentication(
        connection: WebSocketConnection,
        message: WebSocketMessage,
        answers: Seq<Answer>,
        now: u64,
    )
        ensures
            connection.authenticated() ==> Self::handled(connection, message, answers, now).1.session_id
                == connection.session_id,
            !connection.authenticated() && Self::handled(
                connection,
                message,
                answers,
                now,
            ).1.authenticated() ==> {
                &&& message.opcode == Opcode::Authorize
                &&& message.data is Authorize
                &&& answers.len() > 0
                &&& answers[0] is Session
                &&& answers[0]->Session_0.user_id is Some
                &&& Self::handled(connection, message, answers, now).1.session_id == Some(
                    answers[0]->Session_0.id,
                )
            },
            Self::handled(connection, message, answers, now).0 is Ask ==> Self::handled(
                connection,
                message,
                answers,
                now,
            ).1 == connection,
    {
    }
}

/// True of the queries that change what is stored about a greenhouse or
/// its devices.
pub open spec fn changes_a_greenhouse(query: QueryView) -> bool {
    query is GreenhouseUpdate || query is GreenhouseDelete || query is DeviceUpdate || query
        is DeviceNamesReset || query is DeviceStatusUpdate || query is DeviceRecordCreate
}

/// True when the answers hold a session that has a user and, after it, a
/// greenhouse: the traces of a lookup of the greenhouse for that user.
pub open spec fn owner_looked_up(answers: Seq<Answer>) -> bool {
    exists|i: int, j: int| #[trigger] session_then_greenhouse(answers, i, j)
}

/// True when answer `i` is a session that has a user and the later answer
/// `j` a greenhouse.
pub open spec fn session_then_greenhouse(answers: Seq<Answer>, i: int, j: int) -> bool {
    &&& 0 <= i < j < answers.len()
    &&& answers[i] is Session
    &&& answers[i]->Session_0.user_id is Some
    &&& answers[j] is Greenhouse
}

/// True when every subscription among the effects subscribes the
/// connection `connection_id` and nobody else.
pub open spec fn subscribes_only(effects: Seq<EffectView>, connection_id: i64) -> bool {
    forall|i: int|
        0 <= i < effects.len() && (#[trigger] effects[i]) is Dispatch
            && effects[i]->Dispatch_0.new_subscribers is Some
            ==> effects[i]->Dispatch_0.new_subscribers == Some(seq![connection_id])
}

impl Socket {
    /// Nothing about a greenhouse or its devices is changed before the
    /// greenhouse has been looked up for the user behind the connection:
    /// whenever a step asks to store such a change, the answers so far hold
    /// the session with its user and, right after it, the greenhouse that
    /// was found for them.
    pub proof fn lemma_changes_need_an_owner(
        connection: WebSocketConnection,
        message: WebSocketMessage,
        answers: Seq<Answer>,
        now: u64,
    )
        requires
            Self::handled(connection, message, answers, now).0 is Ask,
            changes_a_greenhouse(Self::handled(connection, message, answers, now).0->Ask_0),
        ensures
            connection.authenticated(),
            owner_looked_up(answers),
    {
        let step = Self::handled(connection, message, answers, now).0;
        if message.opcode == Opcode::Request {
            let request = message.request->Some_0;
            let method = message.method->Some_0;
            match request_family(request@) {
                Some(Family::Greenhouse) => {
                    if step == greenhouse::patch_greenhouse_plan(message, connection, answers) {
                        assert(session_then_greenhouse(answers, 0, 1));
                    } else {
                        assert(session_then_greenhouse(answers, 0, 3));
                    }
                },
                Some(Family::Device) => {
                    if step == device::post_device_custom_data_plan(message, connection, answers) {
                        assert(session_then_greenhouse(answers, 1, 2));
                    } else {
                        assert(session_then_greenhouse(answers, 0, 1));
                    }
                },
                _ => {},
            }
        }
    }
}

impl Socket {
    /// A connection subscribes itself and nobody else: whatever envelope it
    /// handles, every first delivery among the effects names that one
    /// connection.
    pub proof fn lemma_subscribes_only_itself(
        connection: WebSocketConnection,
        message: WebSocketMessage,
        answers: Seq<Answer>,
        now: u64,
    )
        requires
            Self::handled(connection, message, answers, now).0 is Done,
        ensures
            subscribes_only(Self::handled(connection, message, answers, now).0->Done_0, connection.id),
    {
        let step = Self::handled(connection, message, answers, now).0;
        let effects = step->Done_0;
        assert forall|i: int|
            0 <= i < effects.len() && (#[trigger] effects[i]) is Dispatch
                && effects[i]->Dispatch_0.new_subscribers is Some implies effects[i]->Dispatch_0.new_subscribers
            == Some(seq![connection.id]) by {
            if connection.authenticated() && message.opcode == Opcode::Subscribe {
                let request = message.request->Some_0;
                match subscribe_family(request@) {
                    Some(Family::Device) => {
                        if step == device::devices_update_plan(message, connection, answers) {
                            let devices = answers[2]->Devices_0;
                            device::lemma_device_effects(devices@, Some(connection.id), false, i);
                        }
                    },
                    _ => {},
                }
            } else if connection.authenticated() && message.opcode == Opcode::Request {
                let request = message.request->Some_0;
                match request_family(request@) {
                    Some(Family::Device) => {
                        if step == device::reset_device_names_plan(message, connection, answers) {
                            let devices = answers[2]->Devices_0;
                            if device::any_named(devices@) {
                                let told = device::device_effects(devices@, None, true);
                                if i < told.len() {
                                    device::lemma_device_effects(devices@, None, true, i);
                                }
                            }
                        }
                    },
                    _ => {},
                }
            }
        }
    }
}

impl WebSocketConnection {
    /// What becomes of an envelope from the peer: it is stamped with the
    /// connection's id and handled; an error is reported to the peer as an
    /// error envelope under the id of the request, with a message that is
    /// safe to show.
    pub open spec fn message_handled(
        self,
        message: WebSocketMessage,
        answers: Seq<Answer>,
        now: u64,
    ) -> (StepView, WebSocketConnection) {
        let stamped = WebSocketMessage { connection_id: self.id, ..message };
        let (step, connection) = Socket::handled(self, stamped, answers, now);
        match step {
            StepView::Failed(error) => (
                StepView::Done(
                    seq![
                        EffectView::Reply(
                            error_envelope(
                                message.id,
                                self.id,
                                error.json_code,
                                if error.http_code < 500 {
                                    error.message
                                } else {
                                    crate::error::internal_error_text()
                                },
                            ),
                        ),
                    ],
                ),
                connection,
            ),
            other => (other, connection),
        }
    }

    /// Handles one envelope from the peer.
    pub fn handle_message(&mut self, message: WebSocketMessage, answers: &Vec<Answer>, now: u64)
        -> (r: Step)
        ensures
            (r@, *final(self)) == old(self).message_handled(message, answers@, now),
    {
        let id = message.id;
        let stamped = WebSocketMessage { connection_id: self.id, ..message };
        match Socket::handle(self, &stamped, answers, now) {
            Step::Failed(error) => done1(
                Effect::Reply(
                    WebSocketMessage::failure(id, self.id, error.json_code, error.get_safe_message()),
                ),
            ),
            other => other,
        }
    }
}

/// What arrived on the socket: text or binary data, decoded into an
/// envelope where that was possible, a close, or anything else.
#[derive(Debug)]
pub enum Frame {
    Text(Option<WebSocketMessage>),
    Binary(Option<WebSocketMessage>),
    Close,
    Other,
}

/// What goes out on the socket: a term to be written as text, or one to
/// be written as binary data.
#[derive(Debug)]
pub enum Outgoing {
    Text(Term),
    Binary(Term),
}

impl Frame {
    /// The frame for text that was read into a term, or could not be.
    pub fn text(parsed: Option<&Term>) -> (r: Frame)
        ensures
            r is Text,
            message_view(r->Text_0) == (match parsed {
                Some(term) => decoded(term@),
                None => None,
            }),
    {
        match parsed {
            Some(term) => Frame::Text(WebSocketMessage::from_term(term)),
            None => Frame::Text(None),
        }
    }

    /// The frame for binary data that was read into a term, or could not
    /// be.
    pub fn binary(parsed: Option<&Term>) -> (r: Frame)
        ensures
            r is Binary,
            message_view(r->Binary_0) == (match parsed {
                Some(term) => decoded(term@),
                None => None,
            }),
    {
        match parsed {
            Some(term) => Frame::Binary(WebSocketMessage::from_term(term)),
            None => Frame::Binary(None),
        }
    }
}

impl WebSocketConnection {
    /// Writes an envelope for the peer, in the encoding that the
    /// connection chose when it was opened.
    pub fn send_message(encoding: Encoding, message: &WebSocketMessage) -> (r: Outgoing)
        ensures
            match encoding {
                Encoding::Etf => r is Binary && r->Binary_0@ == encoded(message@),
                Encoding::Json => r is Text && r->Text_0@ == encoded(message@),
            },
    {
        match encoding {
            Encoding::Etf => Outgoing::Binary(message.to_term()),
            Encoding::Json => Outgoing::Text(message.to_term()),
        }
    }

    /// What becomes of a frame.
    ///
    /// A closed connection takes no frame any more. A frame that the
    /// transport could not read drops the connection. Data in the encoding
    /// that the connection did not choose, or data that does not decode,
    /// closes the socket as an invalid payload. A close is answered with a
    /// close. Anything else is passed over.
    pub open spec fn frame_handled(
        self,
        frame: Result<Frame, ()>,
        answers: Seq<Answer>,
        now: u64,
    ) -> (StepView, WebSocketConnection) {
        if self.closed {
            (StepView::Done(Seq::empty()), self)
        } else {
            match frame {
                Err(_) => (StepView::Done(seq![EffectView::Hangup]), self.shut()),
                Ok(Frame::Text(decoded)) => if self.encoding != Encoding::Json || decoded is None {
                    (closing(WebSocketCloseError::InvalidPayload), self.shut())
                } else {
                    self.message_handled(decoded->Some_0, answers, now)
                },
                Ok(Frame::Binary(decoded)) => if self.encoding != Encoding::Etf || decoded
                    is None {
                    (closing(WebSocketCloseError::InvalidPayload), self.shut())
                } else {
                    self.message_handled(decoded->Some_0, answers, now)
                },
                Ok(Frame::Close) => (StepView::Done(seq![EffectView::CloseEcho]), self.shut()),
                Ok(Frame::Other) => (StepView::Done(Seq::empty()), self),
            }
        }
    }

    /// Handles one frame from the socket.
    pub fn handle(&mut self, frame: Result<Frame, ()>, answers: &Vec<Answer>, now: u64) -> (r: Step)
        ensures
            (r@, *final(self)) == old(self).frame_handled(frame, answers@, now),
    {
        if self.closed {
            return done0();
        }
        match frame {
            Err(_) => {
                self.closed = true;
                done1(Effect::Hangup)
            },
            Ok(Frame::Text(decoded)) => {
                if self.encoding != Encoding::Json {
                    return close(self, WebSocketCloseError::InvalidPayload);
                }
                match decoded {
                    Some(message) => self.handle_message(message, answers, now),
                    None => close(self, WebSocketCloseError::InvalidPayload),
                }
            },
            Ok(Frame::Binary(decoded)) => {
                if self.encoding != Encoding::Etf {
                    return close(self, WebSocketCloseError::InvalidPayload);
                }
                match decoded {
                    Some(message) => self.handle_message(message, answers, now),
                    None => close(self, WebSocketCloseError::InvalidPayload),
                }
            },
            Ok(Frame::Close) => {
                self.closed = true;
                done1(Effect::CloseEcho)
            },
            Ok(Frame::Other) => done0(),
        }
    }
}

} // verus!
