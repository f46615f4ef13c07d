//! Envelopes, events and the messages that the actors send one another.

use vstd::prelude::*;
use vstd::string::*;
use crate::model::DeviceRecordsTimestampRange;
use crate::payload::{WebSocketMessageData, WebSocketMessageDataView};
use crate::text::{copy_optional_text, optional_text};

verus! {

/// What an envelope is for.
#[derive(Clone, Copy, Debug, PartialEq, Eq, Structural)]
pub enum Opcode {
    Dispatch,
    HeartBeat,
    Request,
    Response,
    Error,
    Authorize,
    Subscribe,
}

impl Default for Opcode {
    fn default() -> (r: Self)
        ensures
            r == Opcode::Response,
    {
        Opcode::Response
    }
}

impl Opcode {
    /// The number that stands for the opcode on the wire.
    pub open spec fn number(self) -> u8 {
        match self {
            Opcode::Dispatch => 0,
            Opcode::HeartBeat => 1,
            Opcode::Request => 2,
            Opcode::Response => 3,
            Opcode::Error => 4,
            Opcode::Authorize => 5,
            Opcode::Subscribe => 6,
        }
    }

    pub fn to_number(&self) -> (r: u8)
        ensures
            r == self.number(),
    {
        match self {
            Opcode::Dispatch => 0,
            Opcode::HeartBeat => 1,
            Opcode::Request => 2,
            Opcode::Response => 3,
            Opcode::Error => 4,
            Opcode::Authorize => 5,
            Opcode::Subscribe => 6,
        }
    }

    pub fn from_number(number: u8) -> (r: Option<Opcode>)
        ensures
            match r {
                Some(opcode) => opcode.number() == number,
                None => number > 6,
            },
    {
        if number == 0 {
            Some(Opcode::Dispatch)
        } else if number == 1 {
            Some(Opcode::HeartBeat)
        } else if number == 2 {
            Some(Opcode::Request)
        } else if number == 3 {
            Some(Opcode::Response)
        } else if number == 4 {
            Some(Opcode::Error)
        } else if number == 5 {
            Some(Opcode::Authorize)
        } else if number == 6 {
            Some(Opcode::Subscribe)
        } else {
            None
        }
    }
}

/// What a request asks to be done with the resource it names.
#[derive(Clone, Copy, Debug, PartialEq, Eq, Structural)]
pub enum Method {
    Get,
    Post,
    Patch,
    Delete,
}

/// A change that subscribers can ask to hear of, with the key under which
/// the current state is fetched. The creation and the deletion of a
/// greenhouse carry the greenhouse's id on their first delivery only; the
/// key that subscribers are filed under is the one without it.
#[derive(Clone, Copy, Debug, PartialEq, Eq, Hash, Structural)]
pub enum DispatchEvent {
    UserUpdate { id: i64 },
    UserMeUpdate { id: i64 },
    GreenhouseUpdate { id: i64 },
    GreenhouseCreate { id: Option<i64>, owner_id: i64 },
    GreenhouseDelete { id: Option<i64>, owner_id: i64 },
    DeviceUpdate { id: i64 },
    DeviceRecordsUpdate { device_id: i64 },
    DeviceRecordsAverageUpdate { device_id: i64, range: DeviceRecordsTimestampRange },
}

impl DispatchEvent {
    /// The key that the event is filed under: the event itself, without the
    /// one-shot id where it carries one.
    pub open spec fn key(self) -> DispatchEvent {
        match self {
            DispatchEvent::GreenhouseCreate { id, owner_id } => DispatchEvent::GreenhouseCreate {
                id: None,
                owner_id,
            },
            DispatchEvent::GreenhouseDelete { id, owner_id } => DispatchEvent::GreenhouseDelete {
                id: None,
                owner_id,
            },
            other => other,
        }
    }

    /// The one-shot id that the event carries, if any.
    pub open spec fn carried_id(self) -> Option<i64> {
        match self {
            DispatchEvent::GreenhouseCreate { id, owner_id } => id,
            DispatchEvent::GreenhouseDelete { id, owner_id } => id,
            _ => None,
        }
    }

    /// True when the event is its own key.
    pub open spec fn stable(self) -> bool {
        self.key() == self
    }

    /// Strips the one-shot id.
    pub fn normalized(&self) -> (r: DispatchEvent)
        ensures
            r == self.key(),
            r.stable(),
    {
        match self {
            DispatchEvent::GreenhouseCreate { id, owner_id } => DispatchEvent::GreenhouseCreate {
                id: None,
                owner_id: *owner_id,
            },
            DispatchEvent::GreenhouseDelete { id, owner_id } => DispatchEvent::GreenhouseDelete {
                id: None,
                owner_id: *owner_id,
            },
            other => *other,
        }
    }

    pub fn is_stable(&self) -> (r: bool)
        ensures
            r == self.stable(),
    {
        match self {
            DispatchEvent::GreenhouseCreate { id, owner_id } => id.is_none(),
            DispatchEvent::GreenhouseDelete { id, owner_id } => id.is_none(),
            _ => true,
        }
    }

    /// Normalizing twice changes nothing more, and two events of one family
    /// and owner share one key whatever ids they carry.
    pub proof fn lemma_key_is_stable(self)
        ensures
            self.key().key() == self.key(),
            self.key().carried_id() is None,
    {
    }
}

/// The unit that travels over a socket.
#[derive(Debug)]
pub struct WebSocketMessage {
    /// Ties a reply to its request.
    pub id: i64,
    /// The connection the envelope came from or goes to. Never on the wire.
    pub connection_id: i64,
    pub opcode: Opcode,
    pub event: Option<DispatchEvent>,
    pub method: Option<Method>,
    pub request: Option<String>,
    pub data: WebSocketMessageData,
}

/// Mathematical value of a [`WebSocketMessage`].
pub struct WebSocketMessageView {
    pub id: i64,
    pub connection_id: i64,
    pub opcode: Opcode,
    pub event: Option<DispatchEvent>,
    pub method: Option<Method>,
    pub request: Option<Seq<char>>,
    pub data: WebSocketMessageDataView,
}

impl View for WebSocketMessage {
    type V = WebSocketMessageView;

    open spec fn view(&self) -> WebSocketMessageView {
        WebSocketMessageView {
            id: self.id,
            connection_id: self.connection_id,
            opcode: self.opcode,
            event: self.event,
            method: self.method,
            request: optional_text(self.request),
            data: self.data@,
        }
    }
}

impl Clone for WebSocketMessage {
    fn clone(&self) -> (r: Self)
        ensures
            r@ == self@,
    {
        WebSocketMessage {
            id: self.id,
            connection_id: self.connection_id,
            opcode: self.opcode,
            event: self.event,
            method: self.method,
            request: copy_optional_text(&self.request),
            data: self.data.clone(),
        }
    }
}

impl Default for WebSocketMessage {
    fn default() -> (r: Self)
        ensures
            r@ == plain_envelope(0, 0, Opcode::Response, WebSocketMessageDataView::Empty),
    {
        WebSocketMessage {
            id: 0,
            connection_id: 0,
            opcode: Opcode::Response,
            event: None,
            method: None,
            request: None,
            data: WebSocketMessageData::Empty,
        }
    }
}

/// An envelope without event, method or request path.
pub open spec fn plain_envelope(
    id: i64,
    connection_id: i64,
    opcode: Opcode,
    data: WebSocketMessageDataView,
) -> WebSocketMessageView {
    WebSocketMessageView {
        id,
        connection_id,
        opcode,
        event: None,
        method: None,
        request: None,
        data,
    }
}

/// The reply to the request `id`: a code and a message.
pub open spec fn reply_envelope(id: i64, connection_id: i64, code: u32, message: Seq<char>)
    -> WebSocketMessageView {
    plain_envelope(
        id,
        connection_id,
        Opcode::Response,
        WebSocketMessageDataView::Response { code, message },
    )
}

/// The envelope that reports a failed request `id`.
pub open spec fn error_envelope(id: i64, connection_id: i64, code: u32, message: Seq<char>)
    -> WebSocketMessageView {
    plain_envelope(
        id,
        connection_id,
        Opcode::Error,
        WebSocketMessageDataView::Response { code, message },
    )
}

/// The envelope that carries the state behind `event` to a subscriber.
pub open spec fn dispatch_envelope(
    id: i64,
    connection_id: i64,
    event: DispatchEvent,
    data: WebSocketMessageDataView,
) -> WebSocketMessageView {
    WebSocketMessageView {
        id,
        connection_id,
        opcode: Opcode::Dispatch,
        event: Some(event),
        method: None,
        request: None,
        data,
    }
}

impl WebSocketMessage {
    /// Builds the reply to the request `id`.
    pub fn reply(id: i64, connection_id: i64, code: u32, message: &str) -> (r: WebSocketMessage)
        ensures
            r@ == reply_envelope(id, connection_id, code, message@),
    {
        WebSocketMessage {
            id,
            connection_id,
            opcode: Opcode::Response,
            event: None,
            method: None,
            request: None,
            data: WebSocketMessageData::Response { code, message: String::from_str(message) },
        }
    }

    /// Builds the envelope that reports a failed request `id`.
    pub fn failure(id: i64, connection_id: i64, code: u32, message: String) -> (r:
        WebSocketMessage)
        ensures
            r@ == error_envelope(id, connection_id, code, message@),
    {
        WebSocketMessage {
            id,
            connection_id,
            opcode: Opcode::Error,
            event: None,
            method: None,
            request: None,
            data: WebSocketMessageData::Response { code, message },
        }
    }

    /// Builds the envelope that carries `data` for `event` to a subscriber.
    pub fn dispatch(id: i64, connection_id: i64, event: DispatchEvent, data: WebSocketMessageData)
        -> (r: WebSocketMessage)
        ensures
            r@ == dispatch_envelope(id, connection_id, event, data@),
    {
        WebSocketMessage {
            id,
            connection_id,
            opcode: Opcode::Dispatch,
            event: Some(event),
            method: None,
            request: None,
            data,
        }
    }
}

/// A copy of a list of connection ids.
pub fn copy_ids(ids: &Vec<i64>) -> (r: Vec<i64>)
    ensures
        r@ == ids@,
{
    let mut copy: Vec<i64> = Vec::new();
    let mut i: usize = 0;
    while i < ids.len()
        invariant
            i <= ids.len(),
            copy@ == ids@.subrange(0, i as int),
        decreases ids.len() - i,
    {
        copy.push(ids[i]);
        assert(copy@ =~= ids@.subrange(0, i + 1));
        i += 1;
    }
    assert(ids@.subrange(0, ids.len() as int) =~= ids@);
    copy
}

/// The ids in an optional list of connection ids.
pub open spec fn optional_ids(ids: Option<Vec<i64>>) -> Option<Seq<i64>> {
    match ids {
        Some(ids) => Some(ids@),
        None => None,
    }
}

/// Asks the registry to deliver the state behind an event: to the given
/// connections, which thereby subscribe, or to all subscribers.
#[derive(Debug)]
pub struct DispatchMessage {
    pub event: DispatchEvent,
    pub new_subscribers: Option<Vec<i64>>,
}

/// Mathematical value of a [`DispatchMessage`].
pub struct DispatchMessageView {
    pub event: DispatchEvent,
    pub new_subscribers: Option<Seq<i64>>,
}

impl View for DispatchMessage {
    type V = DispatchMessageView;

    open spec fn view(&self) -> DispatchMessageView {
        DispatchMessageView {
            event: self.event,
            new_subscribers: optional_ids(self.new_subscribers),
        }
    }
}

impl Clone for DispatchMessage {
    fn clone(&self) -> (r: Self)
        ensures
            r@ == self@,
    {
        DispatchMessage {
            event: self.event,
            new_subscribers: match &self.new_subscribers {
                Some(ids) => Some(copy_ids(ids)),
                None => None,
            },
        }
    }
}

impl DispatchMessage {
    /// The ids that the message subscribes; none where it is a broadcast.
    pub open spec fn newcomers(self) -> Seq<i64> {
        match self.new_subscribers {
            Some(ids) => ids@,
            None => Seq::empty(),
        }
    }

    /// True when the message goes to all current subscribers.
    pub open spec fn broadcast(self) -> bool {
        self.newcomers().len() == 0
    }

    /// A delivery to all current subscribers of `event`.
    pub fn to_all(event: DispatchEvent) -> (r: DispatchMessage)
        ensures
            r@ == (DispatchMessageView { event, new_subscribers: None }),
    {
        DispatchMessage { event, new_subscribers: None }
    }

    /// A first delivery to `connection_id`, which subscribes to `event`.
    pub fn to_one(event: DispatchEvent, connection_id: i64) -> (r: DispatchMessage)
        ensures
            r@ == (DispatchMessageView { event, new_subscribers: Some(seq![connection_id]) }),
    {
        let mut ids: Vec<i64> = Vec::new();
        ids.push(connection_id);
        assert(ids@ =~= seq![connection_id]);
        DispatchMessage { event, new_subscribers: Some(ids) }
    }
}

/// Tells the registry that a connection has authenticated.
#[derive(Clone, Debug)]
pub struct AuthorizationMessage {
    /// The id of the request that authorized.
    pub id: i64,
    pub connection_id: i64,
    pub token: String,
}

/// Tells the registry that a connection is gone.
#[derive(Clone, Copy, Debug, PartialEq, Eq, Structural)]
pub struct DisconnectionMessage {
    pub connection_id: i64,
}

/// What travels over the message bus.
#[derive(Clone, Copy, Debug, PartialEq, Eq, Structural)]
pub enum AmqpPayload {
    DispatchData { device_id: i64 },
    RequestData { device_id: Option<i64>, greenhouse_id: Option<i64> },
    ChangeControllerState { device_id: i64, state: u8 },
    DispatchDevice { id: i64 },
    Ping,
}

impl Default for AmqpPayload {
    fn default() -> (r: Self)
        ensures
            r == AmqpPayload::Ping,
    {
        AmqpPayload::Ping
    }
}

/// A payload that arrived from the bus, on its way to the registry.
#[derive(Clone, Copy, Debug, PartialEq, Eq, Structural)]
pub struct DispatchAmqpMessage {
    pub payload: AmqpPayload,
}

/// A payload to be published, with the exchange and the routing key to
/// publish it under.
#[derive(Clone, Copy, Debug)]
pub struct AmqpPublisherMessage<'a> {
    pub exchange: Option<&'a str>,
    pub routing_key: Option<&'a str>,
    pub payload: AmqpPayload,
}

} // verus!
