//! The bridge to the message bus: its topology, what it takes in and what it
//! publishes.

use vstd::prelude::*;
use vstd::string::*;
use crate::codec::decoded_payload;
use crate::messages::{AmqpPayload, AmqpPublisherMessage, DispatchAmqpMessage};
use crate::wire::Term;

verus! {

/// A queue bound to an exchange under a routing key.
#[derive(Clone, Copy, Debug)]
pub struct Binding {
    pub queue: &'static str,
    pub exchange: &'static str,
    pub routing_key: &'static str,
}

/// A consumer of the bridge: its name and the queue it reads.
#[derive(Clone, Copy, Debug)]
pub struct Consumer {
    pub name: &'static str,
    pub queue: &'static str,
}

/// What is handed to the bus for publication.
#[derive(Debug)]
pub struct Publication {
    pub exchange: String,
    pub routing_key: String,
    pub payload: Term,
}

/// The names of the two exchanges.
pub open spec fn exchange_names() -> Seq<Seq<char>> {
    seq!["data"@, "device"@]
}

/// The names of the four queues: readings requested, readings created,
/// a change of a controller's state asked for, and such a change made.
pub open spec fn queue_names() -> Seq<Seq<char>> {
    seq!["request-data"@, "dispatch-data"@, "change-controller-state"@, "dispatch-device"@]
}

/// The binding of each queue: its exchange and its routing key.
pub open spec fn binding_names() -> Seq<(Seq<char>, Seq<char>, Seq<char>)> {
    seq![
        ("request-data"@, "data"@, "data.request"@),
        ("dispatch-data"@, "data"@, "data.created"@),
        ("change-controller-state"@, "device"@, "device.controller.state.change"@),
        ("dispatch-device"@, "device"@, "device.controller.state.changed"@),
    ]
}

/// The names in a list of words.
pub open spec fn names(words: Seq<&'static str>) -> Seq<Seq<char>> {
    Seq::new(words.len(), |i: int| words[i]@)
}

/// The names in a list of bindings.
pub open spec fn bound_names(bindings: Seq<Binding>) -> Seq<(Seq<char>, Seq<char>, Seq<char>)> {
    Seq::new(
        bindings.len(),
        |i: int| (bindings[i].queue@, bindings[i].exchange@, bindings[i].routing_key@),
    )
}

/// The bridge between the message bus and the registry.
#[derive(Debug)]
pub struct AmqpClient;

impl AmqpClient {
    pub fn new() -> (r: AmqpClient) {
        AmqpClient
    }

    /// The exchanges to declare, all of them durable topic exchanges.
    pub fn exchanges() -> (r: Vec<&'static str>)
        ensures
            names(r@) == exchange_names(),
    {
        let mut r: Vec<&'static str> = Vec::new();
        r.push("data");
        r.push("device");
        assert(names(r@) =~= exchange_names());
        r
    }

    /// The queues to declare, all of them durable.
    pub fn queues() -> (r: Vec<&'static str>)
        ensures
            names(r@) == queue_names(),
    {
        let mut r: Vec<&'static str> = Vec::new();
        r.push("request-data");
        r.push("dispatch-data");
        r.push("change-controller-state");
        r.push("dispatch-device");
        assert(names(r@) =~= queue_names());
        r
    }

    /// The bindings to make: one for each queue, each to an exchange that
    /// is declared.
    pub fn bindings() -> (r: Vec<Binding>)
        ensures
            bound_names(r@) == binding_names(),
            r@.len() == queue_names().len(),
            forall|i: int|
                0 <= i < r@.len() ==> (#[trigger] r@[i]).queue@ == queue_names()[i]
                    && exchange_names().contains(r@[i].exchange@),
    {
        let mut r: Vec<Binding> = Vec::new();
        r.push(Binding { queue: "request-data", exchange: "data", routing_key: "data.request" });
        r.push(Binding { queue: "dispatch-data", exchange: "data", routing_key: "data.created" });
        r.push(
            Binding {
                queue: "change-controller-state",
                exchange: "device",
                routing_key: "device.controller.state.change",
            },
        );
        r.push(
            Binding {
                queue: "dispatch-device",
                exchange: "device",
                routing_key: "device.controller.state.changed",
            },
        );
        assert(bound_names(r@) =~= binding_names());
        assert(exchange_names()[0] == "data"@);
        assert(exchange_names()[1] == "device"@);
        r
    }

    /// The consumers that the bridge starts: one for each queue that brings
    /// news to the registry.
    pub fn consumers() -> (r: Vec<Consumer>)
        ensures
            r@.len() == 2,
            r@[0].name@ == "data-dispatcher"@,
            r@[0].queue@ == "dispatch-data"@,
            r@[1].name@ == "device-dispatcher"@,
            r@[1].queue@ == "dispatch-device"@,
    {
        let mut r: Vec<Consumer> = Vec::new();
        r.push(Consumer { name: "data-dispatcher", queue: "dispatch-data" });
        r.push(Consumer { name: "device-dispatcher", queue: "dispatch-device" });
        r
    }

    /// The tag under which a consumer registers with the bus.
    pub fn start_consumer(name: &str) -> (r: String)
        ensures
            r@ == "global-ws-"@ + name@,
    {
        String::from_str("global-ws-").concat(name)
    }

    /// What becomes of a delivery from the bus, read into a term where it
    /// could be read: a message for the registry if it holds a payload,
    /// nothing if it does not. The delivery is acknowledged either way.
    pub fn received(parsed: Option<&Term>) -> (r: Option<DispatchAmqpMessage>)
        ensures
            r == (match parsed {
                Some(term) => match decoded_payload(term@) {
                    Some(payload) => Some(DispatchAmqpMessage { payload }),
                    None => None,
                },
                None => None,
            }),
    {
        match parsed {
            Some(term) => match AmqpPayload::from_term(term) {
                Some(payload) => Some(DispatchAmqpMessage { payload }),
                None => None,
            },
            None => None,
        }
    }

    /// What is published for a message: the payload as a term, under the
    /// exchange and the routing key of the message, each empty where the
    /// message names none.
    pub fn handle(message: &AmqpPublisherMessage) -> (r: Publication)
        ensures
            r.exchange@ == (match message.exchange {
                Some(exchange) => exchange@,
                None => Seq::empty(),
            }),
            r.routing_key@ == (match message.routing_key {
                Some(routing_key) => routing_key@,
                None => Seq::empty(),
            }),
            r.payload@ == crate::codec::encoded_payload(message.payload),
    {
        let exchange = match message.exchange {
            Some(exchange) => String::from_str(exchange),
            None => String::new(),
        };
        let routing_key = match message.routing_key {
            Some(routing_key) => String::from_str(routing_key),
            None => String::new(),
        };
        Publication { exchange, routing_key, payload: message.payload.to_term() }
    }
}

/// What is published for a message. See [`AmqpClient::handle`].
pub fn publish(message: &AmqpPublisherMessage) -> (r: Publication)
    ensures
        r.exchange@ == (match message.exchange {
            Some(exchange) => exchange@,
            None => Seq::empty(),
        }),
        r.routing_key@ == (match message.routing_key {
            Some(routing_key) => routing_key@,
            None => Seq::empty(),
        }),
        r.payload@ == crate::codec::encoded_payload(message.payload),
{
    AmqpClient::handle(message)
}

} // verus!
