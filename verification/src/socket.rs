//! The registry: who is connected and who hears of what.

use std::collections::{HashMap, HashSet};
use vstd::prelude::*;
use vstd::std_specs::hash::*;
use vstd::std_specs::iter::IteratorSpec;
use vstd::string::*;
use crate::error::{error_of, WebSocketError};
use crate::messages::{
    dispatch_envelope, reply_envelope, AuthorizationMessage, DisconnectionMessage, DispatchEvent,
    DispatchMessage, WebSocketMessage,
};
use crate::payload::WebSocketMessageData;
use crate::registry::{delivered, reached, recipients, Registry};
use crate::snowflake::{generate, IdGenerator};

verus! {

broadcast use vstd::std_specs::hash::group_hash_axioms;

/// The place of an event's family among the families.
spec fn slot(event: DispatchEvent) -> int {
    match event {
        DispatchEvent::UserUpdate { .. } => 0,
        DispatchEvent::UserMeUpdate { .. } => 1,
        DispatchEvent::GreenhouseUpdate { .. } => 2,
        DispatchEvent::GreenhouseCreate { .. } => 3,
        DispatchEvent::GreenhouseDelete { .. } => 4,
        DispatchEvent::DeviceUpdate { .. } => 5,
        DispatchEvent::DeviceRecordsUpdate { .. } => 6,
        DispatchEvent::DeviceRecordsAverageUpdate { range, .. } => 7 + range.number(),
    }
}

/// The id that an event key is about.
spec fn ident(event: DispatchEvent) -> i64 {
    match event {
        DispatchEvent::UserUpdate { id } => id,
        DispatchEvent::UserMeUpdate { id } => id,
        DispatchEvent::GreenhouseUpdate { id } => id,
        DispatchEvent::GreenhouseCreate { owner_id, .. } => owner_id,
        DispatchEvent::GreenhouseDelete { owner_id, .. } => owner_id,
        DispatchEvent::DeviceUpdate { id } => id,
        DispatchEvent::DeviceRecordsUpdate { device_id } => device_id,
        DispatchEvent::DeviceRecordsAverageUpdate { device_id, .. } => device_id,
    }
}

/// The number under which an event key is filed: the family in the high
/// bits, the id, moved into the naturals, in the low 64.
spec fn code(event: DispatchEvent) -> u128 {
    (slot(event) * 0x1_0000_0000_0000_0000 + (ident(event) + 0x8000_0000_0000_0000)) as u128
}

/// Two event keys filed under one number are one key.
proof fn lemma_code_tells_keys_apart(a: DispatchEvent, b: DispatchEvent)
    requires
        a.stable(),
        b.stable(),
        code(a) == code(b),
    ensures
        a == b,
{
    let low_a = ident(a) + 0x8000_0000_0000_0000;
    let low_b = ident(b) + 0x8000_0000_0000_0000;
    assert(0 <= low_a < 0x1_0000_0000_0000_0000);
    assert(0 <= low_b < 0x1_0000_0000_0000_0000);
    assert(0 <= slot(a) <= 12);
    assert(0 <= slot(b) <= 12);
    assert(slot(a) == slot(b));
    assert(ident(a) == ident(b));
}

fn code_of(event: &DispatchEvent) -> (k: u128)
    ensures
        k == code(*event),
{
    let (family, id): (u128, i64) = match event {
        DispatchEvent::UserUpdate { id } => (0, *id),
        DispatchEvent::UserMeUpdate { id } => (1, *id),
        DispatchEvent::GreenhouseUpdate { id } => (2, *id),
        DispatchEvent::GreenhouseCreate { owner_id, .. } => (3, *owner_id),
        DispatchEvent::GreenhouseDelete { owner_id, .. } => (4, *owner_id),
        DispatchEvent::DeviceUpdate { id } => (5, *id),
        DispatchEvent::DeviceRecordsUpdate { device_id } => (6, *device_id),
        DispatchEvent::DeviceRecordsAverageUpdate { device_id, range } => (
            7 + range.to_number() as u128,
            *device_id,
        ),
    };
    let low: u128 = (id as i128 + 0x8000_0000_0000_0000i128) as u128;
    family * 0x1_0000_0000_0000_0000u128 + low
}

/// Adding a new item to a list without repeats leaves no repeats.
proof fn lemma_push_to_distinct<T>(s: Seq<T>, x: T)
    requires
        s.no_duplicates(),
        !s.contains(x),
    ensures
        s.push(x).no_duplicates(),
        forall|y: T| #[trigger] s.push(x).contains(y) <==> (s.contains(y) || y == x),
{
    let r = s.push(x);
    assert forall|y: T| #[trigger] r.contains(y) <==> (s.contains(y) || y == x) by {
        if r.contains(y) {
            let j = choose|j: int| 0 <= j < r.len() && r[j] == y;
            if j < s.len() {
                assert(s[j] == y);
            }
        }
        if s.contains(y) {
            let j = choose|j: int| 0 <= j < s.len() && s[j] == y;
            assert(r[j] == y);
        }
        if y == x {
            assert(r[s.len() as int] == y);
        }
    }
    assert forall|i: int, j: int| 0 <= i < r.len() && 0 <= j < r.len() && i != j implies r[i]
        != r[j] by {
        if i < s.len() && j < s.len() {
        } else if i < s.len() {
            assert(s.contains(r[i]));
        } else {
            assert(s.contains(r[j]));
        }
    }
}

fn holds_event(list: &Vec<DispatchEvent>, event: &DispatchEvent) -> (r: bool)
    ensures
        r == list@.contains(*event),
{
    let mut i: usize = 0;
    while i < list.len()
        invariant
            i <= list.len(),
            forall|j: int| 0 <= j < i ==> list@[j] != *event,
        decreases list.len() - i,
    {
        if list[i] == *event {
            return true;
        }
        i += 1;
    }
    false
}

/// One entry of the subscription index: an event key and the set of those
/// who hear of it.
#[derive(Debug)]
pub struct Subscription {
    event: DispatchEvent,
    subscribers: HashSet<i64>,
}

/// The registry: the one owner of the connection table and of the
/// subscription index.
#[derive(Debug)]
pub struct Socket {
    connections: HashMap<i64, Vec<DispatchEvent>>,
    subscriptions: HashMap<u128, Subscription>,
}

/// Whether `event` stands among the first `count` of `events`.
spec fn among_first(events: Seq<DispatchEvent>, count: int, event: DispatchEvent) -> bool {
    exists|j: int| 0 <= j < count && events[j] == event
}

/// The text of the reply to a successful authorization.
pub open spec fn authorized_text() -> Seq<char> {
    "Successfully authorized"@
}

/// The text of the error for a connection that the table does not hold.
pub open spec fn missing_connection_text() -> Seq<char> {
    "Couldn't find a connection"@
}

impl View for Socket {
    type V = Registry;

    closed spec fn view(&self) -> Registry {
        Registry {
            connected: self.connections@.dom(),
            subscribed: Set::new(|p: (i64, DispatchEvent)| self.listed(p.0, p.1)),
        }
    }
}

impl Socket {
    /// The table files `event` under `connection_id`.
    spec fn listed(&self, connection_id: i64, event: DispatchEvent) -> bool {
        self.connections@.contains_key(connection_id) && self.connections@[connection_id]@.contains(
            event,
        )
    }

    /// The index files `connection_id` under `event`.
    spec fn indexed(&self, connection_id: i64, event: DispatchEvent) -> bool {
        self.subscriptions@.contains_key(code(event)) && self.subscriptions@[code(
            event,
        )].subscribers@.contains(connection_id)
    }

    spec fn table_wf(&self) -> bool {
        forall|c: i64| #[trigger]
            self.connections@.contains_key(c) ==> {
                &&& self.connections@[c]@.no_duplicates()
                &&& forall|e: DispatchEvent| #[trigger]
                    self.connections@[c]@.contains(e) ==> e.stable()
            }
    }

    spec fn index_wf(&self) -> bool {
        forall|k: u128| #[trigger]
            self.subscriptions@.contains_key(k) ==> {
                &&& self.subscriptions@[k].event.stable()
                &&& code(self.subscriptions@[k].event) == k
                &&& !self.subscriptions@[k].subscribers@.is_empty()
            }
    }

    /// The table and the index agree, no connection's list of events holds
    /// an event twice, and no entry of the index is empty.
    pub closed spec fn wf(&self) -> bool {
        &&& self.table_wf()
        &&& self.index_wf()
        &&& forall|c: i64, e: DispatchEvent|
            #![trigger self.listed(c, e)]
            #![trigger self.indexed(c, e)]
            e.stable() ==> (self.listed(c, e) <==> self.indexed(c, e))
    }

    /// A well-formed registry has a valid model.
    pub proof fn lemma_view_valid(&self)
        requires
            self.wf(),
        ensures
            self@.valid(),
    {
        assert forall|c: i64, e: DispatchEvent| #[trigger]
            self@.subscribed.contains((c, e)) implies self@.connected.contains(c) && e.stable() by {
            assert(self.listed(c, e));
        }
    }

    /// The empty registry.
    pub fn new() -> (r: Socket)
        ensures
            r.wf(),
            r@ == Registry::empty(),
    {
        let r = Socket { connections: HashMap::new(), subscriptions: HashMap::new() };
        assert(r@.subscribed =~= Set::empty());
        assert(r@.connected =~= Set::empty());
        r
    }

    /// Whether the connection is in the table.
    pub fn is_connected(&self, connection_id: i64) -> (r: bool)
        ensures
            r == self@.connected.contains(connection_id),
    {
        self.connections.contains_key(&connection_id)
    }

    /// Whether the connection hears of the event's key.
    pub fn is_subscribed(&self, connection_id: i64, event: &DispatchEvent) -> (r: bool)
        ensures
            r == self@.subscribed.contains((connection_id, event.key())),
    {
        let key = event.normalized();
        match self.connections.get(&connection_id) {
            Some(events) => {
                let r = holds_event(events, &key);
                assert(r == self.listed(connection_id, key));
                r
            },
            None => {
                assert(!self.listed(connection_id, key));
                false
            },
        }
    }

    /// The connections that hear of the event's key, each once.
    pub fn subscribers(&self, event: &DispatchEvent) -> (r: Vec<i64>)
        requires
            self.wf(),
        ensures
            r@.no_duplicates(),
            r@.to_set() == self@.subscribers(event.key()),
    {
        let key = event.normalized();
        let k = code_of(&key);
        match self.subscriptions.get(&k) {
            Some(entry) => {
                let mut r: Vec<i64> = Vec::new();
                for id in listed: entry.subscribers.iter()
                    invariant
                        r@.len() == listed.index(),
                        forall|j: int| 0 <= j < r@.len() ==> r@[j] == *listed.seq()[j],
                {
                    r.push(*id);
                }
                proof {
                    assert(r@ =~= spec_hash_keys_iter(&entry.subscribers).remaining().unref());
                    lemma_code_tells_keys_apart(entry.event, key);
                    assert forall|c: i64| r@.to_set().contains(c) <==> self@.subscribers(
                        key,
                    ).contains(c) by {
                        assert(r@.contains(c) <==> self.indexed(c, key));
                        assert(self.listed(c, key) <==> self.indexed(c, key));
                    }
                    assert(r@.to_set() =~= self@.subscribers(key));
                }
                r
            },
            None => {
                let r: Vec<i64> = Vec::new();
                proof {
                    assert forall|c: i64| !self@.subscribers(key).contains(c) by {
                        assert(!self.indexed(c, key));
                        assert(self.listed(c, key) <==> self.indexed(c, key));
                    }
                    assert(r@.to_set() =~= self@.subscribers(key));
                }
                r
            },
        }
    }

    /// Whether the index holds an entry for the event's key. It does
    /// exactly when somebody hears of it.
    pub fn has_entry(&self, event: &DispatchEvent) -> (r: bool)
        requires
            self.wf(),
        ensures
            r == self@.index().contains_key(event.key()),
    {
        let key = event.normalized();
        let k = code_of(&key);
        let r = self.subscriptions.contains_key(&k);
        proof {
            if r {
                let entry = self.subscriptions@[k];
                lemma_code_tells_keys_apart(entry.event, key);
                assert(!(entry.subscribers@ =~= Set::<i64>::empty()));
                let c = choose|c: i64| entry.subscribers@.contains(c);
                assert(entry.subscribers@.contains(c));
                assert(self.indexed(c, key));
                assert(self.listed(c, key));
                assert(self@.subscribed.contains((c, key)));
            } else {
                assert forall|c: i64| !self@.subscribed.contains((c, key)) by {
                    assert(!self.indexed(c, key));
                    assert(self.listed(c, key) <==> self.indexed(c, key));
                }
            }
        }
        r
    }

    /// Takes `connection_id` out of the index entry of the key `event`, and
    /// the entry out of the index if nobody is left in it.
    fn unfile(&mut self, event: &DispatchEvent, connection_id: i64)
        requires
            old(self).index_wf(),
            event.stable(),
        ensures
            final(self).index_wf(),
            final(self).connections == old(self).connections,
            forall|c: i64, e: DispatchEvent|
                e.stable() ==> (#[trigger] final(self).indexed(c, e) <==> (old(self).indexed(c, e)
                    && !(c == connection_id && e == *event))),
    {
        let k = code_of(event);
        proof {
            assert forall|e: DispatchEvent| e.stable() && code(e) == k implies e == *event by {
                lemma_code_tells_keys_apart(e, *event);
            }
        }
        match self.subscriptions.remove(&k) {
            Some(entry) => {
                let mut entry = entry;
                let ghost before = entry.subscribers@;
                entry.subscribers.remove(&connection_id);
                let ghost after = entry.subscribers@;
                assert(forall|c: i64| #[trigger]
                    after.contains(c) <==> (before.contains(c) && c != connection_id));
                if !entry.subscribers.is_empty() {
                    self.subscriptions.insert(k, entry);
                }
                assert forall|c: i64, e: DispatchEvent| e.stable() implies (#[trigger] self.indexed(
                    c,
                    e,
                ) <==> (old(self).indexed(c, e) && !(c == connection_id && e == *event))) by {
                    if code(e) == k {
                        assert(e == *event);
                        assert(old(self).indexed(c, e) <==> before.contains(c));
                        if !after.is_empty() {
                            assert(self.indexed(c, e) <==> after.contains(c));
                        } else {
                            assert(!self.indexed(c, e));
                            assert(!after.contains(c));
                        }
                    } else {
                        assert(self.subscriptions@.contains_key(code(e))
                            == old(self).subscriptions@.contains_key(code(e)));
                    }
                }
            },
            None => {
                assert(self.subscriptions@ =~= old(self).subscriptions@);
            },
        }
    }

    /// Files the key `event` under `connection_id` and the other way
    /// round, if the connection is in the table and does not hear of the
    /// event yet.
    fn file(&mut self, event: &DispatchEvent, connection_id: i64)
        requires
            old(self).wf(),
            event.stable(),
        ensures
            final(self).wf(),
            final(self)@ == old(self)@.subscribe(*event, connection_id),
    {
        let listed = match self.connections.get(&connection_id) {
            Some(events) => holds_event(events, event),
            None => {
                return ;
            },
        };
        if listed {
            assert(self.listed(connection_id, *event));
            assert(self@.subscribed.contains((connection_id, *event)));
            assert(self@.subscribed.insert((connection_id, *event)) =~= self@.subscribed);
            return ;
        }
        assert(!old(self).listed(connection_id, *event));
        assert(!old(self).indexed(connection_id, *event));
        let k = code_of(event);
        proof {
            assert forall|e: DispatchEvent| e.stable() && code(e) == k implies e == *event by {
                lemma_code_tells_keys_apart(e, *event);
            }
        }
        let taken = self.connections.remove(&connection_id);
        let mut events = taken.unwrap();
        let ghost events_before = events@;
        events.push(*event);
        proof {
            lemma_push_to_distinct(events_before, *event);
        }
        self.connections.insert(connection_id, events);
        match self.subscriptions.remove(&k) {
            Some(entry) => {
                let mut entry = entry;
                proof {
                    lemma_code_tells_keys_apart(entry.event, *event);
                }
                entry.subscribers.insert(connection_id);
                assert(entry.subscribers@.contains(connection_id));
                self.subscriptions.insert(k, entry);
            },
            None => {
                let mut subscribers: HashSet<i64> = HashSet::new();
                subscribers.insert(connection_id);
                assert(subscribers@.contains(connection_id));
                self.subscriptions.insert(k, Subscription { event: *event, subscribers });
            },
        }
        proof {
            assert forall|c: i64, e: DispatchEvent| e.stable() implies (#[trigger] self.indexed(
                c,
                e,
            ) <==> (old(self).indexed(c, e) || (c == connection_id && e == *event))) by {
                if code(e) == k {
                    assert(e == *event);
                } else {
                    assert(self.subscriptions@.contains_key(code(e))
                        == old(self).subscriptions@.contains_key(code(e)));
                }
            }
            assert forall|c: i64, e: DispatchEvent| (#[trigger] self.listed(c, e) <==> (old(
                self,
            ).listed(c, e) || (c == connection_id && e == *event))) by {
                if c == connection_id {
                    assert(self.connections@[c]@ == events_before.push(*event));
                } else {
                    assert(self.connections@.contains_key(c) == old(
                        self,
                    ).connections@.contains_key(c));
                }
            }
            assert(self.table_wf()) by {
                assert forall|c: i64| #[trigger] self.connections@.contains_key(c) implies {
                    &&& self.connections@[c]@.no_duplicates()
                    &&& forall|e: DispatchEvent| #[trigger]
                        self.connections@[c]@.contains(e) ==> e.stable()
                } by {
                    if c != connection_id {
                        assert(old(self).connections@.contains_key(c));
                    } else {
                        assert(old(self).connections@.contains_key(c));
                    }
                }
            }
            assert(self.index_wf());
            assert(self@.connected =~= old(self)@.connected);
            assert(self@.subscribed =~= old(self)@.subscribed.insert((connection_id, *event)));
        }
    }

    /// Removes a connection: out of every index entry that holds it, and
    /// out of the table. A connection that the table does not hold is an
    /// error that changes nothing, so that a second removal does no harm.
    pub fn disconnect(&mut self, message: &DisconnectionMessage) -> (r: Result<
        (),
        WebSocketError,
    >)
        requires
            old(self).wf(),
        ensures
            final(self).wf(),
            match r {
                Ok(()) => {
                    &&& old(self)@.connected.contains(message.connection_id)
                    &&& final(self)@ == old(self)@.disconnect(message.connection_id)
                },
                Err(error) => {
                    &&& !old(self)@.connected.contains(message.connection_id)
                    &&& final(self)@ == old(self)@
                    &&& error@ == error_of(500, None, missing_connection_text(), None)
                },
            },
    {
        let connection_id = message.connection_id;
        if !self.connections.contains_key(&connection_id) {
            return Err(
                WebSocketError::new(
                    500,
                    None,
                    String::from_str("Couldn't find a connection"),
                    None,
                ),
            );
        }
        let taken = self.connections.remove(&connection_id);
        let events = taken.unwrap();
        let mut i: usize = 0;
        while i < events.len()
            invariant
                i <= events.len(),
                old(self).wf(),
                old(self).connections@.contains_key(connection_id),
                events@ == old(self).connections@[connection_id]@,
                self.connections@ == old(self).connections@.remove(connection_id),
                self.index_wf(),
                forall|c: i64, e: DispatchEvent|
                    e.stable() ==> (#[trigger] self.indexed(c, e) <==> (old(self).indexed(c, e)
                        && !(c == connection_id && among_first(events@, i as int, e)))),
            decreases events.len() - i,
        {
            let ghost mid = *self;
            assert(events@.contains(events@[i as int]));
            self.unfile(&events[i], connection_id);
            proof {
                assert forall|c: i64, e: DispatchEvent| e.stable() implies (#[trigger] self.indexed(
                    c,
                    e,
                ) <==> (old(self).indexed(c, e) && !(c == connection_id && among_first(
                    events@,
                    i + 1,
                    e,
                )))) by {
                    assert(mid.indexed(c, e) <==> (old(self).indexed(c, e) && !(c == connection_id
                        && among_first(events@, i as int, e))));
                    if among_first(events@, i as int, e) {
                        let j = choose|j: int| 0 <= j < i && events@[j] == e;
                        assert(0 <= j < i + 1 && events@[j] == e);
                    }
                    if e == events@[i as int] {
                        assert(0 <= i < i + 1 && events@[i as int] == e);
                    }
                    if among_first(events@, i + 1, e) && e != events@[i as int] {
                        let j = choose|j: int| 0 <= j < i + 1 && events@[j] == e;
                        assert(0 <= j < i && events@[j] == e);
                    }
                }
            }
            i += 1;
        }
        proof {
            assert forall|c: i64, e: DispatchEvent| (#[trigger] self.listed(c, e) <==> (old(
                self,
            ).listed(c, e) && c != connection_id)) by {
                if c != connection_id {
                    assert(self.connections@.contains_key(c) == old(
                        self,
                    ).connections@.contains_key(c));
                }
            }
            assert forall|c: i64, e: DispatchEvent|
                #![trigger self.listed(c, e)]
                #![trigger self.indexed(c, e)]
                e.stable() implies (self.listed(c, e) <==> self.indexed(c, e)) by {
                assert(old(self).listed(c, e) <==> old(self).indexed(c, e));
                if c == connection_id && old(self).listed(c, e) {
                    let j = choose|j: int| 0 <= j < events@.len() && events@[j] == e;
                    assert(among_first(events@, i as int, e));
                }
            }
            assert(self.table_wf()) by {
                assert forall|c: i64| #[trigger] self.connections@.contains_key(c) implies {
                    &&& self.connections@[c]@.no_duplicates()
                    &&& forall|e: DispatchEvent| #[trigger]
                        self.connections@[c]@.contains(e) ==> e.stable()
                } by {
                    assert(old(self).connections@.contains_key(c));
                }
            }
            assert(self@.connected =~= old(self)@.disconnect(connection_id).connected);
            assert(self@.subscribed =~= old(self)@.disconnect(connection_id).subscribed) by {
                assert forall|p: (i64, DispatchEvent)|
                    self@.subscribed.contains(p) <==> old(self)@.disconnect(
                        connection_id,
                    ).subscribed.contains(p) by {
                    assert(self.listed(p.0, p.1) <==> (old(self).listed(p.0, p.1) && p.0
                        != connection_id));
                }
            }
        }
        Ok(())
    }

    /// Puts a connection into the table, subscribed to nothing, and builds
    /// the reply that tells the peer so. This cannot fail.
    pub fn authorize(&mut self, message: &AuthorizationMessage) -> (r: WebSocketMessage)
        requires
            old(self).wf(),
        ensures
            final(self).wf(),
            final(self)@ == old(self)@.authorize(message.connection_id),
            r@ == reply_envelope(message.id, message.connection_id, 200, authorized_text()),
    {
        let connection_id = message.connection_id;
        let gone = self.disconnect(&DisconnectionMessage { connection_id });
        let ghost mid = *self;
        proof {
            assert forall|e: DispatchEvent| e.stable() implies !mid.indexed(connection_id, e) by {
                assert(mid.listed(connection_id, e) <==> mid.indexed(connection_id, e));
                if mid.listed(connection_id, e) {
                    assert(mid@.subscribed.contains((connection_id, e)));
                    old(self).lemma_view_valid();
                }
            }
        }
        self.connections.insert(connection_id, Vec::new());
        proof {
            assert forall|c: i64, e: DispatchEvent| (#[trigger] self.listed(c, e) <==> (mid.listed(
                c,
                e,
            ) && c != connection_id)) by {
                if c != connection_id {
                    assert(self.connections@.contains_key(c) == mid.connections@.contains_key(c));
                }
            }
            assert forall|c: i64, e: DispatchEvent|
                #![trigger self.listed(c, e)]
                #![trigger self.indexed(c, e)]
                e.stable() implies (self.listed(c, e) <==> self.indexed(c, e)) by {
                assert(mid.listed(c, e) <==> mid.indexed(c, e));
                assert(self.indexed(c, e) == mid.indexed(c, e));
            }
            assert(self.table_wf()) by {
                assert forall|c: i64| #[trigger] self.connections@.contains_key(c) implies {
                    &&& self.connections@[c]@.no_duplicates()
                    &&& forall|e: DispatchEvent| #[trigger]
                        self.connections@[c]@.contains(e) ==> e.stable()
                } by {
                    if c != connection_id {
                        assert(mid.connections@.contains_key(c));
                    }
                }
            }
            assert(self@.connected =~= old(self)@.authorize(connection_id).connected);
            assert(self@.subscribed =~= old(self)@.authorize(connection_id).subscribed) by {
                assert forall|p: (i64, DispatchEvent)|
                    self@.subscribed.contains(p) <==> old(self)@.authorize(
                        connection_id,
                    ).subscribed.contains(p) by {
                    assert(self.listed(p.0, p.1) <==> (mid.listed(p.0, p.1) && p.0
                        != connection_id));
                    assert(mid@.subscribed.contains(p) <==> mid.listed(p.0, p.1));
                }
            }
        }
        WebSocketMessage::reply(message.id, connection_id, 200, "Successfully authorized")
    }

    /// Delivers the state `data` behind an event.
    ///
    /// Without new subscribers the envelope goes to every connection that
    /// hears of the event's key, once each. With new subscribers each of
    /// them that is in the table subscribes to the key, if it has not yet,
    /// and gets one envelope of its own. Empty state is delivered to
    /// nobody, but subscribes all the same. The envelopes carry the key,
    /// never the one-shot id.
    pub fn deliver(
        &mut self,
        message: &DispatchMessage,
        data: &WebSocketMessageData,
        generator: &mut IdGenerator,
    ) -> (deliveries: Vec<WebSocketMessage>)
        requires
            old(self).wf(),
        ensures
            final(self).wf(),
            final(self)@ == old(self)@.subscribe_each(message.event.key(), message.newcomers()),
            delivered(old(self)@, *message, data@, deliveries@),
            final(generator).machine() == old(generator).machine(),
            final(generator).node() == old(generator).node(),
    {
        let key = message.event.normalized();
        let mut deliveries: Vec<WebSocketMessage> = Vec::new();
        let broadcast = match &message.new_subscribers {
            Some(ids) => ids.len() == 0,
            None => true,
        };
        if broadcast {
            if data.is_none() {
                return deliveries;
            }
            let ids = self.subscribers(&key);
            let mut i: usize = 0;
            while i < ids.len()
                invariant
                    i <= ids.len(),
                    deliveries@.len() == i,
                    recipients(deliveries@) == ids@.subrange(0, i as int),
                    forall|j: int|
                        0 <= j < deliveries@.len() ==> (#[trigger] deliveries@[j])@
                            == dispatch_envelope(
                            deliveries@[j].id,
                            deliveries@[j].connection_id,
                            key,
                            data@,
                        ),
                    generator.machine() == old(generator).machine(),
                    generator.node() == old(generator).node(),
                decreases ids.len() - i,
            {
                let id = generate(generator);
                let envelope = WebSocketMessage::dispatch(id, ids[i], key, data.clone());
                let ghost before = deliveries@;
                deliveries.push(envelope);
                assert(recipients(deliveries@) =~= ids@.subrange(0, i + 1));
                assert(forall|j: int| 0 <= j < before.len() ==> deliveries@[j] == before[j]);
                i += 1;
            }
            assert(ids@.subrange(0, ids@.len() as int) =~= ids@);
            return deliveries;
        }
        let ids = match &message.new_subscribers {
            Some(ids) => ids,
            None => {
                return deliveries;
            },
        };
        let empty = data.is_none();
        let mut i: usize = 0;
        while i < ids.len()
            invariant
                i <= ids.len(),
                ids@ == message.newcomers(),
                key == message.event.key(),
                key.stable(),
                empty == (data@ is Empty),
                self.wf(),
                self@ == old(self)@.subscribe_each(key, ids@.subrange(0, i as int)),
                self@.connected == old(self)@.connected,
                empty ==> deliveries@.len() == 0,
                !empty ==> recipients(deliveries@) == reached(
                    ids@.subrange(0, i as int),
                    old(self)@.connected,
                ),
                forall|j: int|
                    0 <= j < deliveries@.len() ==> (#[trigger] deliveries@[j])@
                        == dispatch_envelope(
                        deliveries@[j].id,
                        deliveries@[j].connection_id,
                        key,
                        data@,
                    ),
                generator.machine() == old(generator).machine(),
                generator.node() == old(generator).node(),
            decreases ids.len() - i,
        {
            let connection_id = ids[i];
            proof {
                assert(ids@.subrange(0, i + 1).drop_last() =~= ids@.subrange(0, i as int));
                assert(ids@.subrange(0, i + 1).last() == connection_id);
            }
            self.file(&key, connection_id);
            if !empty && self.is_connected(connection_id) {
                let id = generate(generator);
                let envelope = WebSocketMessage::dispatch(id, connection_id, key, data.clone());
                let ghost before = deliveries@;
                deliveries.push(envelope);
                assert(recipients(deliveries@) =~= recipients(before).push(connection_id));
                assert(forall|j: int| 0 <= j < before.len() ==> deliveries@[j] == before[j]);
            }
            i += 1;
        }
        assert(ids@.subrange(0, ids@.len() as int) =~= ids@);
        deliveries
    }

    /// The events that a connection subscribed to, each once, or an error
    /// for a connection that the table does not hold.
    pub fn get_connection(&self, id: &i64) -> (r: Result<&Vec<DispatchEvent>, WebSocketError>)
        requires
            self.wf(),
        ensures
            match r {
                Ok(events) => {
                    &&& self@.connected.contains(*id)
                    &&& events@.no_duplicates()
                    &&& events@.to_set() == self@.events(*id)
                },
                Err(error) => {
                    &&& !self@.connected.contains(*id)
                    &&& error@ == error_of(500, None, missing_connection_text(), None)
                },
            },
    {
        match self.connections.get(id) {
            Some(events) => {
                proof {
                    assert forall|e: DispatchEvent| events@.to_set().contains(e)
                        <==> self@.events(*id).contains(e) by {
                        assert(events@.contains(e) <==> self.listed(*id, e));
                    }
                    assert(events@.to_set() =~= self@.events(*id));
                }
                Ok(events)
            },
            None => Err(
                WebSocketError::new(
                    500,
                    None,
                    String::from_str("Couldn't find a connection"),
                    None,
                ),
            ),
        }
    }

    /// Hands back the envelope if its connection is in the table, so that
    /// it can be pushed there; an error if the connection is gone.
    pub fn route(&self, message: WebSocketMessage) -> (r: Result<WebSocketMessage, WebSocketError>)
        ensures
            match r {
                Ok(routed) => self@.connected.contains(message.connection_id) && routed == message,
                Err(error) => {
                    &&& !self@.connected.contains(message.connection_id)
                    &&& error@ == error_of(500, None, missing_connection_text(), None)
                },
            },
    {
        if self.connections.contains_key(&message.connection_id) {
            Ok(message)
        } else {
            Err(
                WebSocketError::new(
                    500,
                    None,
                    String::from_str("Couldn't find a connection"),
                    None,
                ),
            )
        }
    }
}

} // verus!
