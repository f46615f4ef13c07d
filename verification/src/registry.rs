//! The mathematical model of the registry and what holds of it.

use vstd::prelude::*;
use crate::messages::{dispatch_envelope, DispatchEvent, DispatchMessage, WebSocketMessage};
use crate::payload::WebSocketMessageDataView;

verus! {

/// The connections to which a list of envelopes goes, in order.
pub open spec fn recipients(deliveries: Seq<WebSocketMessage>) -> Seq<i64> {
    Seq::new(deliveries.len(), |i: int| deliveries[i].connection_id)
}

/// Those of `ids` that are in the table, in order and as often as they
/// are named.
pub open spec fn reached(ids: Seq<i64>, connected: Set<i64>) -> Seq<i64>
    decreases ids.len(),
{
    if ids.len() == 0 {
        Seq::empty()
    } else if connected.contains(ids.last()) {
        reached(ids.drop_last(), connected).push(ids.last())
    } else {
        reached(ids.drop_last(), connected)
    }
}

/// What a delivery of `data` for `message` hands out, given the registry
/// as it was before: nothing where the state is empty; else, for a
/// broadcast, one envelope to each subscriber of the key and none to
/// anybody else, and for a first delivery one envelope to each new
/// subscriber that is in the table. Every envelope is a dispatch of the
/// state under the event's key.
pub open spec fn delivered(
    before: Registry,
    message: DispatchMessage,
    data: WebSocketMessageDataView,
    deliveries: Seq<WebSocketMessage>,
) -> bool {
    &&& data is Empty ==> deliveries.len() == 0
    &&& forall|i: int|
        0 <= i < deliveries.len() ==> (#[trigger] deliveries[i])@ == dispatch_envelope(
            deliveries[i].id,
            deliveries[i].connection_id,
            message.event.key(),
            data,
        )
    &&& !(data is Empty) && message.broadcast() ==> {
        &&& recipients(deliveries).no_duplicates()
        &&& recipients(deliveries).to_set() == before.subscribers(message.event.key())
    }
    &&& !(data is Empty) && !message.broadcast() ==> recipients(deliveries) == reached(
        message.newcomers(),
        before.connected,
    )
}

/// How often `id` stands in `ids`.
pub open spec fn times(ids: Seq<i64>, id: i64) -> nat
    decreases ids.len(),
{
    if ids.len() == 0 {
        0
    } else if ids.last() == id {
        times(ids.drop_last(), id) + 1
    } else {
        times(ids.drop_last(), id)
    }
}

/// In a list without repeats everything stands once or not at all.
pub proof fn lemma_times_in_distinct(ids: Seq<i64>, id: i64)
    requires
        ids.no_duplicates(),
    ensures
        times(ids, id) == (if ids.contains(id) {
            1nat
        } else {
            0nat
        }),
    decreases ids.len(),
{
    if ids.len() > 0 {
        let rest = ids.drop_last();
        assert(rest.no_duplicates());
        lemma_times_in_distinct(rest, id);
        if ids.last() == id {
            assert(ids[ids.len() - 1] == id);
            if rest.contains(id) {
                let j = choose|j: int| 0 <= j < rest.len() && rest[j] == id;
                assert(ids[j] == id);
            }
        } else {
            if ids.contains(id) {
                let j = choose|j: int| 0 <= j < ids.len() && ids[j] == id;
                assert(rest[j] == id);
            }
            if rest.contains(id) {
                let j = choose|j: int| 0 <= j < rest.len() && rest[j] == id;
                assert(ids[j] == id);
            }
        }
    }
}

/// What the registry knows: which connections have authenticated, and which
/// of them hears of which event. The connection table and the subscription
/// index are the two readings of the one relation `subscribed`, so that
/// neither can say what the other does not.
pub struct Registry {
    pub connected: Set<i64>,
    pub subscribed: Set<(i64, DispatchEvent)>,
}

impl Registry {
    /// Only connections in the table subscribe, and only to event keys.
    pub open spec fn valid(self) -> bool {
        forall|c: i64, e: DispatchEvent| #[trigger]
            self.subscribed.contains((c, e)) ==> self.connected.contains(c) && e.stable()
    }

    /// The registry that knows nobody.
    pub open spec fn empty() -> Registry {
        Registry { connected: Set::empty(), subscribed: Set::empty() }
    }

    /// The connections that hear of `event`.
    pub open spec fn subscribers(self, event: DispatchEvent) -> Set<i64> {
        Set::new(|c: i64| self.subscribed.contains((c, event)))
    }

    /// The events that `connection_id` hears of.
    pub open spec fn events(self, connection_id: i64) -> Set<DispatchEvent> {
        Set::new(|e: DispatchEvent| self.subscribed.contains((connection_id, e)))
    }

    /// The connection table: each authenticated connection with the events
    /// it subscribed to.
    pub open spec fn table(self) -> Map<i64, Set<DispatchEvent>> {
        Map::new(|c: i64| self.connected.contains(c), |c: i64| self.events(c))
    }

    /// The subscription index: each event that anybody hears of, with those
    /// who do. An event that nobody hears of has no entry.
    pub open spec fn index(self) -> Map<DispatchEvent, Set<i64>> {
        Map::new(
            |e: DispatchEvent| exists|c: i64| self.subscribed.contains((c, e)),
            |e: DispatchEvent| self.subscribers(e),
        )
    }

    /// The registry without `connection_id` and without its subscriptions.
    pub open spec fn disconnect(self, connection_id: i64) -> Registry {
        Registry {
            connected: self.connected.remove(connection_id),
            subscribed: Set::new(
                |p: (i64, DispatchEvent)| self.subscribed.contains(p) && p.0 != connection_id,
            ),
        }
    }

    /// The registry with `connection_id` in the table, subscribed to nothing.
    pub open spec fn authorize(self, connection_id: i64) -> Registry {
        Registry {
            connected: self.connected.insert(connection_id),
            subscribed: Set::new(
                |p: (i64, DispatchEvent)| self.subscribed.contains(p) && p.0 != connection_id,
            ),
        }
    }

    /// The registry in which `connection_id` hears of the key `event`. A
    /// connection that is not in the table cannot subscribe.
    pub open spec fn subscribe(self, event: DispatchEvent, connection_id: i64) -> Registry {
        if self.connected.contains(connection_id) {
            Registry {
                connected: self.connected,
                subscribed: self.subscribed.insert((connection_id, event)),
            }
        } else {
            self
        }
    }

    /// The registry after each of `ids` subscribed to the key `event`, one
    /// after the other.
    pub open spec fn subscribe_each(self, event: DispatchEvent, ids: Seq<i64>) -> Registry
        decreases ids.len(),
    {
        if ids.len() == 0 {
            self
        } else {
            self.subscribe_each(event, ids.drop_last()).subscribe(event, ids.last())
        }
    }

    /// The index and the table say the same: a connection stands in the
    /// index under an event exactly when the event stands in the table under
    /// the connection.
    pub proof fn lemma_index_mirrors_table(self, connection_id: i64, event: DispatchEvent)
        requires
            self.valid(),
        ensures
            (self.index().contains_key(event) && self.index()[event].contains(connection_id)) <==> (
            self.table().contains_key(connection_id) && self.table()[connection_id].contains(
                event,
            )),
    {
    }

    /// No entry of the index is empty.
    pub proof fn lemma_index_entries_inhabited(self, event: DispatchEvent)
        requires
            self.index().contains_key(event),
        ensures
            exists|c: i64| self.index()[event].contains(c),
    {
        let c = choose|c: i64| self.subscribed.contains((c, event));
        assert(self.index()[event].contains(c));
    }

    /// Every step keeps the registry valid.
    pub proof fn lemma_steps_keep_valid(self, event: DispatchEvent, connection_id: i64)
        requires
            self.valid(),
        ensures
            self.disconnect(connection_id).valid(),
            self.authorize(connection_id).valid(),
            self.subscribe(event.key(), connection_id).valid(),
    {
        event.lemma_key_is_stable();
    }

    /// Subscribing a list keeps the registry valid and the table's
    /// connections the same.
    pub proof fn lemma_subscribe_each_keeps_valid(self, event: DispatchEvent, ids: Seq<i64>)
        requires
            self.valid(),
        ensures
            self.subscribe_each(event.key(), ids).valid(),
            self.subscribe_each(event.key(), ids).connected == self.connected,
        decreases ids.len(),
    {
        if ids.len() > 0 {
            self.lemma_subscribe_each_keeps_valid(event, ids.drop_last());
            self.subscribe_each(event.key(), ids.drop_last()).lemma_steps_keep_valid(
                event,
                ids.last(),
            );
        }
    }

    /// Who hears of what after a list subscribed: those who did before, and
    /// those of the list that are in the table, for the one key.
    pub proof fn lemma_subscribe_each_members(
        self,
        event: DispatchEvent,
        ids: Seq<i64>,
        connection_id: i64,
        other: DispatchEvent,
    )
        ensures
            self.subscribe_each(event, ids).connected == self.connected,
            self.subscribe_each(event, ids).subscribed.contains((connection_id, other)) <==> (
            self.subscribed.contains((connection_id, other)) || (other == event
                && self.connected.contains(connection_id) && ids.contains(connection_id))),
        decreases ids.len(),
    {
        if ids.len() > 0 {
            self.lemma_subscribe_each_members(event, ids.drop_last(), connection_id, other);
            let before = self.subscribe_each(event, ids.drop_last());
            assert(ids =~= ids.drop_last().push(ids.last()));
            assert(ids.contains(connection_id) <==> (ids.drop_last().contains(connection_id)
                || ids.last() == connection_id)) by {
                if ids.drop_last().contains(connection_id) {
                    let j = choose|j: int|
                        0 <= j < ids.drop_last().len() && ids.drop_last()[j] == connection_id;
                    assert(ids[j] == connection_id);
                }
                if ids.last() == connection_id {
                    assert(ids[ids.len() - 1] == connection_id);
                }
                if ids.contains(connection_id) {
                    let j = choose|j: int| 0 <= j < ids.len() && ids[j] == connection_id;
                    if j < ids.len() - 1 {
                        assert(ids.drop_last()[j] == connection_id);
                    }
                }
            }
        }
    }
    /// A connection that subscribes to an event hears of it: a later
    /// broadcast of the event, with state to tell, hands out exactly one
    /// envelope to that connection, exactly one to every other subscriber,
    /// and none to a connection that did not subscribe.
    pub proof fn lemma_broadcast_reaches_subscribers(
        self,
        event: DispatchEvent,
        connection_id: i64,
        message: DispatchMessage,
        data: WebSocketMessageDataView,
        deliveries: Seq<WebSocketMessage>,
        other: i64,
    )
        requires
            self.valid(),
            self.connected.contains(connection_id),
            message.event.key() == event.key(),
            message.broadcast(),
            !(data is Empty),
            delivered(self.subscribe(event.key(), connection_id), message, data, deliveries),
        ensures
            times(recipients(deliveries), connection_id) == 1,
            self.subscribe(event.key(), connection_id).subscribers(event.key()).contains(other)
                ==> times(recipients(deliveries), other) == 1,
            !self.subscribe(event.key(), connection_id).subscribers(event.key()).contains(other)
                ==> times(recipients(deliveries), other) == 0,
    {
        let after = self.subscribe(event.key(), connection_id);
        assert(after.subscribed.contains((connection_id, event.key())));
        assert(after.subscribers(event.key()).contains(connection_id));
        assert(recipients(deliveries).to_set().contains(connection_id));
        lemma_times_in_distinct(recipients(deliveries), connection_id);
        lemma_times_in_distinct(recipients(deliveries), other);
        assert(recipients(deliveries).contains(other) <==> recipients(
            deliveries,
        ).to_set().contains(other));
    }

    /// A broadcast after a connection is gone passes it by, whatever the
    /// event.
    pub proof fn lemma_broadcast_passes_the_gone(
        self,
        connection_id: i64,
        message: DispatchMessage,
        data: WebSocketMessageDataView,
        deliveries: Seq<WebSocketMessage>,
    )
        requires
            self.valid(),
            message.broadcast(),
            delivered(self.disconnect(connection_id), message, data, deliveries),
        ensures
            times(recipients(deliveries), connection_id) == 0,
    {
        let after = self.disconnect(connection_id);
        if data is Empty {
            assert(recipients(deliveries) =~= Seq::<i64>::empty());
        } else {
            assert(!after.subscribers(message.event.key()).contains(connection_id));
            lemma_times_in_distinct(recipients(deliveries), connection_id);
            assert(recipients(deliveries).contains(connection_id) <==> recipients(
                deliveries,
            ).to_set().contains(connection_id));
        }
    }

    /// A first delivery hands out one envelope for each time a connection
    /// is named, if the connection is in the table and there is state to
    /// tell, and none otherwise.
    pub proof fn lemma_first_delivery_once(
        self,
        connection_id: i64,
        message: DispatchMessage,
        data: WebSocketMessageDataView,
        deliveries: Seq<WebSocketMessage>,
    )
        requires
            message.newcomers() == seq![connection_id],
            delivered(self, message, data, deliveries),
        ensures
            deliveries.len() == (if self.connected.contains(connection_id) && !(data is Empty) {
                1nat
            } else {
                0nat
            }),
            deliveries.len() == 1 ==> deliveries[0].connection_id == connection_id,
    {
        let ids = seq![connection_id];
        assert(ids.drop_last() =~= Seq::<i64>::empty());
        assert(reached(ids.drop_last(), self.connected) =~= Seq::<i64>::empty());
        if !(data is Empty) {
            assert(!message.broadcast());
            assert(recipients(deliveries).len() == deliveries.len());
            if self.connected.contains(connection_id) {
                assert(recipients(deliveries)[0] == connection_id);
            }
        }
    }

    /// A broadcast leaves the registry as it is: it subscribes nobody.
    pub proof fn lemma_broadcast_changes_nothing(self, message: DispatchMessage)
        requires
            message.broadcast(),
        ensures
            self.subscribe_each(message.event.key(), message.newcomers()) == self,
    {
        assert(message.newcomers() =~= Seq::<i64>::empty());
    }

    /// Empty state is delivered to nobody, whoever was to get it.
    pub proof fn lemma_empty_state_is_not_delivered(
        self,
        message: DispatchMessage,
        deliveries: Seq<WebSocketMessage>,
    )
        requires
            delivered(self, message, WebSocketMessageDataView::Empty, deliveries),
        ensures
            deliveries.len() == 0,
    {
    }

    /// Naming a connection twice in one first delivery files it once: the
    /// registry is as after naming it once.
    pub proof fn lemma_subscribe_repeated(self, event: DispatchEvent, connection_id: i64)
        ensures
            self.subscribe_each(event.key(), seq![connection_id, connection_id])
                == self.subscribe(event.key(), connection_id),
    {
        let ids = seq![connection_id, connection_id];
        let key = event.key();
        assert(ids.drop_last() =~= seq![connection_id]);
        assert(ids.last() == connection_id);
        self.lemma_subscribe_twice(event, connection_id);
        let once = self.subscribe(key, connection_id);
        assert(self.subscribe_each(key, ids.drop_last()) == once);
        assert(once.subscribe(key, connection_id).subscribed =~= once.subscribed);
    }

    /// Subscribing touches one pair only: every other connection and every
    /// other event stands as it did.
    pub proof fn lemma_subscribe_touches_one_pair(
        self,
        event: DispatchEvent,
        connection_id: i64,
        other_connection: i64,
        other_event: DispatchEvent,
    )
        requires
            other_connection != connection_id || other_event != event.key(),
        ensures
            self.subscribe(event.key(), connection_id).connected == self.connected,
            self.subscribe(event.key(), connection_id).subscribed.contains(
                (other_connection, other_event),
            ) == self.subscribed.contains((other_connection, other_event)),
    {
    }

    /// Subscribing is idempotent: a second first-delivery of the same event
    /// to the same connection leaves the registry as the first left it, and
    /// each of the two reaches the connection once if it is in the table
    /// and never if it is not.
    pub proof fn lemma_subscribe_twice(self, event: DispatchEvent, connection_id: i64)
        ensures
            self.subscribe_each(event.key(), seq![connection_id]).subscribe_each(
                event.key(),
                seq![connection_id],
            ) == self.subscribe_each(event.key(), seq![connection_id]),
            self.subscribe_each(event.key(), seq![connection_id]) == self.subscribe(
                event.key(),
                connection_id,
            ),
            reached(seq![connection_id], self.connected) == (if self.connected.contains(
                connection_id,
            ) {
                seq![connection_id]
            } else {
                Seq::<i64>::empty()
            }),
            reached(
                seq![connection_id],
                self.subscribe_each(event.key(), seq![connection_id]).connected,
            ) == reached(seq![connection_id], self.connected),
    {
        let ids = seq![connection_id];
        let key = event.key();
        assert(ids.drop_last() =~= Seq::<i64>::empty());
        assert(ids.last() == connection_id);
        assert(self.subscribe_each(key, ids.drop_last()) == self);
        let once = self.subscribe(key, connection_id);
        assert(self.subscribe_each(key, ids) == once);
        assert(once.subscribe_each(key, ids.drop_last()) == once);
        assert(once.subscribe_each(key, ids) == once.subscribe(key, connection_id));
        assert(once.subscribe(key, connection_id).subscribed =~= once.subscribed);
        assert(reached(ids.drop_last(), self.connected) =~= Seq::<i64>::empty());
        assert(Seq::<i64>::empty().push(connection_id) =~= seq![connection_id]);
    }

    /// Once a connection is gone no event has it as a subscriber, so no
    /// later broadcast reaches it; the others hear what they heard before;
    /// and an event that only the gone connection heard of has no entry in
    /// the index any more.
    pub proof fn lemma_disconnect_forgets(self, connection_id: i64, event: DispatchEvent, other: i64)
        requires
            self.valid(),
        ensures
            !self.disconnect(connection_id).connected.contains(connection_id),
            !self.disconnect(connection_id).subscribers(event).contains(connection_id),
            other != connection_id ==> (self.disconnect(connection_id).subscribers(
                event,
            ).contains(other) <==> self.subscribers(event).contains(other)),
            self.disconnect(connection_id).index().contains_key(event) <==> (exists|c: i64|
                c != connection_id && self.subscribers(event).contains(c)),
            self.disconnect(connection_id).disconnect(connection_id) == self.disconnect(
                connection_id,
            ),
    {
        let after = self.disconnect(connection_id);
        if after.index().contains_key(event) {
            let c = choose|c: i64| after.subscribed.contains((c, event));
            assert(c != connection_id && self.subscribers(event).contains(c));
        }
        if exists|c: i64| c != connection_id && self.subscribers(event).contains(c) {
            let c = choose|c: i64| c != connection_id && self.subscribers(event).contains(c);
            assert(after.subscribed.contains((c, event)));
        }
        assert(after.disconnect(connection_id).connected =~= after.connected);
        assert(after.disconnect(connection_id).subscribed =~= after.subscribed);
    }

    /// The creation or deletion of a greenhouse is filed under one key,
    /// whichever id it carries: who subscribed through the event with one
    /// id, or with none, is a subscriber of the event with any other, and
    /// every entry of the index stands under a key without an id.
    pub proof fn lemma_one_key_per_family(
        self,
        first: DispatchEvent,
        later: DispatchEvent,
        ids: Seq<i64>,
        connection_id: i64,
    )
        requires
            self.valid(),
            first.key() == later.key(),
            ids.contains(connection_id),
            self.connected.contains(connection_id),
        ensures
            self.subscribe_each(first.key(), ids).subscribers(later.key()).contains(
                connection_id,
            ),
            forall|e: DispatchEvent| #[trigger]
                self.subscribe_each(first.key(), ids).index().contains_key(e) ==> e.stable()
                    && e.carried_id() is None,
    {
        self.lemma_subscribe_each_members(first.key(), ids, connection_id, later.key());
        self.lemma_subscribe_each_keeps_valid(first, ids);
        let after = self.subscribe_each(first.key(), ids);
        assert forall|e: DispatchEvent| #[trigger] after.index().contains_key(e) implies e.stable()
            && e.carried_id() is None by {
            let c = choose|c: i64| after.subscribed.contains((c, e));
            assert(after.subscribed.contains((c, e)));
            e.lemma_key_is_stable();
        }
    }

    /// Two creations, or two deletions, of greenhouses of one owner share
    /// their key.
    pub proof fn lemma_family_shares_key(owner_id: i64, first: Option<i64>, later: Option<i64>)
        ensures
            (DispatchEvent::GreenhouseCreate { id: first, owner_id }).key() == (
            DispatchEvent::GreenhouseCreate { id: later, owner_id }).key(),
            (DispatchEvent::GreenhouseDelete { id: first, owner_id }).key() == (
            DispatchEvent::GreenhouseDelete { id: later, owner_id }).key(),
    {
    }
}

} // verus!
