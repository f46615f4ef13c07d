//! Resolving the state behind an event and handing it to the registry.

use vstd::prelude::*;
use crate::exchange::{
    ask_average, ask_count, ask_device, ask_greenhouse, ask_time, ask_user_me, ask_user_public,
    asked_average, asked_count, asked_device, asked_greenhouse, asked_time, asked_user_me,
    asked_user_public, Answer, Effect, Progress, ProgressView, Query, QueryView,
    Step, StepView,
};
use crate::messages::{
    AmqpPayload, DispatchAmqpMessage, DispatchEvent, DispatchMessage, DispatchMessageView,
    WebSocketMessage,
};
use crate::model::{DeviceRecordsAverage, DeviceRecordsTimestampRange};
use crate::numbers::F64Bits;
use crate::payload::{
    device_body, greenhouse_body, user_me_body, user_public_body, WebSocketMessageData,
    WebSocketMessageDataView,
};
use crate::snowflake::IdGenerator;
use crate::registry::delivered;
use crate::socket::Socket;
use crate::templates::WebSocketErrorTemplate;

verus! {

/// The latest reading that the answer holds, if it holds one. A device
/// without readings has none, so a failed lookup counts as none.
pub open spec fn latest_reading(answers: Seq<Answer>, at: int) -> Option<F64Bits> {
    match answers[at] {
        Answer::DeviceRecord(record) => Some(record.data),
        _ => None,
    }
}

/// The averages over the first `count` windows of a range, read from the
/// answers from `at` on, or the step that stops for the first that is not
/// there.
pub open spec fn window_averages(
    device_id: i64,
    range: DeviceRecordsTimestampRange,
    now: u64,
    answers: Seq<Answer>,
    at: int,
    count: int,
) -> ProgressView<Seq<DeviceRecordsAverage>>
    decreases count,
{
    if count <= 0 {
        ProgressView::Go(Seq::empty())
    } else {
        match window_averages(device_id, range, now, answers, at, count - 1) {
            ProgressView::Stop(step) => ProgressView::Stop(step),
            ProgressView::Go(earlier) => {
                let from = range.window_from(now, count - 1) as u64;
                let until = range.window_until(now, count - 1) as u64;
                match asked_average(
                    QueryView::DeviceRecordAverage { device_id, from, until },
                    answers,
                    at + count - 1,
                ) {
                    ProgressView::Stop(step) => ProgressView::Stop(step),
                    ProgressView::Go(data) => ProgressView::Go(
                        earlier.push(DeviceRecordsAverage { data, range: (from, until) }),
                    ),
                }
            },
        }
    }
}

/// True of the events whose state is read from one entity of the domain,
/// which the first answer holds: a user, a greenhouse, a device, or the
/// readings of a device.
pub open spec fn looks_up_entity(event: DispatchEvent) -> bool {
    match event {
        DispatchEvent::UserUpdate { .. } => true,
        DispatchEvent::UserMeUpdate { .. } => true,
        DispatchEvent::GreenhouseUpdate { .. } => true,
        DispatchEvent::GreenhouseCreate { id, .. } => id is Some,
        DispatchEvent::DeviceUpdate { .. } => true,
        DispatchEvent::DeviceRecordsUpdate { .. } => true,
        _ => false,
    }
}

/// True when the entity behind the event is gone: it was looked up and not
/// found.
pub open spec fn entity_gone(event: DispatchEvent, answers: Seq<Answer>) -> bool {
    &&& looks_up_entity(event)
    &&& answers.len() > 0
    &&& answers[0] is Failed
    &&& answers[0]->Failed_0.http_code == 404
}

/// The state behind an event as the answers give it, or the step that
/// stops for what is still missing.
///
/// An entity that is gone, deleted perhaps while the event was on its way,
/// has no state to tell: the state is empty, and nothing fails. Any other
/// failure of a lookup fails the resolution.
pub open spec fn resolved(event: DispatchEvent, answers: Seq<Answer>) -> ProgressView<
    WebSocketMessageDataView,
> {
    if entity_gone(event, answers) {
        ProgressView::Go(WebSocketMessageDataView::Empty)
    } else {
        looked_up(event, answers)
    }
}

/// The state behind an event that the answers hold, or the step that stops
/// for what is still missing or for a lookup that failed.
///
/// A creation is resolved through the id it carries and is empty without
/// one; a deletion has nothing left to look up and says which greenhouse
/// went.
pub open spec fn looked_up(event: DispatchEvent, answers: Seq<Answer>) -> ProgressView<
    WebSocketMessageDataView,
> {
    match event {
        DispatchEvent::UserUpdate { id } => match asked_user_public(
            QueryView::UserPublicById { id },
            answers,
            0,
        ) {
            ProgressView::Stop(step) => ProgressView::Stop(step),
            ProgressView::Go(user) => ProgressView::Go(user_public_body(user)),
        },
        DispatchEvent::UserMeUpdate { id } => match asked_user_me(
            QueryView::UserMeById { id },
            answers,
            0,
        ) {
            ProgressView::Stop(step) => ProgressView::Stop(step),
            ProgressView::Go(user) => ProgressView::Go(user_me_body(user)),
        },
        DispatchEvent::GreenhouseUpdate { id } => match asked_greenhouse(
            QueryView::GreenhouseById { id },
            answers,
            0,
        ) {
            ProgressView::Stop(step) => ProgressView::Stop(step),
            ProgressView::Go(greenhouse) => ProgressView::Go(greenhouse_body(greenhouse)),
        },
        DispatchEvent::GreenhouseCreate { id: Some(id), owner_id } => match asked_greenhouse(
            QueryView::GreenhouseById { id },
            answers,
            0,
        ) {
            ProgressView::Stop(step) => ProgressView::Stop(step),
            ProgressView::Go(greenhouse) => ProgressView::Go(greenhouse_body(greenhouse)),
        },
        DispatchEvent::GreenhouseCreate { id: None, owner_id } => ProgressView::Go(
            WebSocketMessageDataView::Empty,
        ),
        DispatchEvent::GreenhouseDelete { id: Some(id), owner_id } => ProgressView::Go(
            WebSocketMessageDataView::DispatchGreenhouseMineDelete { id },
        ),
        DispatchEvent::GreenhouseDelete { id: None, owner_id } => ProgressView::Go(
            WebSocketMessageDataView::Empty,
        ),
        DispatchEvent::DeviceUpdate { id } => match asked_device(
            QueryView::DeviceById { id },
            answers,
            0,
        ) {
            ProgressView::Stop(step) => ProgressView::Stop(step),
            ProgressView::Go(device) => if answers.len() <= 1 {
                ProgressView::Stop(
                    StepView::Ask(QueryView::DeviceRecordLatest { device_id: device.id }),
                )
            } else {
                ProgressView::Go(device_body(device, latest_reading(answers, 1)))
            },
        },
        DispatchEvent::DeviceRecordsUpdate { device_id } => match asked_count(
            QueryView::DeviceRecordCount { device_id },
            answers,
            0,
        ) {
            ProgressView::Stop(step) => ProgressView::Stop(step),
            ProgressView::Go(quantity) => ProgressView::Go(
                WebSocketMessageDataView::DispatchDeviceRecordsUpdate { device_id, quantity },
            ),
        },
        DispatchEvent::DeviceRecordsAverageUpdate { device_id, range } => match asked_time(
            QueryView::Clock,
            answers,
            0,
        ) {
            ProgressView::Stop(step) => ProgressView::Stop(step),
            ProgressView::Go(now) => if now < range.span() {
                ProgressView::Stop(
                    StepView::Failed(WebSocketErrorTemplate::BadRequest(None).error()),
                )
            } else {
                match window_averages(device_id, range, now, answers, 1, range.windows()) {
                    ProgressView::Stop(step) => ProgressView::Stop(step),
                    ProgressView::Go(records) => ProgressView::Go(
                        WebSocketMessageDataView::DispatchDeviceRecordsAverageUpdate {
                            device_id,
                            range,
                            records,
                        },
                    ),
                }
            },
        },
    }
}

/// How an exec progress and its mathematical value go together.
pub open spec fn resolves_to(
    r: Progress<WebSocketMessageData>,
    expected: ProgressView<WebSocketMessageDataView>,
) -> bool {
    match r {
        Progress::Stop(step) => expected == ProgressView::<WebSocketMessageDataView>::Stop(step@),
        Progress::Go(data) => expected == ProgressView::Go(data@),
    }
}

fn resolve_averages(
    device_id: i64,
    range: DeviceRecordsTimestampRange,
    now: u64,
    answers: &Vec<Answer>,
) -> (r: Progress<Vec<DeviceRecordsAverage>>)
    requires
        now >= range.span(),
    ensures
        match r {
            Progress::Stop(step) => window_averages(
                device_id,
                range,
                now,
                answers@,
                1,
                range.windows(),
            ) == ProgressView::<Seq<DeviceRecordsAverage>>::Stop(step@),
            Progress::Go(records) => window_averages(
                device_id,
                range,
                now,
                answers@,
                1,
                range.windows(),
            ) == ProgressView::Go(records@),
        },
{
    let buckets = range.buckets(now).unwrap();
    let mut records: Vec<DeviceRecordsAverage> = Vec::new();
    let mut i: usize = 0;
    while i < buckets.len()
        invariant
            i <= buckets.len(),
            buckets@.len() == range.windows(),
            forall|j: int|
                0 <= j < range.windows() ==> {
                    &&& (#[trigger] buckets@[j]).0 == range.window_from(now, j)
                    &&& buckets@[j].1 == range.window_until(now, j)
                },
            window_averages(device_id, range, now, answers@, 1, i as int) == ProgressView::Go(
                records@,
            ),
        decreases buckets.len() - i,
    {
        let (from, until) = buckets[i];
        assert(buckets@[i as int].0 == range.window_from(now, i as int));
        let query = Query::DeviceRecordAverage { device_id, from, until };
        match ask_average(query, answers, i + 1) {
            Progress::Stop(step) => {
                proof {
                    lemma_averages_stop(device_id, range, now, answers@, 1, i + 1, range.windows());
                }
                return Progress::Stop(step);
            },
            Progress::Go(data) => {
                records.push(DeviceRecordsAverage { data, range: (from, until) });
            },
        }
        i += 1;
    }
    Progress::Go(records)
}

/// Once the averages stop for a missing answer they stop there for any
/// larger number of windows.
proof fn lemma_averages_stop(
    device_id: i64,
    range: DeviceRecordsTimestampRange,
    now: u64,
    answers: Seq<Answer>,
    at: int,
    count: int,
    more: int,
)
    requires
        0 <= count <= more,
        window_averages(device_id, range, now, answers, at, count) is Stop,
    ensures
        window_averages(device_id, range, now, answers, at, more) == window_averages(
            device_id,
            range,
            now,
            answers,
            at,
            count,
        ),
    decreases more - count,
{
    if count < more {
        lemma_averages_stop(device_id, range, now, answers, at, count, more - 1);
    }
}

/// Looks up in the answers the state behind an event, or says what is
/// still to be asked. An entity that is gone has empty state.
pub fn resolve(event: &DispatchEvent, answers: &Vec<Answer>) -> (r: Progress<WebSocketMessageData>)
    ensures
        resolves_to(r, resolved(*event, answers@)),
{
    let entity = match event {
        DispatchEvent::UserUpdate { .. } => true,
        DispatchEvent::UserMeUpdate { .. } => true,
        DispatchEvent::GreenhouseUpdate { .. } => true,
        DispatchEvent::GreenhouseCreate { id, .. } => id.is_some(),
        DispatchEvent::DeviceUpdate { .. } => true,
        DispatchEvent::DeviceRecordsUpdate { .. } => true,
        _ => false,
    };
    if entity && answers.len() > 0 {
        if let Answer::Failed(error) = &answers[0] {
            if error.http_code == 404 {
                return Progress::Go(WebSocketMessageData::Empty);
            }
        }
    }
    look_up(event, answers)
}

fn look_up(event: &DispatchEvent, answers: &Vec<Answer>) -> (r: Progress<WebSocketMessageData>)
    ensures
        resolves_to(r, looked_up(*event, answers@)),
{
    match event {
        DispatchEvent::UserUpdate { id } => match ask_user_public(
            Query::UserPublicById { id: *id },
            answers,
            0,
        ) {
            Progress::Stop(step) => Progress::Stop(step),
            Progress::Go(user) => Progress::Go(WebSocketMessageData::for_user_public(user)),
        },
        DispatchEvent::UserMeUpdate { id } => match ask_user_me(
            Query::UserMeById { id: *id },
            answers,
            0,
        ) {
            Progress::Stop(step) => Progress::Stop(step),
            Progress::Go(user) => Progress::Go(WebSocketMessageData::for_user_me(user)),
        },
        DispatchEvent::GreenhouseUpdate { id } => match ask_greenhouse(
            Query::GreenhouseById { id: *id },
            answers,
            0,
        ) {
            Progress::Stop(step) => Progress::Stop(step),
            Progress::Go(greenhouse) => Progress::Go(
                WebSocketMessageData::for_greenhouse(greenhouse),
            ),
        },
        DispatchEvent::GreenhouseCreate { id: Some(id), owner_id } => match ask_greenhouse(
            Query::GreenhouseById { id: *id },
            answers,
            0,
        ) {
            Progress::Stop(step) => Progress::Stop(step),
            Progress::Go(greenhouse) => Progress::Go(
                WebSocketMessageData::for_greenhouse(greenhouse),
            ),
        },
        DispatchEvent::GreenhouseCreate { id: None, owner_id } => Progress::Go(
            WebSocketMessageData::Empty,
        ),
        DispatchEvent::GreenhouseDelete { id: Some(id), owner_id } => Progress::Go(
            WebSocketMessageData::DispatchGreenhouseMineDelete { id: *id },
        ),
        DispatchEvent::GreenhouseDelete { id: None, owner_id } => Progress::Go(
            WebSocketMessageData::Empty,
        ),
        DispatchEvent::DeviceUpdate { id } => match ask_device(
            Query::DeviceById { id: *id },
            answers,
            0,
        ) {
            Progress::Stop(step) => Progress::Stop(step),
            Progress::Go(device) => {
                if answers.len() <= 1 {
                    Progress::Stop(Step::Ask(Query::DeviceRecordLatest { device_id: device.id }))
                } else {
                    let latest = match &answers[1] {
                        Answer::DeviceRecord(record) => Some(record.data),
                        _ => None,
                    };
                    Progress::Go(WebSocketMessageData::for_device(device, latest))
                }
            },
        },
        DispatchEvent::DeviceRecordsUpdate { device_id } => match ask_count(
            Query::DeviceRecordCount { device_id: *device_id },
            answers,
            0,
        ) {
            Progress::Stop(step) => Progress::Stop(step),
            Progress::Go(quantity) => Progress::Go(
                WebSocketMessageData::DispatchDeviceRecordsUpdate {
                    device_id: *device_id,
                    quantity,
                },
            ),
        },
        DispatchEvent::DeviceRecordsAverageUpdate { device_id, range } => match ask_time(
            Query::Clock,
            answers,
            0,
        ) {
            Progress::Stop(step) => Progress::Stop(step),
            Progress::Go(now) => {
                if range.buckets(now).is_none() {
                    Progress::Stop(
                        Step::Failed(WebSocketErrorTemplate::BadRequest(None).into_error()),
                    )
                } else {
                    match resolve_averages(*device_id, *range, now, answers) {
                        Progress::Stop(step) => Progress::Stop(step),
                        Progress::Go(records) => Progress::Go(
                            WebSocketMessageData::DispatchDeviceRecordsAverageUpdate {
                                device_id: *device_id,
                                range: *range,
                                records,
                            },
                        ),
                    }
                }
            },
        },
    }
}

/// Where the entity behind an event is gone there is nothing to tell and
/// nothing fails, whatever the event: the state is empty.
pub proof fn lemma_gone_entity_has_no_state(event: DispatchEvent, answers: Seq<Answer>)
    requires
        entity_gone(event, answers),
    ensures
        resolved(event, answers) == ProgressView::Go(WebSocketMessageDataView::Empty),
{
}

/// A lookup that failed for another reason than that the entity is gone
/// fails the resolution with the error of the lookup.
pub proof fn lemma_other_failures_fail(event: DispatchEvent, answers: Seq<Answer>)
    requires
        looks_up_entity(event),
        answers.len() > 0,
        answers[0] is Failed,
        answers[0]->Failed_0.http_code != 404,
    ensures
        resolved(event, answers) == ProgressView::<WebSocketMessageDataView>::Stop(
            StepView::Failed(answers[0]->Failed_0@),
        ),
{
}

/// What the bus brings never subscribes anybody: every dispatch it turns
/// into is a broadcast. A new reading turns into exactly two, one for the
/// device and one for the count of its readings.
pub proof fn lemma_bus_news_are_broadcasts(payload: AmqpPayload, i: int)
    requires
        0 <= i < bridged(payload).len(),
    ensures
        bridged(payload)[i].new_subscribers is None,
        payload matches AmqpPayload::DispatchData { device_id } ==> bridged(payload).len() == 2
            && bridged(payload)[0].event == (DispatchEvent::DeviceUpdate { id: device_id })
            && bridged(payload)[1].event == (DispatchEvent::DeviceRecordsUpdate { device_id }),
{
}

/// The envelopes that a list of effects sends, in order.
pub open spec fn sent(effects: Seq<Effect>) -> Seq<WebSocketMessage> {
    Seq::new(effects.len(), |i: int| effects[i]->Send_0)
}

/// True when every effect of the list sends an envelope.
pub open spec fn all_sent(effects: Seq<Effect>) -> bool {
    forall|i: int| 0 <= i < effects.len() ==> #[trigger] effects[i] is Send
}

/// What bus payloads turn into: a new reading means that the device and
/// the count of its readings changed, a new state of a device that the
/// device changed. Every other payload concerns nobody here. All of them
/// go to the current subscribers only.
pub open spec fn bridged(payload: AmqpPayload) -> Seq<DispatchMessageView> {
    match payload {
        AmqpPayload::DispatchData { device_id } => seq![
            DispatchMessageView {
                event: DispatchEvent::DeviceUpdate { id: device_id },
                new_subscribers: None,
            },
            DispatchMessageView {
                event: DispatchEvent::DeviceRecordsUpdate { device_id },
                new_subscribers: None,
            },
        ],
        AmqpPayload::DispatchDevice { id } => seq![
            DispatchMessageView { event: DispatchEvent::DeviceUpdate { id }, new_subscribers: None },
        ],
        _ => Seq::empty(),
    }
}

/// The views of a list of dispatches, in order.
pub open spec fn dispatch_views(messages: Seq<DispatchMessage>) -> Seq<DispatchMessageView> {
    Seq::new(messages.len(), |i: int| messages[i]@)
}

impl Socket {
    /// Turns a payload that arrived from the bus into the dispatches it
    /// calls for.
    pub fn bridge(message: &DispatchAmqpMessage) -> (r: Vec<DispatchMessage>)
        ensures
            dispatch_views(r@) == bridged(message.payload),
    {
        let mut r: Vec<DispatchMessage> = Vec::new();
        match message.payload {
            AmqpPayload::DispatchData { device_id } => {
                r.push(DispatchMessage::to_all(DispatchEvent::DeviceUpdate { id: device_id }));
                r.push(DispatchMessage::to_all(DispatchEvent::DeviceRecordsUpdate { device_id }));
            },
            AmqpPayload::DispatchDevice { id } => {
                r.push(DispatchMessage::to_all(DispatchEvent::DeviceUpdate { id }));
            },
            _ => {},
        }
        assert(dispatch_views(r@) =~= bridged(message.payload));
        r
    }

    /// Nobody is there to hear of a broadcast.
    pub open spec fn idle(before: crate::registry::Registry, message: DispatchMessage) -> bool {
        message.broadcast() && !before.index().contains_key(message.event.key())
    }

    /// Handles a dispatch: resolves the state behind the event and
    /// delivers it.
    ///
    /// A broadcast that nobody hears of is done at once, with nothing
    /// looked up. Otherwise the state is resolved through the answers; as
    /// long as one is missing the step asks for it, and the registry stays
    /// as it is. With the state at hand the new subscribers are filed and
    /// the envelopes handed out as [`delivered`] says. An entity that is
    /// gone has empty state: the new subscribers are filed all the same,
    /// nobody gets an envelope, and nothing fails. A lookup that failed for
    /// any other reason fails the dispatch and subscribes nobody.
    pub fn dispatch(
        &mut self,
        message: &DispatchMessage,
        answers: &Vec<Answer>,
        generator: &mut IdGenerator,
    ) -> (r: Step)
        requires
            old(self).wf(),
        ensures
            final(self).wf(),
            final(generator).machine() == old(generator).machine(),
            final(generator).node() == old(generator).node(),
            Self::idle(old(self)@, *message) ==> {
                &&& r@ == StepView::Done(Seq::empty())
                &&& final(self)@ == old(self)@
            },
            !Self::idle(old(self)@, *message) ==> match resolved(message.event, answers@) {
                ProgressView::Stop(step) => r@ == step && final(self)@ == old(self)@,
                ProgressView::Go(data) => {
                    &&& r is Done
                    &&& all_sent(r->Done_0@)
                    &&& delivered(old(self)@, *message, data, sent(r->Done_0@))
                    &&& final(self)@ == old(self)@.subscribe_each(
                        message.event.key(),
                        message.newcomers(),
                    )
                },
            },
    {
        let broadcast = match &message.new_subscribers {
            Some(ids) => ids.len() == 0,
            None => true,
        };
        if broadcast && !self.has_entry(&message.event) {
            let effects: Vec<Effect> = Vec::new();
            let step = Step::Done(effects);
            assert(step@->Done_0 =~= Seq::empty());
            return step;
        }
        let data = match resolve(&message.event, answers) {
            Progress::Stop(step) => {
                return step;
            },
            Progress::Go(data) => data,
        };
        let deliveries = self.deliver(message, &data, generator);
        let ghost handed = deliveries@;
        let mut effects: Vec<Effect> = Vec::new();
        for envelope in moved: deliveries.into_iter()
            invariant
                moved.seq() == handed,
                effects@.len() == moved.index(),
                all_sent(effects@),
                forall|j: int|
                    0 <= j < effects@.len() ==> (#[trigger] effects@[j])->Send_0 == handed[j],
        {
            effects.push(Effect::Send(envelope));
        }
        assert(sent(effects@) =~= handed);
        Step::Done(effects)
    }
}

} // verus!
