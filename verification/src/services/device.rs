//! Requests about devices and subscriptions to them.

use vstd::prelude::*;
use crate::connection::{session_owner, session_user, WebSocketConnection};
use crate::exchange::{
    add_effect, ask_count, ask_device, ask_device_record, ask_devices, ask_greenhouse, ask_time,
    asked_count, asked_device, asked_device_record, asked_devices, asked_greenhouse, asked_time,
    broadcast, done, done1, done2, fail, first_delivery, reply, replying, to_all,
    to_one, Answer, Effect, EffectView, Progress, ProgressView, Query, QueryView, Step, StepView,
};
use crate::messages::{AmqpPayload, DispatchEvent, Method, WebSocketMessage};
use crate::model::{data_size_fault, Device, DeviceRecord, DeviceStatus, Greenhouse};
use crate::numbers::{is_same_optional_number, same_optional_number};
use crate::payload::WebSocketMessageData;
use crate::templates::WebSocketErrorTemplate;
use crate::text::{copy_optional_text, optional_text, same_optional_text, same_text};

verus! {

/// Seconds of three months of a twelfth of a mean year each.
pub const THREE_MONTHS_AS_SECS: u64 = 7889229;

/// The greenhouse `greenhouse_id`, for the user behind the connection: the
/// session and its user through answer `at`, the greenhouse, which the user
/// must own, through the answer after it.
pub open spec fn owned_greenhouse(
    greenhouse_id: i64,
    connection: WebSocketConnection,
    answers: Seq<Answer>,
    at: int,
) -> ProgressView<Greenhouse> {
    match session_owner(connection, answers, at) {
        ProgressView::Stop(step) => ProgressView::Stop(step),
        ProgressView::Go(user_id) => asked_greenhouse(
            QueryView::GreenhouseByIdAndOwner { id: greenhouse_id, owner_id: user_id },
            answers,
            at + 1,
        ),
    }
}

/// Looks up a greenhouse for the user behind the connection, who must own
/// it.
pub fn find_owned_greenhouse<'a>(
    greenhouse_id: i64,
    connection: &WebSocketConnection,
    answers: &'a Vec<Answer>,
    at: usize,
) -> (r: Progress<&'a Greenhouse>)
    requires
        connection.authenticated(),
        at + 2 <= usize::MAX,
    ensures
        match r {
            Progress::Stop(step) => owned_greenhouse(greenhouse_id, *connection, answers@, at as int)
                == ProgressView::<Greenhouse>::Stop(step@),
            Progress::Go(greenhouse) => owned_greenhouse(
                greenhouse_id,
                *connection,
                answers@,
                at as int,
            ) == ProgressView::Go(*greenhouse),
        },
{
    let user_id = match session_user(connection, answers, at) {
        Progress::Stop(step) => {
            return Progress::Stop(step);
        },
        Progress::Go(user_id) => user_id,
    };
    ask_greenhouse(
        Query::GreenhouseByIdAndOwner { id: greenhouse_id, owner_id: user_id },
        answers,
        at + 1,
    )
}

/// The device `device_id` of the greenhouse `greenhouse_id`, for the user
/// behind the connection: the greenhouse, which the user must own, through
/// the answers `at` and `at + 1`, the device, which must stand in that
/// greenhouse, through answer `at + 2`.
pub open spec fn owned_device(
    device_id: i64,
    greenhouse_id: i64,
    connection: WebSocketConnection,
    answers: Seq<Answer>,
    at: int,
) -> ProgressView<Device> {
    match owned_greenhouse(greenhouse_id, connection, answers, at) {
        ProgressView::Stop(step) => ProgressView::Stop(step),
        ProgressView::Go(greenhouse) => asked_device(
            QueryView::DeviceByIdAndGreenhouse { id: device_id, greenhouse_id: greenhouse.id },
            answers,
            at + 2,
        ),
    }
}

/// Looks up a device for the user behind the connection, checking on the
/// way that the user owns the greenhouse and the greenhouse holds the
/// device.
pub fn find_owned_device<'a>(
    device_id: i64,
    greenhouse_id: i64,
    connection: &WebSocketConnection,
    answers: &'a Vec<Answer>,
    at: usize,
) -> (r: Progress<&'a Device>)
    requires
        connection.authenticated(),
        at + 2 <= usize::MAX,
    ensures
        match r {
            Progress::Stop(step) => owned_device(
                device_id,
                greenhouse_id,
                *connection,
                answers@,
                at as int,
            ) == ProgressView::<Device>::Stop(step@),
            Progress::Go(device) => owned_device(
                device_id,
                greenhouse_id,
                *connection,
                answers@,
                at as int,
            ) == ProgressView::Go(*device),
        },
{
    let greenhouse = match find_owned_greenhouse(greenhouse_id, connection, answers, at) {
        Progress::Stop(step) => {
            return Progress::Stop(step);
        },
        Progress::Go(greenhouse) => greenhouse,
    };
    ask_device(
        Query::DeviceByIdAndGreenhouse { id: device_id, greenhouse_id: greenhouse.id },
        answers,
        at + 2,
    )
}

/// One effect for each device of a list, in order: a first delivery of the
/// device to `subscriber` where there is one, a broadcast of the device
/// where there is none. With `named_only`, devices without a name are
/// passed over.
pub open spec fn device_effects(devices: Seq<Device>, subscriber: Option<i64>, named_only: bool)
    -> Seq<EffectView>
    decreases devices.len(),
{
    if devices.len() == 0 {
        Seq::empty()
    } else {
        let earlier = device_effects(devices.drop_last(), subscriber, named_only);
        let device = devices.last();
        let event = DispatchEvent::DeviceUpdate { id: device.id };
        if named_only && device.name is None {
            earlier
        } else {
            earlier.push(
                match subscriber {
                    Some(connection_id) => first_delivery(event, connection_id),
                    None => broadcast(event),
                },
            )
        }
    }
}

/// The effects for a list of devices subscribe `subscriber` where there is
/// one, and nobody where there is none.
pub proof fn lemma_device_effects(
    devices: Seq<Device>,
    subscriber: Option<i64>,
    named_only: bool,
    i: int,
)
    requires
        0 <= i < device_effects(devices, subscriber, named_only).len(),
    ensures
        device_effects(devices, subscriber, named_only)[i] is Dispatch,
        device_effects(devices, subscriber, named_only)[i]->Dispatch_0.new_subscribers == (
        match subscriber {
            Some(connection_id) => Some(seq![connection_id]),
            None => None,
        }),
    decreases devices.len(),
{
    if devices.len() > 0 {
        let earlier = device_effects(devices.drop_last(), subscriber, named_only);
        if i < earlier.len() {
            lemma_device_effects(devices.drop_last(), subscriber, named_only, i);
        }
    }
}

fn effects_for_devices(devices: &Vec<Device>, subscriber: Option<i64>, named_only: bool) -> (r:
    Vec<Effect>)
    ensures
        crate::exchange::effect_views(r@) == device_effects(devices@, subscriber, named_only),
{
    let mut effects: Vec<Effect> = Vec::new();
    assert(crate::exchange::effect_views(effects@) =~= Seq::empty());
    let mut i: usize = 0;
    while i < devices.len()
        invariant
            i <= devices.len(),
            crate::exchange::effect_views(effects@) == device_effects(
                devices@.subrange(0, i as int),
                subscriber,
                named_only,
            ),
        decreases devices.len() - i,
    {
        let device = &devices[i];
        proof {
            assert(devices@.subrange(0, i + 1).drop_last() =~= devices@.subrange(0, i as int));
            assert(devices@.subrange(0, i + 1).last() == devices@[i as int]);
        }
        let event = DispatchEvent::DeviceUpdate { id: device.id };
        if named_only && device.name.is_none() {
        } else {
            match subscriber {
                Some(connection_id) => add_effect(&mut effects, to_one(event, connection_id)),
                None => add_effect(&mut effects, to_all(event)),
            }
        }
        i += 1;
    }
    assert(devices@.subrange(0, devices@.len() as int) =~= devices@);
    effects
}

/// Subscribing to one device.
pub open spec fn device_update_plan(
    message: WebSocketMessage,
    connection: WebSocketConnection,
    answers: Seq<Answer>,
) -> StepView {
    match message.data {
        WebSocketMessageData::SubscribeToDeviceUpdate { id, greenhouse_id } => match owned_device(
            id,
            greenhouse_id,
            connection,
            answers,
            0,
        ) {
            ProgressView::Stop(step) => step,
            ProgressView::Go(device) => StepView::Done(
                seq![first_delivery(DispatchEvent::DeviceUpdate { id: device.id }, connection.id)],
            ),
        },
        _ => StepView::Failed(WebSocketErrorTemplate::BadRequest(None).error()),
    }
}

fn device_update(
    message: &WebSocketMessage,
    connection: &WebSocketConnection,
    answers: &Vec<Answer>,
) -> (r: Step)
    requires
        connection.authenticated(),
    ensures
        r@ == device_update_plan(*message, *connection, answers@),
{
    let (device_id, greenhouse_id) = match &message.data {
        WebSocketMessageData::SubscribeToDeviceUpdate { id, greenhouse_id } => (
            *id,
            *greenhouse_id,
        ),
        _ => {
            return fail(WebSocketErrorTemplate::BadRequest(None));
        },
    };
    let device = match find_owned_device(device_id, greenhouse_id, connection, answers, 0) {
        Progress::Stop(step) => {
            return step;
        },
        Progress::Go(device) => device,
    };
    done1(to_one(DispatchEvent::DeviceUpdate { id: device.id }, connection.id))
}

/// Subscribing to all devices of a greenhouse.
pub open spec fn devices_update_plan(
    message: WebSocketMessage,
    connection: WebSocketConnection,
    answers: Seq<Answer>,
) -> StepView {
    match message.data {
        WebSocketMessageData::SubscribeToDevicesUpdate { greenhouse_id } => match owned_greenhouse(
            greenhouse_id,
            connection,
            answers,
            0,
        ) {
            ProgressView::Stop(step) => step,
            ProgressView::Go(greenhouse) => match asked_devices(
                QueryView::DevicesByGreenhouse { greenhouse_id: greenhouse.id },
                answers,
                2,
            ) {
                ProgressView::Stop(step) => step,
                ProgressView::Go(devices) => StepView::Done(
                    device_effects(devices@, Some(connection.id), false),
                ),
            },
        },
        _ => StepView::Failed(WebSocketErrorTemplate::BadRequest(None).error()),
    }
}

fn devices_update(
    message: &WebSocketMessage,
    connection: &WebSocketConnection,
    answers: &Vec<Answer>,
) -> (r: Step)
    requires
        connection.authenticated(),
    ensures
        r@ == devices_update_plan(*message, *connection, answers@),
{
    let greenhouse_id = match &message.data {
        WebSocketMessageData::SubscribeToDevicesUpdate { greenhouse_id } => *greenhouse_id,
        _ => {
            return fail(WebSocketErrorTemplate::BadRequest(None));
        },
    };
    let greenhouse = match find_owned_greenhouse(greenhouse_id, connection, answers, 0) {
        Progress::Stop(step) => {
            return step;
        },
        Progress::Go(greenhouse) => greenhouse,
    };
    let devices = match ask_devices(
        Query::DevicesByGreenhouse { greenhouse_id: greenhouse.id },
        answers,
        2,
    ) {
        Progress::Stop(step) => {
            return step;
        },
        Progress::Go(devices) => devices,
    };
    done(effects_for_devices(devices, Some(connection.id), false))
}

/// What a subscription to devices comes to, by the path it names.
pub open spec fn subscribed(
    to: Seq<char>,
    message: WebSocketMessage,
    connection: WebSocketConnection,
    answers: Seq<Answer>,
) -> StepView {
    if to == "device"@ {
        device_update_plan(message, connection, answers)
    } else if to == "devices"@ {
        devices_update_plan(message, connection, answers)
    } else {
        StepView::Failed(WebSocketErrorTemplate::InvalidRequestField(None).error())
    }
}

/// Subscribes the connection to one device, or to all devices of a
/// greenhouse, that its user owns.
pub fn subscribe(
    to: &str,
    message: &WebSocketMessage,
    connection: &WebSocketConnection,
    answers: &Vec<Answer>,
) -> (r: Step)
    requires
        connection.authenticated(),
    ensures
        r@ == subscribed(to@, *message, *connection, answers@),
{
    if same_text(to, "device") {
        device_update(message, connection, answers)
    } else if same_text(to, "devices") {
        devices_update(message, connection, answers)
    } else {
        fail(WebSocketErrorTemplate::InvalidRequestField(None))
    }
}

/// Renaming a device or changing its limit. Nothing is stored where
/// nothing changes; what is stored is told to all who hear of the device,
/// before the reply.
pub open spec fn patch_device_plan(
    message: WebSocketMessage,
    connection: WebSocketConnection,
    answers: Seq<Answer>,
) -> StepView {
    match message.data {
        WebSocketMessageData::RequestPatchDevice { id, greenhouse_id, name, maximum_data_value } =>
            match owned_device(id, greenhouse_id, connection, answers, 0) {
            ProgressView::Stop(step) => step,
            ProgressView::Go(current) => {
                let response = reply(message.id, connection.id, "Successfully updated"@);
                if optional_text(current.name) == optional_text(name) && same_optional_number(
                    current.maximum_data_value,
                    maximum_data_value,
                ) {
                    StepView::Done(seq![response])
                } else if name is Some && Device::name_fault(name->Some_0@) is Some {
                    StepView::Failed(Device::name_fault(name->Some_0@)->Some_0)
                } else if maximum_data_value is Some && data_size_fault(
                    maximum_data_value->Some_0,
                ) is Some {
                    StepView::Failed(data_size_fault(maximum_data_value->Some_0)->Some_0)
                } else {
                    match asked_device(
                        QueryView::DeviceUpdate {
                            id: current.id,
                            name: optional_text(name),
                            maximum_data_value,
                        },
                        answers,
                        3,
                    ) {
                        ProgressView::Stop(step) => step,
                        ProgressView::Go(updated) => StepView::Done(
                            seq![broadcast(DispatchEvent::DeviceUpdate { id: updated.id }), response],
                        ),
                    }
                }
            },
        },
        _ => StepView::Failed(WebSocketErrorTemplate::BadRequest(None).error()),
    }
}

fn patch_device(
    message: &WebSocketMessage,
    connection: &WebSocketConnection,
    answers: &Vec<Answer>,
) -> (r: Step)
    requires
        connection.authenticated(),
    ensures
        r@ == patch_device_plan(*message, *connection, answers@),
{
    let (device_id, greenhouse_id, new_name, new_limit) = match &message.data {
        WebSocketMessageData::RequestPatchDevice { id, greenhouse_id, name, maximum_data_value } => (
            *id,
            *greenhouse_id,
            name,
            maximum_data_value,
        ),
        _ => {
            return fail(WebSocketErrorTemplate::BadRequest(None));
        },
    };
    let current = match find_owned_device(device_id, greenhouse_id, connection, answers, 0) {
        Progress::Stop(step) => {
            return step;
        },
        Progress::Go(device) => device,
    };
    let response = replying(message.id, connection.id, "Successfully updated");
    if same_optional_text(&current.name, new_name) && is_same_optional_number(
        &current.maximum_data_value,
        new_limit,
    ) {
        return done1(response);
    }
    if let Some(name) = new_name {
        if let Err(error) = Device::check_name_length(name.as_str()) {
            return Step::Failed(error);
        }
    }
    if let Some(limit) = new_limit {
        if let Err(error) = DeviceRecord::check_data_size(limit) {
            return Step::Failed(error);
        }
    }
    let query = Query::DeviceUpdate {
        id: current.id,
        name: copy_optional_text(new_name),
        maximum_data_value: *new_limit,
    };
    let updated = match ask_device(query, answers, 3) {
        Progress::Stop(step) => {
            return step;
        },
        Progress::Go(device) => device,
    };
    done2(to_all(DispatchEvent::DeviceUpdate { id: updated.id }), response)
}

/// The effect that publishes a payload on the bus.
pub open spec fn publish(exchange: Seq<char>, routing_key: Seq<char>, payload: AmqpPayload)
    -> EffectView {
    EffectView::Publish { exchange, routing_key, payload }
}

/// Switching a controller on or off. The state is 0 or 1; the device must
/// be a controller of a greenhouse that the user owns. The change is asked
/// of the worker over the bus.
pub open spec fn patch_device_state_plan(
    message: WebSocketMessage,
    connection: WebSocketConnection,
    answers: Seq<Answer>,
) -> StepView {
    match message.data {
        WebSocketMessageData::RequestPatchDeviceState { id, greenhouse_id, state } => if state > 1 {
            StepView::Failed(WebSocketErrorTemplate::InvalidDeviceState(None).error())
        } else {
            match owned_device(id, greenhouse_id, connection, answers, 0) {
                ProgressView::Stop(step) => step,
                ProgressView::Go(device) => if !device.kind.controller() {
                    StepView::Failed(WebSocketErrorTemplate::DeviceIsNotController(None).error())
                } else {
                    StepView::Done(
                        seq![
                            publish(
                                "device"@,
                                "device.controller.state.change"@,
                                AmqpPayload::ChangeControllerState { device_id: id, state },
                            ),
                            reply(message.id, connection.id, "Successfully requested"@),
                        ],
                    )
                },
            }
        },
        _ => StepView::Failed(WebSocketErrorTemplate::BadRequest(None).error()),
    }
}

fn patch_device_state(
    message: &WebSocketMessage,
    connection: &WebSocketConnection,
    answers: &Vec<Answer>,
) -> (r: Step)
    requires
        connection.authenticated(),
    ensures
        r@ == patch_device_state_plan(*message, *connection, answers@),
{
    let (device_id, greenhouse_id, state) = match &message.data {
        WebSocketMessageData::RequestPatchDeviceState { id, greenhouse_id, state } => (
            *id,
            *greenhouse_id,
            *state,
        ),
        _ => {
            return fail(WebSocketErrorTemplate::BadRequest(None));
        },
    };
    if state > 1 {
        return fail(WebSocketErrorTemplate::InvalidDeviceState(None));
    }
    let device = match find_owned_device(device_id, greenhouse_id, connection, answers, 0) {
        Progress::Stop(step) => {
            return step;
        },
        Progress::Go(device) => device,
    };
    if !device.kind.is_controller() {
        return fail(WebSocketErrorTemplate::DeviceIsNotController(None));
    }
    done2(
        Effect::Publish {
            exchange: "device",
            routing_key: "device.controller.state.change",
            payload: AmqpPayload::ChangeControllerState { device_id, state },
        },
        replying(message.id, connection.id, "Successfully requested"),
    )
}

/// True when at least one device of the list has a name.
pub open spec fn any_named(devices: Seq<Device>) -> bool {
    exists|i: int| 0 <= i < devices.len() && devices[i].name is Some
}

fn has_named(devices: &Vec<Device>) -> (r: bool)
    ensures
        r == any_named(devices@),
{
    let mut i: usize = 0;
    while i < devices.len()
        invariant
            i <= devices.len(),
            forall|j: int| 0 <= j < i ==> devices@[j].name is None,
        decreases devices.len() - i,
    {
        if devices[i].name.is_some() {
            return true;
        }
        i += 1;
    }
    false
}

/// Clearing the names of all devices of a greenhouse. Where none has a
/// name nothing is stored. Each device that had one is told to all who
/// hear of it, before the reply.
pub open spec fn reset_device_names_plan(
    message: WebSocketMessage,
    connection: WebSocketConnection,
    answers: Seq<Answer>,
) -> StepView {
    match message.data {
        WebSocketMessageData::RequestPatchDevicesResetNames { greenhouse_id } =>
            match owned_greenhouse(greenhouse_id, connection, answers, 0) {
            ProgressView::Stop(step) => step,
            ProgressView::Go(greenhouse) => match asked_devices(
                QueryView::DevicesByGreenhouse { greenhouse_id: greenhouse.id },
                answers,
                2,
            ) {
                ProgressView::Stop(step) => step,
                ProgressView::Go(devices) => {
                    let response = reply(message.id, connection.id, "Successful reset"@);
                    if !any_named(devices@) {
                        StepView::Done(seq![response])
                    } else {
                        match asked_count(
                            QueryView::DeviceNamesReset { greenhouse_id: greenhouse.id },
                            answers,
                            3,
                        ) {
                            ProgressView::Stop(step) => step,
                            ProgressView::Go(_) => StepView::Done(
                                device_effects(devices@, None, true).push(response),
                            ),
                        }
                    }
                },
            },
        },
        _ => StepView::Failed(WebSocketErrorTemplate::BadRequest(None).error()),
    }
}

fn reset_device_names(
    message: &WebSocketMessage,
    connection: &WebSocketConnection,
    answers: &Vec<Answer>,
) -> (r: Step)
    requires
        connection.authenticated(),
    ensures
        r@ == reset_device_names_plan(*message, *connection, answers@),
{
    let greenhouse_id = match &message.data {
        WebSocketMessageData::RequestPatchDevicesResetNames { greenhouse_id } => *greenhouse_id,
        _ => {
            return fail(WebSocketErrorTemplate::BadRequest(None));
        },
    };
    let greenhouse = match find_owned_greenhouse(greenhouse_id, connection, answers, 0) {
        Progress::Stop(step) => {
            return step;
        },
        Progress::Go(greenhouse) => greenhouse,
    };
    let devices = match ask_devices(
        Query::DevicesByGreenhouse { greenhouse_id: greenhouse.id },
        answers,
        2,
    ) {
        Progress::Stop(step) => {
            return step;
        },
        Progress::Go(devices) => devices,
    };
    let response = replying(message.id, connection.id, "Successful reset");
    if !has_named(devices) {
        return done1(response);
    }
    match ask_count(Query::DeviceNamesReset { greenhouse_id: greenhouse.id }, answers, 3) {
        Progress::Stop(step) => {
            return step;
        },
        Progress::Go(_) => {},
    }
    let mut effects = effects_for_devices(devices, None, true);
    add_effect(&mut effects, response);
    done(effects)
}

/// Storing a reading by hand. The reading must be of a size that a device
/// could report, no older than three months and not of the future, and the
/// device must be a sensor of a greenhouse that the user owns. The reply
/// comes first; then the device is told to its subscribers if the reading
/// is its latest, and the new count of readings in any case.
pub open spec fn post_device_custom_data_plan(
    message: WebSocketMessage,
    connection: WebSocketConnection,
    answers: Seq<Answer>,
) -> StepView {
    match message.data {
        WebSocketMessageData::RequestPostDeviceCustomData { id, greenhouse_id, data, time } =>
            if data_size_fault(data) is Some {
            StepView::Failed(data_size_fault(data)->Some_0)
        } else {
            match asked_time(QueryView::Clock, answers, 0) {
                ProgressView::Stop(step) => step,
                ProgressView::Go(now) => if time + THREE_MONTHS_AS_SECS < now {
                    StepView::Failed(WebSocketErrorTemplate::TooLongAgo(None).error())
                } else if time > now {
                    StepView::Failed(WebSocketErrorTemplate::FutureTime(None).error())
                } else {
                    match owned_device(id, greenhouse_id, connection, answers, 1) {
                        ProgressView::Stop(step) => step,
                        ProgressView::Go(device) => if !device.kind.sensor() {
                            StepView::Failed(
                                WebSocketErrorTemplate::DeviceIsNotSensor(None).error(),
                            )
                        } else {
                            match asked_device_record(
                                QueryView::DeviceRecordCreate { device_id: device.id, data, time },
                                answers,
                                4,
                            ) {
                                ProgressView::Stop(step) => step,
                                ProgressView::Go(record) => {
                                    let response = reply(
                                        message.id,
                                        connection.id,
                                        "Successfully created"@,
                                    );
                                    let counted = broadcast(
                                        DispatchEvent::DeviceRecordsUpdate { device_id: device.id },
                                    );
                                    let changed = broadcast(
                                        DispatchEvent::DeviceUpdate { id: device.id },
                                    );
                                    if answers.len() <= 5 {
                                        StepView::Ask(
                                            QueryView::DeviceRecordLatest { device_id: device.id },
                                        )
                                    } else {
                                        match answers[5] {
                                            Answer::DeviceRecord(latest) => if latest.id
                                                == record.id {
                                                StepView::Done(seq![response, changed, counted])
                                            } else {
                                                StepView::Done(seq![response, counted])
                                            },
                                            Answer::Failed(error) => StepView::Done(
                                                seq![response, EffectView::Fail(error@)],
                                            ),
                                            _ => StepView::Done(
                                                seq![
                                                    response,
                                                    EffectView::Fail(
                                                        crate::exchange::unexpected_answer(),
                                                    ),
                                                ],
                                            ),
                                        }
                                    }
                                },
                            }
                        },
                    }
                },
            }
        },
        _ => StepView::Failed(WebSocketErrorTemplate::BadRequest(None).error()),
    }
}

fn post_device_custom_data(
    message: &WebSocketMessage,
    connection: &WebSocketConnection,
    answers: &Vec<Answer>,
) -> (r: Step)
    requires
        connection.authenticated(),
    ensures
        r@ == post_device_custom_data_plan(*message, *connection, answers@),
{
    let (device_id, greenhouse_id, data, time) = match &message.data {
        WebSocketMessageData::RequestPostDeviceCustomData { id, greenhouse_id, data, time } => (
            *id,
            *greenhouse_id,
            *data,
            *time,
        ),
        _ => {
            return fail(WebSocketErrorTemplate::BadRequest(None));
        },
    };
    if let Err(error) = DeviceRecord::check_data_size(&data) {
        return Step::Failed(error);
    }
    let now = match ask_time(Query::Clock, answers, 0) {
        Progress::Stop(step) => {
            return step;
        },
        Progress::Go(now) => now,
    };
    if now > THREE_MONTHS_AS_SECS && time < now - THREE_MONTHS_AS_SECS {
        return fail(WebSocketErrorTemplate::TooLongAgo(None));
    }
    if time > now {
        return fail(WebSocketErrorTemplate::FutureTime(None));
    }
    let device = match find_owned_device(device_id, greenhouse_id, connection, answers, 1) {
        Progress::Stop(step) => {
            return step;
        },
        Progress::Go(device) => device,
    };
    if !device.kind.is_sensor() {
        return fail(WebSocketErrorTemplate::DeviceIsNotSensor(None));
    }
    let record = match ask_device_record(
        Query::DeviceRecordCreate { device_id: device.id, data, time },
        answers,
        4,
    ) {
        Progress::Stop(step) => {
            return step;
        },
        Progress::Go(record) => record,
    };
    if answers.len() <= 5 {
        return Step::Ask(Query::DeviceRecordLatest { device_id: device.id });
    }
    let mut effects: Vec<Effect> = Vec::new();
    assert(crate::exchange::effect_views(effects@) =~= Seq::empty());
    add_effect(&mut effects, replying(message.id, connection.id, "Successfully created"));
    match &answers[5] {
        Answer::DeviceRecord(latest) => {
            if latest.id == record.id {
                add_effect(&mut effects, to_all(DispatchEvent::DeviceUpdate { id: device.id }));
            }
            add_effect(
                &mut effects,
                to_all(DispatchEvent::DeviceRecordsUpdate { device_id: device.id }),
            );
        },
        Answer::Failed(error) => {
            add_effect(&mut effects, Effect::Fail(error.clone()));
        },
        _ => {
            add_effect(&mut effects, Effect::Fail(crate::exchange::unexpected()));
        },
    }
    let r = done(effects);
    assert(r@->Done_0.len() >= 2);
    assert(r@ == post_device_custom_data_plan(*message, *connection, answers@)) by {
        let plan = post_device_custom_data_plan(*message, *connection, answers@);
        assert(plan is Done);
        assert(r@->Done_0 =~= plan->Done_0);
    }
    r
}

/// Asking the worker for fresh readings: of one device, which must stand
/// in the greenhouse named, or of the whole greenhouse. The user must own
/// the greenhouse.
pub open spec fn post_device_request_data_plan(
    message: WebSocketMessage,
    connection: WebSocketConnection,
    answers: Seq<Answer>,
) -> StepView {
    match message.data {
        WebSocketMessageData::RequestPostDeviceRequestData { id, greenhouse_id } =>
            match owned_greenhouse(greenhouse_id, connection, answers, 0) {
            ProgressView::Stop(step) => step,
            ProgressView::Go(greenhouse) => {
                let done = StepView::Done(
                    seq![
                        publish(
                            "data"@,
                            "data.request"@,
                            AmqpPayload::RequestData {
                                device_id: id,
                                greenhouse_id: Some(greenhouse_id),
                            },
                        ),
                        reply(message.id, connection.id, "Successfully requested"@),
                    ],
                );
                match id {
                    Some(device_id) => match asked_device(
                        QueryView::DeviceById { id: device_id },
                        answers,
                        2,
                    ) {
                        ProgressView::Stop(step) => step,
                        ProgressView::Go(device) => if device.greenhouse_id != greenhouse.id {
                            StepView::Failed(WebSocketErrorTemplate::NotFound(None).error())
                        } else {
                            done
                        },
                    },
                    None => done,
                }
            },
        },
        _ => StepView::Failed(WebSocketErrorTemplate::BadRequest(None).error()),
    }
}

fn post_device_request_data(
    message: &WebSocketMessage,
    connection: &WebSocketConnection,
    answers: &Vec<Answer>,
) -> (r: Step)
    requires
        connection.authenticated(),
    ensures
        r@ == post_device_request_data_plan(*message, *connection, answers@),
{
    let (device_id, greenhouse_id) = match &message.data {
        WebSocketMessageData::RequestPostDeviceRequestData { id, greenhouse_id } => (
            *id,
            *greenhouse_id,
        ),
        _ => {
            return fail(WebSocketErrorTemplate::BadRequest(None));
        },
    };
    let greenhouse = match find_owned_greenhouse(greenhouse_id, connection, answers, 0) {
        Progress::Stop(step) => {
            return step;
        },
        Progress::Go(greenhouse) => greenhouse,
    };
    if let Some(id) = device_id {
        let device = match ask_device(Query::DeviceById { id }, answers, 2) {
            Progress::Stop(step) => {
                return step;
            },
            Progress::Go(device) => device,
        };
        if device.greenhouse_id != greenhouse.id {
            return fail(WebSocketErrorTemplate::NotFound(None));
        }
    }
    done2(
        Effect::Publish {
            exchange: "data",
            routing_key: "data.request",
            payload: AmqpPayload::RequestData { device_id, greenhouse_id: Some(greenhouse_id) },
        },
        replying(message.id, connection.id, "Successfully requested"),
    )
}

/// The words of the reply to a change of status.
pub open spec fn status_text(status: DeviceStatus) -> Seq<char> {
    match status {
        DeviceStatus::Online => "Successfully enabled"@,
        DeviceStatus::Disabled => "Successfully disabled"@,
        DeviceStatus::Offline => "Successfully"@,
    }
}

/// Enabling or disabling a device of a greenhouse that the user owns.
/// Nothing is stored where the device has the status already; a change is
/// told to all who hear of the device, before the reply.
pub open spec fn post_device_status_plan(
    message: WebSocketMessage,
    connection: WebSocketConnection,
    answers: Seq<Answer>,
    new_status: DeviceStatus,
) -> StepView {
    let named = match message.data {
        WebSocketMessageData::RequestPostDeviceDisable { id, greenhouse_id } => Some(
            (id, greenhouse_id),
        ),
        WebSocketMessageData::RequestPostDeviceEnable { id, greenhouse_id } => Some(
            (id, greenhouse_id),
        ),
        _ => None,
    };
    match named {
        Some((id, greenhouse_id)) => match owned_device(id, greenhouse_id, connection, answers, 0) {
            ProgressView::Stop(step) => step,
            ProgressView::Go(device) => {
                let response = reply(message.id, connection.id, status_text(new_status));
                if device.status == new_status {
                    StepView::Done(seq![response])
                } else {
                    match asked_device(
                        QueryView::DeviceStatusUpdate { id: device.id, status: new_status },
                        answers,
                        3,
                    ) {
                        ProgressView::Stop(step) => step,
                        ProgressView::Go(_) => StepView::Done(
                            seq![broadcast(DispatchEvent::DeviceUpdate { id: device.id }), response],
                        ),
                    }
                }
            },
        },
        None => StepView::Failed(WebSocketErrorTemplate::BadRequest(None).error()),
    }
}

fn post_device_status(
    message: &WebSocketMessage,
    connection: &WebSocketConnection,
    answers: &Vec<Answer>,
    new_status: DeviceStatus,
) -> (r: Step)
    requires
        connection.authenticated(),
    ensures
        r@ == post_device_status_plan(*message, *connection, answers@, new_status),
{
    let (device_id, greenhouse_id) = match &message.data {
        WebSocketMessageData::RequestPostDeviceDisable { id, greenhouse_id } => (*id, *greenhouse_id),
        WebSocketMessageData::RequestPostDeviceEnable { id, greenhouse_id } => (*id, *greenhouse_id),
        _ => {
            return fail(WebSocketErrorTemplate::BadRequest(None));
        },
    };
    let device = match find_owned_device(device_id, greenhouse_id, connection, answers, 0) {
        Progress::Stop(step) => {
            return step;
        },
        Progress::Go(device) => device,
    };
    let text = match new_status {
        DeviceStatus::Online => "Successfully enabled",
        DeviceStatus::Disabled => "Successfully disabled",
        DeviceStatus::Offline => "Successfully",
    };
    let response = replying(message.id, connection.id, text);
    if device.status == new_status {
        return done1(response);
    }
    match ask_device(
        Query::DeviceStatusUpdate { id: device.id, status: new_status },
        answers,
        3,
    ) {
        Progress::Stop(step) => {
            return step;
        },
        Progress::Go(_) => {},
    }
    done2(to_all(DispatchEvent::DeviceUpdate { id: device.id }), response)
}

/// What a request about devices comes to, by its method and the path it
/// names.
pub open spec fn handled(
    request: Seq<char>,
    method: Method,
    message: WebSocketMessage,
    connection: WebSocketConnection,
    answers: Seq<Answer>,
) -> StepView {
    match method {
        Method::Patch => if request == "device"@ {
            patch_device_plan(message, connection, answers)
        } else if request == "device/state"@ {
            patch_device_state_plan(message, connection, answers)
        } else if request == "devices/reset-names"@ {
            reset_device_names_plan(message, connection, answers)
        } else {
            StepView::Failed(WebSocketErrorTemplate::InvalidRequestField(None).error())
        },
        Method::Post => if request == "device/custom-data"@ {
            post_device_custom_data_plan(message, connection, answers)
        } else if request == "device/request-data"@ {
            post_device_request_data_plan(message, connection, answers)
        } else if request == "device/disable"@ {
            post_device_status_plan(message, connection, answers, DeviceStatus::Disabled)
        } else if request == "device/enable"@ {
            post_device_status_plan(message, connection, answers, DeviceStatus::Online)
        } else {
            StepView::Failed(WebSocketErrorTemplate::InvalidRequestField(None).error())
        },
        _ => StepView::Failed(WebSocketErrorTemplate::MethodNotAllowed(None).error()),
    }
}

/// Handles a request about devices.
pub fn handle(
    request: &str,
    method: Method,
    message: &WebSocketMessage,
    connection: &WebSocketConnection,
    answers: &Vec<Answer>,
) -> (r: Step)
    requires
        connection.authenticated(),
    ensures
        r@ == handled(request@, method, *message, *connection, answers@),
{
    match method {
        Method::Patch => {
            if same_text(request, "device") {
                patch_device(message, connection, answers)
            } else if same_text(request, "device/state") {
                patch_device_state(message, connection, answers)
            } else if same_text(request, "devices/reset-names") {
                reset_device_names(message, connection, answers)
            } else {
                fail(WebSocketErrorTemplate::InvalidRequestField(None))
            }
        },
        Method::Post => {
            if same_text(request, "device/custom-data") {
                post_device_custom_data(message, connection, answers)
            } else if same_text(request, "device/request-data") {
                post_device_request_data(message, connection, answers)
            } else if same_text(request, "device/disable") {
                post_device_status(message, connection, answers, DeviceStatus::Disabled)
            } else if same_text(request, "device/enable") {
                post_device_status(message, connection, answers, DeviceStatus::Online)
            } else {
                fail(WebSocketErrorTemplate::InvalidRequestField(None))
            }
        },
        _ => fail(WebSocketErrorTemplate::MethodNotAllowed(None)),
    }
}

} // verus!
