//! Subscriptions to the readings of devices.

use vstd::prelude::*;
use crate::connection::WebSocketConnection;
use crate::exchange::{
    done1, fail, first_delivery, to_one, Answer, Progress, ProgressView, Step, StepView,
};
use crate::messages::{DispatchEvent, WebSocketMessage};
use crate::services::device::{find_owned_device, owned_device};
use crate::payload::WebSocketMessageData;
use crate::templates::WebSocketErrorTemplate;
use crate::text::same_text;

verus! {

/// Subscribing to the count of a device's readings.
pub open spec fn device_records_update_plan(
    message: WebSocketMessage,
    connection: WebSocketConnection,
    answers: Seq<Answer>,
) -> StepView {
    match message.data {
        WebSocketMessageData::SubscribeToDeviceRecordsUpdate { device_id, greenhouse_id } =>
            match owned_device(device_id, greenhouse_id, connection, answers, 0) {
            ProgressView::Stop(step) => step,
            ProgressView::Go(device) => StepView::Done(
                seq![
                    first_delivery(
                        DispatchEvent::DeviceRecordsUpdate { device_id: device.id },
                        connection.id,
                    ),
                ],
            ),
        },
        _ => StepView::Failed(WebSocketErrorTemplate::BadRequest(None).error()),
    }
}

fn device_records_update(
    message: &WebSocketMessage,
    connection: &WebSocketConnection,
    answers: &Vec<Answer>,
) -> (r: Step)
    requires
        connection.authenticated(),
    ensures
        r@ == device_records_update_plan(*message, *connection, answers@),
{
    let (device_id, greenhouse_id) = match &message.data {
        WebSocketMessageData::SubscribeToDeviceRecordsUpdate { device_id, greenhouse_id } => (
            *device_id,
            *greenhouse_id,
        ),
        _ => {
            return fail(WebSocketErrorTemplate::BadRequest(None));
        },
    };
    let device = match find_owned_device(device_id, greenhouse_id, connection, answers, 0) {
        Progress::Stop(step) => {
            return step;
        },
        Progress::Go(device) => device,
    };
    done1(to_one(DispatchEvent::DeviceRecordsUpdate { device_id: device.id }, connection.id))
}

/// Subscribing to the averages of a device's readings over a range.
pub open spec fn device_records_average_update_plan(
    message: WebSocketMessage,
    connection: WebSocketConnection,
    answers: Seq<Answer>,
) -> StepView {
    match message.data {
        WebSocketMessageData::SubscribeToDeviceRecordsAverageUpdate {
            device_id,
            greenhouse_id,
            range,
        } => match owned_device(device_id, greenhouse_id, connection, answers, 0) {
            ProgressView::Stop(step) => step,
            ProgressView::Go(device) => StepView::Done(
                seq![
                    first_delivery(
                        DispatchEvent::DeviceRecordsAverageUpdate { device_id: device.id, range },
                        connection.id,
                    ),
                ],
            ),
        },
        _ => StepView::Failed(WebSocketErrorTemplate::BadRequest(None).error()),
    }
}

fn device_records_average_update(
    message: &WebSocketMessage,
    connection: &WebSocketConnection,
    answers: &Vec<Answer>,
) -> (r: Step)
    requires
        connection.authenticated(),
    ensures
        r@ == device_records_average_update_plan(*message, *connection, answers@),
{
    let (device_id, greenhouse_id, range) = match &message.data {
        WebSocketMessageData::SubscribeToDeviceRecordsAverageUpdate {
            device_id,
            greenhouse_id,
            range,
        } => (*device_id, *greenhouse_id, *range),
        _ => {
            return fail(WebSocketErrorTemplate::BadRequest(None));
        },
    };
    let device = match find_owned_device(device_id, greenhouse_id, connection, answers, 0) {
        Progress::Stop(step) => {
            return step;
        },
        Progress::Go(device) => device,
    };
    done1(
        to_one(
            DispatchEvent::DeviceRecordsAverageUpdate { device_id: device.id, range },
            connection.id,
        ),
    )
}

/// What a subscription to readings comes to, by the path it names.
pub open spec fn subscribed(
    to: Seq<char>,
    message: WebSocketMessage,
    connection: WebSocketConnection,
    answers: Seq<Answer>,
) -> StepView {
    if to == "device_records"@ {
        device_records_update_plan(message, connection, answers)
    } else if to == "device_records/average"@ {
        device_records_average_update_plan(message, connection, answers)
    } else {
        StepView::Failed(WebSocketErrorTemplate::InvalidRequestField(None).error())
    }
}

/// Subscribes the connection to the readings of a device it may see.
pub fn subscribe(
    to: &str,
    message: &WebSocketMessage,
    connection: &WebSocketConnection,
    answers: &Vec<Answer>,
) -> (r: Step)
    requires
        connection.authenticated(),
    ensures
        r@ == subscribed(to@, *message, *connection, answers@),
{
    if same_text(to, "device_records") {
        device_records_update(message, connection, answers)
    } else if same_text(to, "device_records/average") {
        device_records_average_update(message, connection, answers)
    } else {
        fail(WebSocketErrorTemplate::InvalidRequestField(None))
    }
}

} // verus!
