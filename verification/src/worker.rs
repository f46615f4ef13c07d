//! What the worker decides: whom to ask for readings and what to tell the
//! controllers.

use vstd::prelude::*;
use vstd::string::*;
use crate::error::IoFailure;
use crate::messages::{AmqpPayload, AmqpPublisherMessage};
use crate::model::{Device, DeviceKind, DeviceStatus, Greenhouse, NewDeviceRecord};
use crate::numbers::F64Bits;

verus! {

/// Where an error of the worker came from.
#[derive(Clone, Copy, Debug, PartialEq, Eq, Structural)]
pub enum WorkerErrorKind {
    StdError(IoFailure),
    DieselError,
    R2d2Error,
    ReqwestError,
    SerdeJsonError,
    Other,
}

impl Default for WorkerErrorKind {
    fn default() -> (r: Self)
        ensures
            r == WorkerErrorKind::Other,
    {
        WorkerErrorKind::Other
    }
}

impl WorkerErrorKind {
    /// The words put in front of the source's own description.
    pub open spec fn label(self) -> Seq<char> {
        match self {
            WorkerErrorKind::StdError(_) => "std error: "@,
            WorkerErrorKind::DieselError => "Diesel error: "@,
            WorkerErrorKind::R2d2Error => "r2d2 error: "@,
            WorkerErrorKind::ReqwestError => "Reqwest error: "@,
            WorkerErrorKind::SerdeJsonError => "Serde JSON error: "@,
            WorkerErrorKind::Other => ""@,
        }
    }

    fn label_text(&self) -> (r: &'static str)
        ensures
            r@ == self.label(),
    {
        match self {
            WorkerErrorKind::StdError(_) => "std error: ",
            WorkerErrorKind::DieselError => "Diesel error: ",
            WorkerErrorKind::R2d2Error => "r2d2 error: ",
            WorkerErrorKind::ReqwestError => "Reqwest error: ",
            WorkerErrorKind::SerdeJsonError => "Serde JSON error: ",
            WorkerErrorKind::Other => "",
        }
    }
}

/// An error of the worker.
#[derive(Debug)]
pub struct WorkerError {
    pub http_code: u16,
    pub message: String,
    pub kind: WorkerErrorKind,
}

impl WorkerError {
    /// Builds an error. Without a kind the error is of kind `Other`.
    pub fn new(http_code: u16, message: String, error: Option<WorkerErrorKind>) -> (r: WorkerError)
        ensures
            r.http_code == http_code,
            r.message@ == message@,
            r.kind == (match error {
                Some(kind) => kind,
                None => WorkerErrorKind::Other,
            }),
    {
        WorkerError {
            http_code,
            message,
            kind: match error {
                Some(kind) => kind,
                None => WorkerErrorKind::Other,
            },
        }
    }

    /// Wraps a failure of an outside component. A database lookup that found
    /// no row becomes `Not found` (404); every other failure is a 500 whose
    /// message is the component's label followed by its own description.
    pub fn from_source(kind: WorkerErrorKind, not_found: bool, description: &str) -> (r:
        WorkerError)
        ensures
            r.kind == kind,
            kind == WorkerErrorKind::DieselError && not_found ==> r.http_code == 404 && r.message@
                == "Not found"@,
            !(kind == WorkerErrorKind::DieselError && not_found) ==> r.http_code == 500
                && r.message@ == kind.label() + description@,
    {
        if kind == WorkerErrorKind::DieselError && not_found {
            WorkerError::new(404, String::from_str("Not found"), Some(kind))
        } else {
            let message = String::from_str(kind.label_text()).concat(description);
            WorkerError::new(500, message, Some(kind))
        }
    }
}

/// Seconds between two rounds of asking every device for a reading.
pub const REQUEST_INTERVAL_AS_SECS: u64 = 60;

/// The external id that a device without one is asked under.
pub const DEFAULT_EXTERNAL_ID: i16 = 1;

/// Where the worker finds the devices of the greenhouses.
#[derive(Clone, Debug)]
pub struct Settings {
    pub external_devices_api_url: String,
}

/// The address of the interface to the devices.
pub fn get_external_devices_api_url(settings: &Settings) -> (r: String)
    ensures
        r@ == settings.external_devices_api_url@,
{
    settings.external_devices_api_url.clone()
}

/// What a sensor is asked for.
#[derive(Clone, Copy, Debug, PartialEq, Eq, Structural)]
pub enum Reading {
    /// Temperature and humidity of the air, from the sensor with this
    /// external id.
    TemperatureAndHumidity { external_id: i16 },
    /// Moisture of the soil, from the sensor with this external id.
    SoilMoisture { external_id: i16 },
}

/// What a controller is told.
#[derive(Clone, Copy, Debug, PartialEq, Eq, Structural)]
pub enum Command {
    Humidification { state: u8 },
    Irrigation { external_id: i16, state: u8 },
    Windows { state: u8 },
}

/// An external id, or the default where there is none.
pub open spec fn external_id_or_default(external_id: Option<i16>) -> i16 {
    match external_id {
        Some(id) => id,
        None => DEFAULT_EXTERNAL_ID,
    }
}

/// What a device is asked for, if anything. A disabled device is left
/// alone. A temperature sensor reports the humidity as well, so that the
/// humidity sensor beside it is never asked by itself. Controllers report
/// nothing.
pub open spec fn reading_of(device: Device) -> Option<Reading> {
    if device.status == DeviceStatus::Disabled {
        None
    } else {
        match device.kind {
            DeviceKind::TemperatureSensor => Some(
                Reading::TemperatureAndHumidity {
                    external_id: external_id_or_default(device.external_id),
                },
            ),
            DeviceKind::SoilMoistureSensor => match device.external_id {
                Some(external_id) => Some(Reading::SoilMoisture { external_id }),
                None => None,
            },
            _ => None,
        }
    }
}

/// Decides what to ask a device for.
pub fn request(device: &Device) -> (r: Option<Reading>)
    ensures
        r == reading_of(*device),
{
    if device.status == DeviceStatus::Disabled {
        return None;
    }
    match device.kind {
        DeviceKind::TemperatureSensor => Some(
            Reading::TemperatureAndHumidity {
                external_id: match device.external_id {
                    Some(id) => id,
                    None => DEFAULT_EXTERNAL_ID,
                },
            },
        ),
        DeviceKind::SoilMoistureSensor => match device.external_id {
            Some(external_id) => Some(Reading::SoilMoisture { external_id }),
            None => None,
        },
        _ => None,
    }
}

/// True when `peer` is the humidity sensor that stands beside the
/// temperature sensor `device`.
pub open spec fn beside(device: Device, peer: Device) -> bool {
    peer.kind == DeviceKind::HumiditySensor && peer.external_id == device.external_id
}

/// Finds among the devices of a greenhouse the first humidity sensor that
/// stands beside a temperature sensor. Its place in the list comes back.
pub fn humidity_peer(device: &Device, devices: &Vec<Device>) -> (r: Option<usize>)
    ensures
        match r {
            Some(i) => i < devices@.len() && beside(*device, devices@[i as int]) && forall|j: int|
                0 <= j < i ==> !beside(*device, #[trigger] devices@[j]),
            None => forall|j: int| 0 <= j < devices@.len() ==> !beside(*device, #[trigger] devices@[j]),
        },
{
    let mut i: usize = 0;
    while i < devices.len()
        invariant
            i <= devices.len(),
            forall|j: int| 0 <= j < i ==> !beside(*device, #[trigger] devices@[j]),
        decreases devices.len() - i,
    {
        let peer = &devices[i];
        let same_id = match (peer.external_id, device.external_id) {
            (Some(a), Some(b)) => a == b,
            (None, None) => true,
            _ => false,
        };
        if peer.kind == DeviceKind::HumiditySensor && same_id {
            return Some(i);
        }
        i += 1;
    }
    None
}

/// The records to store for what a temperature sensor reported: its own
/// temperature, and the humidity for the sensor beside it if there is
/// one.
pub fn records_of_air(device_id: i64, temperature: F64Bits, humidity: F64Bits, peer: Option<i64>)
    -> (r: Vec<NewDeviceRecord>)
    ensures
        r@.len() == (if peer is Some {
            2int
        } else {
            1int
        }),
        r@[0] == (NewDeviceRecord { device_id, data: temperature }),
        peer is Some ==> r@[1] == (NewDeviceRecord { device_id: peer->Some_0, data: humidity }),
{
    let mut r: Vec<NewDeviceRecord> = Vec::new();
    r.push(NewDeviceRecord { device_id, data: temperature });
    if let Some(peer_id) = peer {
        r.push(NewDeviceRecord { device_id: peer_id, data: humidity });
    }
    r
}

/// Whom a request for readings is about.
#[derive(Clone, Copy, Debug, PartialEq, Eq, Structural)]
pub enum Target {
    Device(i64),
    Greenhouse(i64),
    Nobody,
}

/// Whom a payload asks readings of: the device it names, else the
/// greenhouse it names. Every other payload asks nothing of the worker's
/// sensors.
pub open spec fn target_of(payload: AmqpPayload) -> Target {
    match payload {
        AmqpPayload::RequestData { device_id: Some(device_id), greenhouse_id } => Target::Device(
            device_id,
        ),
        AmqpPayload::RequestData { device_id: None, greenhouse_id: Some(greenhouse_id) } =>
            Target::Greenhouse(greenhouse_id),
        _ => Target::Nobody,
    }
}

/// Decides whom a payload that asks for readings is about.
pub fn start_data_request_consumer(payload: &AmqpPayload) -> (r: Target)
    ensures
        r == target_of(*payload),
{
    match payload {
        AmqpPayload::RequestData { device_id: Some(device_id), greenhouse_id } => Target::Device(
            *device_id,
        ),
        AmqpPayload::RequestData { device_id: None, greenhouse_id: Some(greenhouse_id) } =>
            Target::Greenhouse(*greenhouse_id),
        _ => Target::Nobody,
    }
}

/// Whether a reading of this device is taken through the temperature
/// sensor beside it: that is so for humidity sensors.
pub fn asks_through_peer(device: &Device) -> (r: bool)
    ensures
        r == (device.kind == DeviceKind::HumiditySensor),
{
    device.kind == DeviceKind::HumiditySensor
}

/// What a controller is told for a new state, if the device is a
/// controller.
pub open spec fn command_of(device: Device, state: u8) -> Option<Command> {
    match device.kind {
        DeviceKind::HumidificationController => Some(Command::Humidification { state }),
        DeviceKind::IrrigationController => Some(
            Command::Irrigation { external_id: external_id_or_default(device.external_id), state },
        ),
        DeviceKind::WindowsController => Some(Command::Windows { state }),
        _ => None,
    }
}

/// The change of state that a payload asks for, if it asks for one.
pub open spec fn change_of(payload: AmqpPayload) -> Option<(i64, u8)> {
    match payload {
        AmqpPayload::ChangeControllerState { device_id, state } => Some((device_id, state)),
        _ => None,
    }
}

/// Reads from a payload the change of a controller's state that it asks
/// for.
pub fn start_change_controller_state_consumer(payload: &AmqpPayload) -> (r: Option<(i64, u8)>)
    ensures
        r == change_of(*payload),
{
    match payload {
        AmqpPayload::ChangeControllerState { device_id, state } => Some((*device_id, *state)),
        _ => None,
    }
}

/// Decides what to tell a device for a new state.
pub fn command(device: &Device, state: u8) -> (r: Option<Command>)
    ensures
        r == command_of(*device, state),
{
    match device.kind {
        DeviceKind::HumidificationController => Some(Command::Humidification { state }),
        DeviceKind::IrrigationController => Some(
            Command::Irrigation {
                external_id: match device.external_id {
                    Some(id) => id,
                    None => DEFAULT_EXTERNAL_ID,
                },
                state,
            },
        ),
        DeviceKind::WindowsController => Some(Command::Windows { state }),
        _ => None,
    }
}

/// The news that a controller changed its state, as it is published.
pub fn news_of_change<'a>(device_id: i64) -> (r: AmqpPublisherMessage<'a>)
    ensures
        r.exchange is Some,
        r.exchange->Some_0@ == "device"@,
        r.routing_key is Some,
        r.routing_key->Some_0@ == "device.controller.state.changed"@,
        r.payload == (AmqpPayload::DispatchDevice { id: device_id }),
{
    AmqpPublisherMessage {
        exchange: Some("device"),
        routing_key: Some("device.controller.state.changed"),
        payload: AmqpPayload::DispatchDevice { id: device_id },
    }
}

/// What came back to the worker from the datastore, from a device, or from
/// the bus.
#[derive(Debug)]
pub enum WorkerAnswer {
    Device(Device),
    Greenhouse(Greenhouse),
    /// The code with which the devices' interface answered a command.
    Code(u16),
    /// Whether a reading was stored.
    Stored(bool),
    /// What was published is out.
    Published,
    /// What was asked for could not be had.
    Missing,
}

/// What the worker does next about a change of a controller's state.
#[derive(Clone, Copy, Debug, PartialEq, Eq, Structural)]
pub enum ChangeStep {
    /// Look the device up.
    FindDevice { id: i64 },
    /// Look the greenhouse of the device up; its token opens the devices'
    /// interface.
    FindGreenhouse { id: i64 },
    /// Tell the device its new state.
    Tell { command: Command },
    /// Store the new state as a reading of the device.
    Store { record: NewDeviceRecord },
    /// Publish the news that the device changed; see [`news_of_change`].
    Publish { device_id: i64 },
    /// Nothing is left to do.
    Done,
}

/// The reading that records a controller's new state.
pub open spec fn record_of_state(device_id: i64, state: u8) -> NewDeviceRecord {
    NewDeviceRecord { device_id, data: F64Bits { bits: F64Bits::of_small(state) } }
}

/// What the worker does next about a payload, given what came back so far.
///
/// Only a payload that asks for a change of state sets anything going. The
/// device is looked up, then its greenhouse; a device that is no
/// controller is left alone. The controller is told its new state. Only if
/// the devices' interface answers with 200 is the state stored as a
/// reading, and only if that reading was stored is the news published. A
/// lookup that finds nothing, any other code, or a reading that could not
/// be stored ends the matter.
pub open spec fn change_plan(payload: AmqpPayload, came: Seq<WorkerAnswer>) -> ChangeStep {
    match payload {
        AmqpPayload::ChangeControllerState { device_id, state } => if came.len() == 0 {
            ChangeStep::FindDevice { id: device_id }
        } else {
            match came[0] {
                WorkerAnswer::Device(device) => if came.len() == 1 {
                    ChangeStep::FindGreenhouse { id: device.greenhouse_id }
                } else if !(came[1] is Greenhouse) {
                    ChangeStep::Done
                } else {
                    match command_of(device, state) {
                        None => ChangeStep::Done,
                        Some(command) => if came.len() == 2 {
                            ChangeStep::Tell { command }
                        } else if came[2] != WorkerAnswer::Code(200) {
                            ChangeStep::Done
                        } else if came.len() == 3 {
                            ChangeStep::Store { record: record_of_state(device_id, state) }
                        } else if came[3] != WorkerAnswer::Stored(true) {
                            ChangeStep::Done
                        } else if came.len() == 4 {
                            ChangeStep::Publish { device_id }
                        } else {
                            ChangeStep::Done
                        },
                    }
                },
                _ => ChangeStep::Done,
            }
        },
        _ => ChangeStep::Done,
    }
}

/// Decides what to do next about a payload that may ask for a change of a
/// controller's state. The caller does it, adds what came back, and asks
/// again.
pub fn change_step(payload: &AmqpPayload, came: &Vec<WorkerAnswer>) -> (r: ChangeStep)
    ensures
        r == change_plan(*payload, came@),
{
    let (device_id, state) = match start_change_controller_state_consumer(payload) {
        Some(change) => change,
        None => {
            return ChangeStep::Done;
        },
    };
    if came.len() == 0 {
        return ChangeStep::FindDevice { id: device_id };
    }
    let device = match &came[0] {
        WorkerAnswer::Device(device) => device,
        _ => {
            return ChangeStep::Done;
        },
    };
    if came.len() == 1 {
        return ChangeStep::FindGreenhouse { id: device.greenhouse_id };
    }
    match &came[1] {
        WorkerAnswer::Greenhouse(_) => {},
        _ => {
            return ChangeStep::Done;
        },
    }
    let command = match command(device, state) {
        Some(command) => command,
        None => {
            return ChangeStep::Done;
        },
    };
    if came.len() == 2 {
        return ChangeStep::Tell { command };
    }
    match &came[2] {
        WorkerAnswer::Code(code) => {
            if *code != 200 {
                return ChangeStep::Done;
            }
        },
        _ => {
            return ChangeStep::Done;
        },
    }
    if came.len() == 3 {
        return ChangeStep::Store {
            record: NewDeviceRecord { device_id, data: F64Bits::from_u8(state) },
        };
    }
    match &came[3] {
        WorkerAnswer::Stored(true) => {},
        _ => {
            return ChangeStep::Done;
        },
    }
    if came.len() == 4 {
        ChangeStep::Publish { device_id }
    } else {
        ChangeStep::Done
    }
}

/// A reading is stored only for a controller that answered with 200, and
/// the news is published only once that reading is stored.
pub proof fn lemma_change_in_order(payload: AmqpPayload, came: Seq<WorkerAnswer>)
    ensures
        change_plan(payload, came) is Store ==> {
            &&& payload is ChangeControllerState
            &&& came.len() == 3
            &&& came[0] is Device
            &&& came[0]->Device_0.kind.controller()
            &&& came[2] == WorkerAnswer::Code(200)
            &&& change_plan(payload, came)->Store_record == record_of_state(
                payload->ChangeControllerState_device_id,
                payload->ChangeControllerState_state,
            )
        },
        change_plan(payload, came) is Publish ==> {
            &&& came.len() == 4
            &&& came[2] == WorkerAnswer::Code(200)
            &&& came[3] == WorkerAnswer::Stored(true)
            &&& change_plan(payload, came)->Publish_device_id
                == payload->ChangeControllerState_device_id
        },
        came.len() > 2 && came[2] != WorkerAnswer::Code(200) ==> change_plan(payload, came)
            is Done,
{
}

/// The device that is asked when readings of a device are wanted: the
/// temperature sensor beside it for a humidity sensor that has one, since
/// that sensor reports both; else the device itself.
pub fn device_to_ask(device: Device, peer: Option<Device>) -> (r: Device)
    ensures
        r == (if device.kind == DeviceKind::HumiditySensor && peer is Some {
            peer->Some_0
        } else {
            device
        }),
{
    if device.kind == DeviceKind::HumiditySensor {
        match peer {
            Some(peer) => peer,
            None => device,
        }
    } else {
        device
    }
}

/// How long the worker waits between two rounds of asking every device of
/// every greenhouse.
pub fn start_data_requesting_with_interval() -> (r: u64)
    ensures
        r == REQUEST_INTERVAL_AS_SECS,
{
    REQUEST_INTERVAL_AS_SECS
}

} // verus!
