//! The bodies of envelopes.

use vstd::prelude::*;
use vstd::string::*;
use crate::model::{
    Device, DeviceKind, DeviceRecordsAverage, DeviceRecordsTimestampRange, DeviceStatus,
    Greenhouse, UserMe, UserPublic, UserTheme,
};
use crate::numbers::F64Bits;
use crate::text::{copy_optional_text, optional_text};

verus! {

/// The body of an envelope: one of the request bodies, the subscribe
/// bodies, the dispatch bodies, a plain reply, or nothing.
#[derive(Debug)]
pub enum WebSocketMessageData {
    RequestPatchUser {
        email: String,
        username: String,
        locale: String,
        theme: UserTheme,
        new_password: Option<String>,
        current_password: Option<String>,
    },
    RequestPostGreenhouse {
        name: String,
        token: String,
    },
    RequestPatchGreenhouse {
        id: i64,
        name: String,
        token: String,
        maximum_average_humidity: Option<F64Bits>,
        minimum_average_temperature: Option<F64Bits>,
    },
    RequestDeleteGreenhouse {
        id: i64,
        current_password: String,
    },
    RequestPatchDevice {
        id: i64,
        greenhouse_id: i64,
        name: Option<String>,
        maximum_data_value: Option<F64Bits>,
    },
    RequestPatchDevicesResetNames {
        greenhouse_id: i64,
    },
    RequestPatchDeviceState {
        id: i64,
        greenhouse_id: i64,
        state: u8,
    },
    RequestPostDeviceCustomData {
        id: i64,
        greenhouse_id: i64,
        data: F64Bits,
        time: u64,
    },
    RequestPostDeviceRequestData {
        id: Option<i64>,
        greenhouse_id: i64,
    },
    RequestPostDeviceDisable {
        id: i64,
        greenhouse_id: i64,
    },
    RequestPostDeviceEnable {
        id: i64,
        greenhouse_id: i64,
    },
    Authorize {
        token: String,
    },
    SubscribeToUserUpdate {
        id: i64,
    },
    SubscribeToUserMeUpdates {},
    SubscribeToGreenhouseUpdate {
        id: i64,
    },
    SubscribeToDeviceUpdate {
        id: i64,
        greenhouse_id: i64,
    },
    SubscribeToDevicesUpdate {
        greenhouse_id: i64,
    },
    SubscribeToDeviceRecordsUpdate {
        device_id: i64,
        greenhouse_id: i64,
    },
    SubscribeToDeviceRecordsAverageUpdate {
        device_id: i64,
        greenhouse_id: i64,
        range: DeviceRecordsTimestampRange,
    },
    DispatchUserUpdate {
        id: i64,
        username: String,
        created_at: u64,
        greenhouses: i64,
    },
    DispatchUserMeUpdate {
        id: i64,
        email: String,
        username: String,
        created_at: u64,
        locale: String,
        theme: UserTheme,
        greenhouses: i64,
    },
    DispatchGreenhouseMineUpdate {
        id: i64,
        name: String,
        token: String,
        owner_id: i64,
        created_at: u64,
        maximum_average_humidity: Option<F64Bits>,
        minimum_average_temperature: Option<F64Bits>,
    },
    DispatchGreenhouseMineDelete {
        id: i64,
    },
    DispatchDeviceUpdate {
        id: i64,
        external_id: Option<i16>,
        name: Option<String>,
        status: DeviceStatus,
        kind: DeviceKind,
        greenhouse_id: i64,
        created_at: u64,
        maximum_data_value: Option<F64Bits>,
        latest_data: Option<F64Bits>,
    },
    DispatchDeviceRecordsUpdate {
        device_id: i64,
        quantity: i64,
    },
    DispatchDeviceRecordsAverageUpdate {
        device_id: i64,
        range: DeviceRecordsTimestampRange,
        records: Vec<DeviceRecordsAverage>,
    },
    Response {
        code: u32,
        message: String,
    },
    Empty,
}

/// Mathematical value of a [`WebSocketMessageData`].
pub enum WebSocketMessageDataView {
    RequestPatchUser {
        email: Seq<char>,
        username: Seq<char>,
        locale: Seq<char>,
        theme: UserTheme,
        new_password: Option<Seq<char>>,
        current_password: Option<Seq<char>>,
    },
    RequestPostGreenhouse {
        name: Seq<char>,
        token: Seq<char>,
    },
    RequestPatchGreenhouse {
        id: i64,
        name: Seq<char>,
        token: Seq<char>,
        maximum_average_humidity: Option<F64Bits>,
        minimum_average_temperature: Option<F64Bits>,
    },
    RequestDeleteGreenhouse {
        id: i64,
        current_password: Seq<char>,
    },
    RequestPatchDevice {
        id: i64,
        greenhouse_id: i64,
        name: Option<Seq<char>>,
        maximum_data_value: Option<F64Bits>,
    },
    RequestPatchDevicesResetNames {
        greenhouse_id: i64,
    },
    RequestPatchDeviceState {
        id: i64,
        greenhouse_id: i64,
        state: u8,
    },
    RequestPostDeviceCustomData {
        id: i64,
        greenhouse_id: i64,
        data: F64Bits,
        time: u64,
    },
    RequestPostDeviceRequestData {
        id: Option<i64>,
        greenhouse_id: i64,
    },
    RequestPostDeviceDisable {
        id: i64,
        greenhouse_id: i64,
    },
    RequestPostDeviceEnable {
        id: i64,
        greenhouse_id: i64,
    },
    Authorize {
        token: Seq<char>,
    },
    SubscribeToUserUpdate {
        id: i64,
    },
    SubscribeToUserMeUpdates {},
    SubscribeToGreenhouseUpdate {
        id: i64,
    },
    SubscribeToDeviceUpdate {
        id: i64,
        greenhouse_id: i64,
    },
    SubscribeToDevicesUpdate {
        greenhouse_id: i64,
    },
    SubscribeToDeviceRecordsUpdate {
        device_id: i64,
        greenhouse_id: i64,
    },
    SubscribeToDeviceRecordsAverageUpdate {
        device_id: i64,
        greenhouse_id: i64,
        range: DeviceRecordsTimestampRange,
    },
    DispatchUserUpdate {
        id: i64,
        username: Seq<char>,
        created_at: u64,
        greenhouses: i64,
    },
    DispatchUserMeUpdate {
        id: i64,
        email: Seq<char>,
        username: Seq<char>,
        created_at: u64,
        locale: Seq<char>,
        theme: UserTheme,
        greenhouses: i64,
    },
    DispatchGreenhouseMineUpdate {
        id: i64,
        name: Seq<char>,
        token: Seq<char>,
        owner_id: i64,
        created_at: u64,
        maximum_average_humidity: Option<F64Bits>,
        minimum_average_temperature: Option<F64Bits>,
    },
    DispatchGreenhouseMineDelete {
        id: i64,
    },
    DispatchDeviceUpdate {
        id: i64,
        external_id: Option<i16>,
        name: Option<Seq<char>>,
        status: DeviceStatus,
        kind: DeviceKind,
        greenhouse_id: i64,
        created_at: u64,
        maximum_data_value: Option<F64Bits>,
        latest_data: Option<F64Bits>,
    },
    DispatchDeviceRecordsUpdate {
        device_id: i64,
        quantity: i64,
    },
    DispatchDeviceRecordsAverageUpdate {
        device_id: i64,
        range: DeviceRecordsTimestampRange,
        records: Seq<DeviceRecordsAverage>,
    },
    Response {
        code: u32,
        message: Seq<char>,
    },
    Empty,
}

impl View for WebSocketMessageData {
    type V = WebSocketMessageDataView;

    open spec fn view(&self) -> WebSocketMessageDataView {
        match *self {
            WebSocketMessageData::RequestPatchUser { email, username, locale, theme, new_password, current_password } => WebSocketMessageDataView::RequestPatchUser {
                email: email@,
                username: username@,
                locale: locale@,
                theme,
                new_password: optional_text(new_password),
                current_password: optional_text(current_password),
            },
            WebSocketMessageData::RequestPostGreenhouse { name, token } => WebSocketMessageDataView::RequestPostGreenhouse {
                name: name@,
                token: token@,
            },
            WebSocketMessageData::RequestPatchGreenhouse { id, name, token, maximum_average_humidity, minimum_average_temperature } => WebSocketMessageDataView::RequestPatchGreenhouse {
                id,
                name: name@,
                token: token@,
                maximum_average_humidity,
                minimum_average_temperature,
            },
            WebSocketMessageData::RequestDeleteGreenhouse { id, current_password } => WebSocketMessageDataView::RequestDeleteGreenhouse {
                id,
                current_password: current_password@,
            },
            WebSocketMessageData::RequestPatchDevice { id, greenhouse_id, name, maximum_data_value } => WebSocketMessageDataView::RequestPatchDevice {
                id,
                greenhouse_id,
                name: optional_text(name),
                maximum_data_value,
            },
            WebSocketMessageData::RequestPatchDevicesResetNames { greenhouse_id } => WebSocketMessageDataView::RequestPatchDevicesResetNames {
                greenhouse_id,
            },
            WebSocketMessageData::RequestPatchDeviceState { id, greenhouse_id, state } => WebSocketMessageDataView::RequestPatchDeviceState {
                id,
                greenhouse_id,
                state,
            },
            WebSocketMessageData::RequestPostDeviceCustomData { id, greenhouse_id, data, time } => WebSocketMessageDataView::RequestPostDeviceCustomData {
                id,
                greenhouse_id,
                data,
                time,
            },
            WebSocketMessageData::RequestPostDeviceRequestData { id, greenhouse_id } => WebSocketMessageDataView::RequestPostDeviceRequestData {
                id,
                greenhouse_id,
            },
            WebSocketMessageData::RequestPostDeviceDisable { id, greenhouse_id } => WebSocketMessageDataView::RequestPostDeviceDisable {
                id,
                greenhouse_id,
            },
            WebSocketMessageData::RequestPostDeviceEnable { id, greenhouse_id } => WebSocketMessageDataView::RequestPostDeviceEnable {
                id,
                greenhouse_id,
            },
            WebSocketMessageData::Authorize { token } => WebSocketMessageDataView::Authorize {
                token: token@,
            },
            WebSocketMessageData::SubscribeToUserUpdate { id } => WebSocketMessageDataView::SubscribeToUserUpdate {
                id,
            },
            WebSocketMessageData::SubscribeToUserMeUpdates {} => WebSocketMessageDataView::SubscribeToUserMeUpdates {},
            WebSocketMessageData::SubscribeToGreenhouseUpdate { id } => WebSocketMessageDataView::SubscribeToGreenhouseUpdate {
                id,
            },
            WebSocketMessageData::SubscribeToDeviceUpdate { id, greenhouse_id } => WebSocketMessageDataView::SubscribeToDeviceUpdate {
                id,
                greenhouse_id,
            },
            WebSocketMessageData::SubscribeToDevicesUpdate { greenhouse_id } => WebSocketMessageDataView::SubscribeToDevicesUpdate {
                greenhouse_id,
            },
            WebSocketMessageData::SubscribeToDeviceRecordsUpdate { device_id, greenhouse_id } => WebSocketMessageDataView::SubscribeToDeviceRecordsUpdate {
                device_id,
                greenhouse_id,
            },
            WebSocketMessageData::SubscribeToDeviceRecordsAverageUpdate { device_id, greenhouse_id, range } => WebSocketMessageDataView::SubscribeToDeviceRecordsAverageUpdate {
                device_id,
                greenhouse_id,
                range,
            },
            WebSocketMessageData::DispatchUserUpdate { id, username, created_at, greenhouses } => WebSocketMessageDataView::DispatchUserUpdate {
                id,
                username: username@,
                created_at,
                greenhouses,
            },
            WebSocketMessageData::DispatchUserMeUpdate { id, email, username, created_at, locale, theme, greenhouses } => WebSocketMessageDataView::DispatchUserMeUpdate {
                id,
                email: email@,
                username: username@,
                created_at,
                locale: locale@,
                theme,
                greenhouses,
            },
            WebSocketMessageData::DispatchGreenhouseMineUpdate { id, name, token, owner_id, created_at, maximum_average_humidity, minimum_average_temperature } => WebSocketMessageDataView::DispatchGreenhouseMineUpdate {
                id,
                name: name@,
                token: token@,
                owner_id,
                created_at,
                maximum_average_humidity,
                minimum_average_temperature,
            },
            WebSocketMessageData::DispatchGreenhouseMineDelete { id } => WebSocketMessageDataView::DispatchGreenhouseMineDelete {
                id,
            },
            WebSocketMessageData::DispatchDeviceUpdate { id, external_id, name, status, kind, greenhouse_id, created_at, maximum_data_value, latest_data } => WebSocketMessageDataView::DispatchDeviceUpdate {
                id,
                external_id,
                name: optional_text(name),
                status,
                kind,
                greenhouse_id,
                created_at,
                maximum_data_value,
                latest_data,
            },
            WebSocketMessageData::DispatchDeviceRecordsUpdate { device_id, quantity } => WebSocketMessageDataView::DispatchDeviceRecordsUpdate {
                device_id,
                quantity,
            },
            WebSocketMessageData::DispatchDeviceRecordsAverageUpdate { device_id, range, records } => WebSocketMessageDataView::DispatchDeviceRecordsAverageUpdate {
                device_id,
                range,
                records: records@,
            },
            WebSocketMessageData::Response { code, message } => WebSocketMessageDataView::Response {
                code,
                message: message@,
            },
            WebSocketMessageData::Empty => WebSocketMessageDataView::Empty,
        }
    }
}

/// A copy of a list of averages.
pub fn copy_averages(records: &Vec<DeviceRecordsAverage>) -> (r: Vec<DeviceRecordsAverage>)
    ensures
        r@ == records@,
{
    let mut copy: Vec<DeviceRecordsAverage> = Vec::new();
    let mut i: usize = 0;
    while i < records.len()
        invariant
            i <= records.len(),
            copy@ == records@.subrange(0, i as int),
        decreases records.len() - i,
    {
        copy.push(records[i]);
        assert(copy@ =~= records@.subrange(0, i + 1));
        i += 1;
    }
    assert(records@.subrange(0, records.len() as int) =~= records@);
    copy
}

impl Clone for WebSocketMessageData {
    fn clone(&self) -> (r: Self)
        ensures
            r@ == self@,
    {
        match self {
            WebSocketMessageData::RequestPatchUser { email, username, locale, theme, new_password, current_password } => WebSocketMessageData::RequestPatchUser {
                email: email.clone(),
                username: username.clone(),
                locale: locale.clone(),
                theme: *theme,
                new_password: copy_optional_text(new_password),
                current_password: copy_optional_text(current_password),
            },
            WebSocketMessageData::RequestPostGreenhouse { name, token } => WebSocketMessageData::RequestPostGreenhouse {
                name: name.clone(),
                token: token.clone(),
            },
            WebSocketMessageData::RequestPatchGreenhouse { id, name, token, maximum_average_humidity, minimum_average_temperature } => WebSocketMessageData::RequestPatchGreenhouse {
                id: *id,
                name: name.clone(),
                token: token.clone(),
                maximum_average_humidity: *maximum_average_humidity,
                minimum_average_temperature: *minimum_average_temperature,
            },
            WebSocketMessageData::RequestDeleteGreenhouse { id, current_password } => WebSocketMessageData::RequestDeleteGreenhouse {
                id: *id,
                current_password: current_password.clone(),
            },
            WebSocketMessageData::RequestPatchDevice { id, greenhouse_id, name, maximum_data_value } => WebSocketMessageData::RequestPatchDevice {
                id: *id,
                greenhouse_id: *greenhouse_id,
                name: copy_optional_text(name),
                maximum_data_value: *maximum_data_value,
            },
            WebSocketMessageData::RequestPatchDevicesResetNames { greenhouse_id } => WebSocketMessageData::RequestPatchDevicesResetNames {
                greenhouse_id: *greenhouse_id,
            },
            WebSocketMessageData::RequestPatchDeviceState { id, greenhouse_id, state } => WebSocketMessageData::RequestPatchDeviceState {
                id: *id,
                greenhouse_id: *greenhouse_id,
                state: *state,
            },
            WebSocketMessageData::RequestPostDeviceCustomData { id, greenhouse_id, data, time } => WebSocketMessageData::RequestPostDeviceCustomData {
                id: *id,
                greenhouse_id: *greenhouse_id,
                data: *data,
                time: *time,
            },
            WebSocketMessageData::RequestPostDeviceRequestData { id, greenhouse_id } => WebSocketMessageData::RequestPostDeviceRequestData {
                id: *id,
                greenhouse_id: *greenhouse_id,
            },
            WebSocketMessageData::RequestPostDeviceDisable { id, greenhouse_id } => WebSocketMessageData::RequestPostDeviceDisable {
                id: *id,
                greenhouse_id: *greenhouse_id,
            },
            WebSocketMessageData::RequestPostDeviceEnable { id, greenhouse_id } => WebSocketMessageData::RequestPostDeviceEnable {
                id: *id,
                greenhouse_id: *greenhouse_id,
            },
            WebSocketMessageData::Authorize { token } => WebSocketMessageData::Authorize {
                token: token.clone(),
            },
            WebSocketMessageData::SubscribeToUserUpdate { id } => WebSocketMessageData::SubscribeToUserUpdate {
                id: *id,
            },
            WebSocketMessageData::SubscribeToUserMeUpdates {} => WebSocketMessageData::SubscribeToUserMeUpdates {},
            WebSocketMessageData::SubscribeToGreenhouseUpdate { id } => WebSocketMessageData::SubscribeToGreenhouseUpdate {
                id: *id,
            },
            WebSocketMessageData::SubscribeToDeviceUpdate { id, greenhouse_id } => WebSocketMessageData::SubscribeToDeviceUpdate {
                id: *id,
                greenhouse_id: *greenhouse_id,
            },
            WebSocketMessageData::SubscribeToDevicesUpdate { greenhouse_id } => WebSocketMessageData::SubscribeToDevicesUpdate {
                greenhouse_id: *greenhouse_id,
            },
            WebSocketMessageData::SubscribeToDeviceRecordsUpdate { device_id, greenhouse_id } => WebSocketMessageData::SubscribeToDeviceRecordsUpdate {
                device_id: *device_id,
                greenhouse_id: *greenhouse_id,
            },
            WebSocketMessageData::SubscribeToDeviceRecordsAverageUpdate { device_id, greenhouse_id, range } => WebSocketMessageData::SubscribeToDeviceRecordsAverageUpdate {
                device_id: *device_id,
                greenhouse_id: *greenhouse_id,
                range: *range,
            },
            WebSocketMessageData::DispatchUserUpdate { id, username, created_at, greenhouses } => WebSocketMessageData::DispatchUserUpdate {
                id: *id,
                username: username.clone(),
                created_at: *created_at,
                greenhouses: *greenhouses,
            },
            WebSocketMessageData::DispatchUserMeUpdate { id, email, username, created_at, locale, theme, greenhouses } => WebSocketMessageData::DispatchUserMeUpdate {
                id: *id,
                email: email.clone(),
                username: username.clone(),
                created_at: *created_at,
                locale: locale.clone(),
                theme: *theme,
                greenhouses: *greenhouses,
            },
            WebSocketMessageData::DispatchGreenhouseMineUpdate { id, name, token, owner_id, created_at, maximum_average_humidity, minimum_average_temperature } => WebSocketMessageData::DispatchGreenhouseMineUpdate {
                id: *id,
                name: name.clone(),
                token: token.clone(),
                owner_id: *owner_id,
                created_at: *created_at,
                maximum_average_humidity: *maximum_average_humidity,
                minimum_average_temperature: *minimum_average_temperature,
            },
            WebSocketMessageData::DispatchGreenhouseMineDelete { id } => WebSocketMessageData::DispatchGreenhouseMineDelete {
                id: *id,
            },
            WebSocketMessageData::DispatchDeviceUpdate { id, external_id, name, status, kind, greenhouse_id, created_at, maximum_data_value, latest_data } => WebSocketMessageData::DispatchDeviceUpdate {
                id: *id,
                external_id: *external_id,
                name: copy_optional_text(name),
                status: *status,
                kind: *kind,
                greenhouse_id: *greenhouse_id,
                created_at: *created_at,
                maximum_data_value: *maximum_data_value,
                latest_data: *latest_data,
            },
            WebSocketMessageData::DispatchDeviceRecordsUpdate { device_id, quantity } => WebSocketMessageData::DispatchDeviceRecordsUpdate {
                device_id: *device_id,
                quantity: *quantity,
            },
            WebSocketMessageData::DispatchDeviceRecordsAverageUpdate { device_id, range, records } => WebSocketMessageData::DispatchDeviceRecordsAverageUpdate {
                device_id: *device_id,
                range: *range,
                records: copy_averages(records),
            },
            WebSocketMessageData::Response { code, message } => WebSocketMessageData::Response {
                code: *code,
                message: message.clone(),
            },
            WebSocketMessageData::Empty => WebSocketMessageData::Empty,
        }
    }
}

impl Default for WebSocketMessageData {
    fn default() -> (r: Self)
        ensures
            r@ == WebSocketMessageDataView::Empty,
    {
        WebSocketMessageData::Empty
    }
}

/// The body that tells subscribers what everybody may see of a user.
pub open spec fn user_public_body(user: UserPublic) -> WebSocketMessageDataView {
    WebSocketMessageDataView::DispatchUserUpdate {
        id: user.id,
        username: user.username@,
        created_at: user.created_at,
        greenhouses: user.greenhouses,
    }
}

/// The body that tells a user's own sessions what changed about them.
pub open spec fn user_me_body(user: UserMe) -> WebSocketMessageDataView {
    WebSocketMessageDataView::DispatchUserMeUpdate {
        id: user.id,
        email: user.email@,
        username: user.username@,
        created_at: user.created_at,
        locale: user.locale.tag(),
        theme: user.theme,
        greenhouses: user.greenhouses,
    }
}

/// The body that carries a greenhouse to its owner.
pub open spec fn greenhouse_body(greenhouse: Greenhouse) -> WebSocketMessageDataView {
    WebSocketMessageDataView::DispatchGreenhouseMineUpdate {
        id: greenhouse.id,
        name: greenhouse.name@,
        token: greenhouse.token@,
        owner_id: greenhouse.owner_id,
        created_at: greenhouse.created_at,
        maximum_average_humidity: greenhouse.maximum_average_humidity,
        minimum_average_temperature: greenhouse.minimum_average_temperature,
    }
}

/// The body that carries a device together with its latest reading.
pub open spec fn device_body(device: Device, latest_data: Option<F64Bits>)
    -> WebSocketMessageDataView {
    WebSocketMessageDataView::DispatchDeviceUpdate {
        id: device.id,
        external_id: device.external_id,
        name: optional_text(device.name),
        status: device.status,
        kind: device.kind,
        greenhouse_id: device.greenhouse_id,
        created_at: device.created_at,
        maximum_data_value: device.maximum_data_value,
        latest_data,
    }
}

impl WebSocketMessageData {
    /// True of the empty body only.
    pub fn is_none(&self) -> (r: bool)
        ensures
            r == (self@ is Empty),
    {
        match self {
            WebSocketMessageData::Empty => true,
            _ => false,
        }
    }

    /// The body for a user as everybody may see them.
    pub fn for_user_public(user: &UserPublic) -> (r: WebSocketMessageData)
        ensures
            r@ == user_public_body(*user),
    {
        WebSocketMessageData::DispatchUserUpdate {
            id: user.id,
            username: user.username.clone(),
            created_at: user.created_at,
            greenhouses: user.greenhouses,
        }
    }

    /// The body for a user as they may see themselves.
    pub fn for_user_me(user: &UserMe) -> (r: WebSocketMessageData)
        ensures
            r@ == user_me_body(*user),
    {
        WebSocketMessageData::DispatchUserMeUpdate {
            id: user.id,
            email: user.email.clone(),
            username: user.username.clone(),
            created_at: user.created_at,
            locale: String::from_str(user.locale.name()),
            theme: user.theme,
            greenhouses: user.greenhouses,
        }
    }

    /// The body for a greenhouse.
    pub fn for_greenhouse(greenhouse: &Greenhouse) -> (r: WebSocketMessageData)
        ensures
            r@ == greenhouse_body(*greenhouse),
    {
        WebSocketMessageData::DispatchGreenhouseMineUpdate {
            id: greenhouse.id,
            name: greenhouse.name.clone(),
            token: greenhouse.token.clone(),
            owner_id: greenhouse.owner_id,
            created_at: greenhouse.created_at,
            maximum_average_humidity: greenhouse.maximum_average_humidity,
            minimum_average_temperature: greenhouse.minimum_average_temperature,
        }
    }

    /// The body for a device. The latest reading, if the device has any, is
    /// looked up by the caller.
    pub fn for_device(device: &Device, latest_data: Option<F64Bits>) -> (r: WebSocketMessageData)
        ensures
            r@ == device_body(*device, latest_data),
    {
        WebSocketMessageData::DispatchDeviceUpdate {
            id: device.id,
            external_id: device.external_id,
            name: copy_optional_text(&device.name),
            status: device.status,
            kind: device.kind,
            greenhouse_id: device.greenhouse_id,
            created_at: device.created_at,
            maximum_data_value: device.maximum_data_value,
            latest_data,
        }
    }
}

impl vstd::std_specs::convert::FromSpecImpl<UserPublic> for WebSocketMessageData {
    open spec fn obeys_from_spec() -> bool {
        false
    }

    open spec fn from_spec(user: UserPublic) -> WebSocketMessageData {
        arbitrary()
    }
}

impl From<UserPublic> for WebSocketMessageData {
    fn from(user: UserPublic) -> (r: WebSocketMessageData)
        ensures
            r@ == user_public_body(user),
    {
        WebSocketMessageData::for_user_public(&user)
    }
}

impl vstd::std_specs::convert::FromSpecImpl<UserMe> for WebSocketMessageData {
    open spec fn obeys_from_spec() -> bool {
        false
    }

    open spec fn from_spec(user: UserMe) -> WebSocketMessageData {
        arbitrary()
    }
}

impl From<UserMe> for WebSocketMessageData {
    fn from(user: UserMe) -> (r: WebSocketMessageData)
        ensures
            r@ == user_me_body(user),
    {
        WebSocketMessageData::for_user_me(&user)
    }
}

impl vstd::std_specs::convert::FromSpecImpl<Greenhouse> for WebSocketMessageData {
    open spec fn obeys_from_spec() -> bool {
        false
    }

    open spec fn from_spec(greenhouse: Greenhouse) -> WebSocketMessageData {
        arbitrary()
    }
}

impl From<Greenhouse> for WebSocketMessageData {
    fn from(greenhouse: Greenhouse) -> (r: WebSocketMessageData)
        ensures
            r@ == greenhouse_body(greenhouse),
    {
        WebSocketMessageData::for_greenhouse(&greenhouse)
    }
}

} // verus!
