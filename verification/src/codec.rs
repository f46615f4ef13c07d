//! The wire schema: how envelopes, bodies and bus payloads are written as
//! terms and read from them.

use vstd::prelude::*;
use vstd::string::*;
use crate::messages::{
    AmqpPayload, DispatchEvent, Method, Opcode, WebSocketMessage, WebSocketMessageView,
};
use crate::model::{
    DeviceKind, DeviceRecordsAverage, DeviceRecordsTimestampRange, DeviceStatus, UserTheme,
};
use crate::numbers::F64Bits;
use crate::payload::{WebSocketMessageData, WebSocketMessageDataView};
use crate::text::{optional_text, same_text};
use crate::wire::{
    add_item, blank, entry_views, find, int_in, item_views, list, lookup, lookup_from,
    optional_int_in, optional_real_in, optional_text_in, put, read_float, read_int,
    read_optional_float, read_optional_int, read_optional_text, read_text, real_in, record,
    text_in, within, Field, Term, TermView,
};

verus! {

/// The view of an optional body.
pub open spec fn data_view(data: Option<WebSocketMessageData>) -> Option<WebSocketMessageDataView> {
    match data {
        Some(data) => Some(data@),
        None => None,
    }
}

/// A record in the making that holds its kind under the action key.
pub open spec fn tagged(action: Seq<char>) -> Seq<(Field, TermView)> {
    Seq::empty().push((Field::Action, TermView::Text(action)))
}

/// Text, or nothing.
pub open spec fn text_or_nil(text: Option<Seq<char>>) -> TermView {
    match text {
        Some(s) => TermView::Text(s),
        None => TermView::Nil,
    }
}

/// A double, or nothing.
pub open spec fn double_or_nil(value: Option<F64Bits>) -> TermView {
    match value {
        Some(f) => TermView::Float(f),
        None => TermView::Nil,
    }
}

/// A whole number, or nothing.
pub open spec fn i64_or_nil(value: Option<i64>) -> TermView {
    match value {
        Some(n) => TermView::Int(n as i128),
        None => TermView::Nil,
    }
}

/// A whole number, or nothing.
pub open spec fn i16_or_nil(value: Option<i16>) -> TermView {
    match value {
        Some(n) => TermView::Int(n as i128),
        None => TermView::Nil,
    }
}

/// An optional whole number at the width of an `i64`.
pub open spec fn narrowed_i64(value: Option<int>) -> Option<i64> {
    match value {
        Some(n) => Some(n as i64),
        None => None,
    }
}

/// An optional whole number at the width of an `i16`.
pub open spec fn narrowed_i16(value: Option<int>) -> Option<i16> {
    match value {
        Some(n) => Some(n as i16),
        None => None,
    }
}

fn narrow_i64(value: Option<i128>) -> (r: Option<i64>)
    requires
        value is Some ==> i64::MIN <= value->Some_0 <= i64::MAX,
    ensures
        r == narrowed_i64(
            match value {
                Some(n) => Some(n as int),
                None => None,
            },
        ),
{
    match value {
        Some(n) => Some(n as i64),
        None => None,
    }
}

fn narrow_i16(value: Option<i128>) -> (r: Option<i16>)
    requires
        value is Some ==> i16::MIN <= value->Some_0 <= i16::MAX,
    ensures
        r == narrowed_i16(
            match value {
                Some(n) => Some(n as int),
                None => None,
            },
        ),
{
    match value {
        Some(n) => Some(n as i16),
        None => None,
    }
}

fn optional_text_term(text: &Option<String>) -> (r: Term)
    ensures
        r@ == text_or_nil(optional_text(*text)),
{
    match text {
        Some(s) => Term::Text(s.clone()),
        None => Term::Nil,
    }
}

fn optional_double_term(value: &Option<F64Bits>) -> (r: Term)
    ensures
        r@ == double_or_nil(*value),
{
    match value {
        Some(f) => Term::Float(*f),
        None => Term::Nil,
    }
}

fn optional_i64_term(value: &Option<i64>) -> (r: Term)
    ensures
        r@ == i64_or_nil(*value),
{
    match value {
        Some(n) => Term::Int(*n as i128),
        None => Term::Nil,
    }
}

fn optional_i16_term(value: &Option<i16>) -> (r: Term)
    ensures
        r@ == i16_or_nil(*value),
{
    match value {
        Some(n) => Term::Int(*n as i128),
        None => Term::Nil,
    }
}

/// The theme that a number between 0 and 2 stands for.
pub open spec fn theme_of(number: int) -> UserTheme {
    if number == 0 {
        UserTheme::Auto
    } else if number == 1 {
        UserTheme::Light
    } else {
        UserTheme::Dark
    }
}

/// The status that a number between 0 and 2 stands for.
pub open spec fn status_of(number: int) -> DeviceStatus {
    if number == 0 {
        DeviceStatus::Offline
    } else if number == 1 {
        DeviceStatus::Online
    } else {
        DeviceStatus::Disabled
    }
}

/// The kind of device that a number between 0 and 5 stands for.
pub open spec fn kind_of(number: int) -> DeviceKind {
    if number == 0 {
        DeviceKind::HumiditySensor
    } else if number == 1 {
        DeviceKind::SoilMoistureSensor
    } else if number == 2 {
        DeviceKind::TemperatureSensor
    } else if number == 3 {
        DeviceKind::HumidificationController
    } else if number == 4 {
        DeviceKind::IrrigationController
    } else {
        DeviceKind::WindowsController
    }
}

/// The range that a number between 0 and 5 stands for.
pub open spec fn range_of(number: int) -> DeviceRecordsTimestampRange {
    if number == 0 {
        DeviceRecordsTimestampRange::Today
    } else if number == 1 {
        DeviceRecordsTimestampRange::Week
    } else if number == 2 {
        DeviceRecordsTimestampRange::Month
    } else if number == 3 {
        DeviceRecordsTimestampRange::LastMonth
    } else if number == 4 {
        DeviceRecordsTimestampRange::MonthBeforeLast
    } else {
        DeviceRecordsTimestampRange::LastThreeMoths
    }
}

/// The opcode that a number between 0 and 6 stands for.
pub open spec fn opcode_of(number: int) -> Opcode {
    if number == 0 {
        Opcode::Dispatch
    } else if number == 1 {
        Opcode::HeartBeat
    } else if number == 2 {
        Opcode::Request
    } else if number == 3 {
        Opcode::Response
    } else if number == 4 {
        Opcode::Error
    } else if number == 5 {
        Opcode::Authorize
    } else {
        Opcode::Subscribe
    }
}

fn theme_from(number: i128) -> (r: UserTheme)
    requires
        0 <= number <= 2,
    ensures
        r == theme_of(number as int),
{
    if number == 0 {
        UserTheme::Auto
    } else if number == 1 {
        UserTheme::Light
    } else {
        UserTheme::Dark
    }
}

fn status_from(number: i128) -> (r: DeviceStatus)
    requires
        0 <= number <= 2,
    ensures
        r == status_of(number as int),
{
    if number == 0 {
        DeviceStatus::Offline
    } else if number == 1 {
        DeviceStatus::Online
    } else {
        DeviceStatus::Disabled
    }
}

fn kind_from(number: i128) -> (r: DeviceKind)
    requires
        0 <= number <= 5,
    ensures
        r == kind_of(number as int),
{
    if number == 0 {
        DeviceKind::HumiditySensor
    } else if number == 1 {
        DeviceKind::SoilMoistureSensor
    } else if number == 2 {
        DeviceKind::TemperatureSensor
    } else if number == 3 {
        DeviceKind::HumidificationController
    } else if number == 4 {
        DeviceKind::IrrigationController
    } else {
        DeviceKind::WindowsController
    }
}

fn range_from(number: i128) -> (r: DeviceRecordsTimestampRange)
    requires
        0 <= number <= 5,
    ensures
        r == range_of(number as int),
{
    if number == 0 {
        DeviceRecordsTimestampRange::Today
    } else if number == 1 {
        DeviceRecordsTimestampRange::Week
    } else if number == 2 {
        DeviceRecordsTimestampRange::Month
    } else if number == 3 {
        DeviceRecordsTimestampRange::LastMonth
    } else if number == 4 {
        DeviceRecordsTimestampRange::MonthBeforeLast
    } else {
        DeviceRecordsTimestampRange::LastThreeMoths
    }
}

fn opcode_from(number: i128) -> (r: Opcode)
    requires
        0 <= number <= 6,
    ensures
        r == opcode_of(number as int),
{
    if number == 0 {
        Opcode::Dispatch
    } else if number == 1 {
        Opcode::HeartBeat
    } else if number == 2 {
        Opcode::Request
    } else if number == 3 {
        Opcode::Response
    } else if number == 4 {
        Opcode::Error
    } else if number == 5 {
        Opcode::Authorize
    } else {
        Opcode::Subscribe
    }
}

/// The record that an average is written as: the average, or nothing, and
/// the window as the list of its two ends.
pub open spec fn encoded_average(average: DeviceRecordsAverage) -> TermView {
    TermView::Record(
        Seq::empty().push((Field::Data, double_or_nil(average.data))).push(
            (
                Field::Range,
                TermView::List(
                    Seq::empty().push(TermView::Int(average.range.0 as i128)).push(
                        TermView::Int(average.range.1 as i128),
                    ),
                ),
            ),
        ),
    )
}

/// The list that a list of averages is written as.
pub open spec fn encoded_averages(records: Seq<DeviceRecordsAverage>) -> TermView {
    TermView::List(Seq::new(records.len(), |i: int| encoded_average(records[i])))
}

/// The average that a term holds, if it is a record of an average and a
/// window of two ends.
pub open spec fn decoded_average(term: TermView) -> Option<DeviceRecordsAverage> {
    match term {
        TermView::Record(entries) => match optional_real_in(entries, Field::Data) {
            None => None,
            Some(data) => match lookup(entries, Field::Range) {
                Some(TermView::List(ends)) => if ends.len() != 2 {
                    None
                } else {
                    match (within(ends[0], 0, u64::MAX as int), within(ends[1], 0, u64::MAX as int)) {
                        (Some(from), Some(until)) => Some(
                            DeviceRecordsAverage { data, range: (from as u64, until as u64) },
                        ),
                        _ => None,
                    }
                },
                _ => None,
            },
        },
        _ => None,
    }
}

/// The averages that the first `count` items of a list hold, if each holds
/// one.
pub open spec fn decoded_averages(items: Seq<TermView>, count: int) -> Option<
    Seq<DeviceRecordsAverage>,
>
    decreases count,
{
    if count <= 0 {
        Some(Seq::empty())
    } else {
        match decoded_averages(items, count - 1) {
            None => None,
            Some(earlier) => match decoded_average(items[count - 1]) {
                None => None,
                Some(average) => Some(earlier.push(average)),
            },
        }
    }
}

/// The averages that a record holds under `key`.
pub open spec fn averages_in(entries: Seq<(Field, TermView)>, key: Field) -> Option<
    Seq<DeviceRecordsAverage>,
> {
    match lookup(entries, key) {
        Some(TermView::List(items)) => decoded_averages(items, items.len() as int),
        _ => None,
    }
}

fn encode_average(average: &DeviceRecordsAverage) -> (r: Term)
    ensures
        r@ == encoded_average(*average),
{
    let mut ends: Vec<Term> = Vec::new();
    assert(item_views(ends@) =~= Seq::<TermView>::empty());
    add_item(&mut ends, Term::Int(average.range.0 as i128));
    add_item(&mut ends, Term::Int(average.range.1 as i128));
    let mut entries = blank();
    put(&mut entries, Field::Data, optional_double_term(&average.data));
    put(&mut entries, Field::Range, list(ends));
    record(entries)
}

fn encode_averages(records: &Vec<DeviceRecordsAverage>) -> (r: Term)
    ensures
        r@ == encoded_averages(records@),
{
    let mut items: Vec<Term> = Vec::new();
    let mut i: usize = 0;
    while i < records.len()
        invariant
            i <= records.len(),
            item_views(items@) =~= Seq::new(i as nat, |j: int| encoded_average(records@[j])),
        decreases records.len() - i,
    {
        add_item(&mut items, encode_average(&records[i]));
        i += 1;
    }
    let r = list(items);
    assert(r@->List_0 =~= encoded_averages(records@)->List_0);
    r
}

fn decode_average(term: &Term) -> (r: Option<DeviceRecordsAverage>)
    ensures
        match r {
            Some(average) => decoded_average(term@) is Some && decoded_average(term@)->Some_0.data
                == average.data && decoded_average(term@)->Some_0.range == average.range,
            None => decoded_average(term@) is None,
        },
{
    proof {
        crate::wire::lemma_views(*term);
    }
    let entries = match term {
        Term::Record(entries) => entries,
        _ => {
            return None;
        },
    };
    let data = match read_optional_float(entries, Field::Data) {
        Some(data) => data,
        None => {
            return None;
        },
    };
    let ends = match find(entries, Field::Range) {
        Some(found) => {
            proof {
                crate::wire::lemma_views(*found);
            }
            match found {
                Term::List(ends) => ends,
                _ => {
                    return None;
                },
            }
        },
        _ => {
            return None;
        },
    };
    if ends.len() != 2 {
        return None;
    }
    let from = match whole_u64(&ends[0]) {
        Some(n) => n,
        None => {
            return None;
        },
    };
    let until = match whole_u64(&ends[1]) {
        Some(n) => n,
        None => {
            return None;
        },
    };
    Some(DeviceRecordsAverage { data, range: (from, until) })
}

fn whole_u64(term: &Term) -> (r: Option<u64>)
    ensures
        match r {
            Some(n) => within(term@, 0, u64::MAX as int) == Some(n as int),
            None => within(term@, 0, u64::MAX as int) is None,
        },
{
    let n = match term {
        Term::Int(n) => *n,
        Term::Number { value, float } => *value,
        _ => {
            return None;
        },
    };
    if 0 <= n && n <= u64::MAX as i128 {
        Some(n as u64)
    } else {
        None
    }
}

/// Two averages with the same parts are the same average.
proof fn lemma_average_parts(a: DeviceRecordsAverage, b: DeviceRecordsAverage)
    requires
        a.data == b.data,
        a.range == b.range,
    ensures
        a == b,
{
}

fn read_averages(entries: &Vec<(Field, Term)>, key: Field) -> (r: Option<Vec<DeviceRecordsAverage>>)
    ensures
        match r {
            Some(records) => averages_in(entry_views(entries@), key) == Some(records@),
            None => averages_in(entry_views(entries@), key) is None,
        },
{
    let items = match find(entries, key) {
        Some(found) => {
            proof {
                crate::wire::lemma_views(*found);
            }
            match found {
                Term::List(items) => items,
                _ => {
                    return None;
                },
            }
        },
        None => {
            return None;
        },
    };
    assert(lookup(entry_views(entries@), key) == Some(TermView::List(item_views(items@))));
    assert(item_views(items@).len() == items@.len());
    let mut records: Vec<DeviceRecordsAverage> = Vec::new();
    let mut i: usize = 0;
    while i < items.len()
        invariant
            i <= items.len(),
            item_views(items@).len() == items@.len(),
            averages_in(entry_views(entries@), key) == decoded_averages(
                item_views(items@),
                items@.len() as int,
            ),
            decoded_averages(item_views(items@), i as int) == Some(records@),
        decreases items.len() - i,
    {
        match decode_average(&items[i]) {
            Some(average) => {
                proof {
                    assert(item_views(items@)[i as int] == items@[i as int]@);
                    lemma_average_parts(average, decoded_average(items@[i as int]@)->Some_0);
                }
                records.push(average);
            },
            None => {
                proof {
                    assert(item_views(items@)[i as int] == items@[i as int]@);
                    assert(decoded_averages(item_views(items@), i + 1) is None);
                    lemma_averages_stop(item_views(items@), i + 1, items@.len() as int);
                }
                return None;
            },
        }
        i += 1;
    }
    Some(records)
}

/// Once an item holds no average the list holds no averages.
proof fn lemma_averages_stop(items: Seq<TermView>, count: int, more: int)
    requires
        0 <= count <= more,
        decoded_averages(items, count) is None,
    ensures
        decoded_averages(items, more) is None,
    decreases more - count,
{
    if count < more {
        lemma_averages_stop(items, count, more - 1);
    }
}

/// An average that is written and read again is the average it was.
proof fn lemma_average_round_trip(average: DeviceRecordsAverage)
    ensures
        decoded_average(encoded_average(average)) == Some(average),
{
    reveal_with_fuel(lookup_from, 4);
    let entries = encoded_average(average)->Record_0;
    assert(lookup(entries, Field::Range) is Some);
    let ends = lookup(entries, Field::Range)->Some_0->List_0;
    assert(ends.len() == 2);
    lemma_average_parts(
        decoded_average(encoded_average(average))->Some_0,
        average,
    );
}

/// A list of averages that is written and read again is the list it
/// was.
proof fn lemma_averages_round_trip(records: Seq<DeviceRecordsAverage>)
    ensures
        decoded_averages(encoded_averages(records)->List_0, records.len() as int) == Some(records),
{
    lemma_averages_prefix(records, records.len() as int);
    assert(records.subrange(0, records.len() as int) =~= records);
}

proof fn lemma_averages_prefix(records: Seq<DeviceRecordsAverage>, count: int)
    requires
        0 <= count <= records.len(),
    ensures
        decoded_averages(encoded_averages(records)->List_0, count) == Some(
            records.subrange(0, count),
        ),
    decreases count,
{
    if count > 0 {
        lemma_averages_prefix(records, count - 1);
        lemma_average_round_trip(records[count - 1]);
        assert(records.subrange(0, count) =~= records.subrange(0, count - 1).push(
            records[count - 1],
        ));
    } else {
        assert(records.subrange(0, 0) =~= Seq::<DeviceRecordsAverage>::empty());
    }
}

} // verus!

verus! {

/// The record that a body is written as: its kind under the action key,
/// then its fields in order. What is absent is written as nothing.
pub open spec fn encoded_data(data: WebSocketMessageDataView) -> Seq<(Field, TermView)> {
    match data {
        WebSocketMessageDataView::RequestPatchUser { email, username, locale, theme, new_password, current_password } => tagged("request_patch_user"@).push(
            (Field::Email, TermView::Text(email)),
        ).push(
            (Field::Username, TermView::Text(username)),
        ).push(
            (Field::Locale, TermView::Text(locale)),
        ).push(
            (Field::Theme, TermView::Int(theme.number() as i128)),
        ).push(
            (Field::NewPassword, text_or_nil(new_password)),
        ).push(
            (Field::CurrentPassword, text_or_nil(current_password)),
        ),
        WebSocketMessageDataView::RequestPostGreenhouse { name, token } => tagged("request_post_greenhouse"@).push(
            (Field::Name, TermView::Text(name)),
        ).push(
            (Field::Token, TermView::Text(token)),
        ),
        WebSocketMessageDataView::RequestPatchGreenhouse { id, name, token, maximum_average_humidity, minimum_average_temperature } => tagged("request_patch_greenhouse"@).push(
            (Field::Id, TermView::Int(id as i128)),
        ).push(
            (Field::Name, TermView::Text(name)),
        ).push(
            (Field::Token, TermView::Text(token)),
        ).push(
            (Field::MaximumAverageHumidity, double_or_nil(maximum_average_humidity)),
        ).push(
            (Field::MinimumAverageTemperature, double_or_nil(minimum_average_temperature)),
        ),
        WebSocketMessageDataView::RequestDeleteGreenhouse { id, current_password } => tagged("request_delete_greenhouse"@).push(
            (Field::Id, TermView::Int(id as i128)),
        ).push(
            (Field::CurrentPassword, TermView::Text(current_password)),
        ),
        WebSocketMessageDataView::RequestPatchDevice { id, greenhouse_id, name, maximum_data_value } => tagged("request_patch_device"@).push(
            (Field::Id, TermView::Int(id as i128)),
        ).push(
            (Field::GreenhouseId, TermView::Int(greenhouse_id as i128)),
        ).push(
            (Field::Name, text_or_nil(name)),
        ).push(
            (Field::MaximumDataValue, double_or_nil(maximum_data_value)),
        ),
        WebSocketMessageDataView::RequestPatchDevicesResetNames { greenhouse_id } => tagged("request_patch_devices_reset_names"@).push(
            (Field::GreenhouseId, TermView::Int(greenhouse_id as i128)),
        ),
        WebSocketMessageDataView::RequestPatchDeviceState { id, greenhouse_id, state } => tagged("request_patch_device_state"@).push(
            (Field::Id, TermView::Int(id as i128)),
        ).push(
            (Field::GreenhouseId, TermView::Int(greenhouse_id as i128)),
        ).push(
            (Field::State, TermView::Int(state as i128)),
        ),
        WebSocketMessageDataView::RequestPostDeviceCustomData { id, greenhouse_id, data, time } => tagged("request_post_device_custom_data"@).push(
            (Field::Id, TermView::Int(id as i128)),
        ).push(
            (Field::GreenhouseId, TermView::Int(greenhouse_id as i128)),
        ).push(
            (Field::Data, TermView::Float(data)),
        ).push(
            (Field::Time, TermView::Int(time as i128)),
        ),
        WebSocketMessageDataView::RequestPostDeviceRequestData { id, greenhouse_id } => tagged("request_post_device_request_data"@).push(
            (Field::Id, i64_or_nil(id)),
        ).push(
            (Field::GreenhouseId, TermView::Int(greenhouse_id as i128)),
        ),
        WebSocketMessageDataView::RequestPostDeviceDisable { id, greenhouse_id } => tagged("request_post_device_disable"@).push(
            (Field::Id, TermView::Int(id as i128)),
        ).push(
            (Field::GreenhouseId, TermView::Int(greenhouse_id as i128)),
        ),
        WebSocketMessageDataView::RequestPostDeviceEnable { id, greenhouse_id } => tagged("request_post_device_enable"@).push(
            (Field::Id, TermView::Int(id as i128)),
        ).push(
            (Field::GreenhouseId, TermView::Int(greenhouse_id as i128)),
        ),
        WebSocketMessageDataView::Authorize { token } => tagged("authorize"@).push(
            (Field::Token, TermView::Text(token)),
        ),
        WebSocketMessageDataView::SubscribeToUserUpdate { id } => tagged("subscribe_to_user_update"@).push(
            (Field::Id, TermView::Int(id as i128)),
        ),
        WebSocketMessageDataView::SubscribeToUserMeUpdates {} => tagged("subscribe_to_user_me_updates"@),
        WebSocketMessageDataView::SubscribeToGreenhouseUpdate { id } => tagged("subscribe_to_greenhouse_update"@).push(
            (Field::Id, TermView::Int(id as i128)),
        ),
        WebSocketMessageDataView::SubscribeToDeviceUpdate { id, greenhouse_id } => tagged("subscribe_to_device_update"@).push(
            (Field::Id, TermView::Int(id as i128)),
        ).push(
            (Field::GreenhouseId, TermView::Int(greenhouse_id as i128)),
        ),
        WebSocketMessageDataView::SubscribeToDevicesUpdate { greenhouse_id } => tagged("subscribe_to_devices_update"@).push(
            (Field::GreenhouseId, TermView::Int(greenhouse_id as i128)),
        ),
        WebSocketMessageDataView::SubscribeToDeviceRecordsUpdate { device_id, greenhouse_id } => tagged("subscribe_to_device_records_update"@).push(
            (Field::DeviceId, TermView::Int(device_id as i128)),
        ).push(
            (Field::GreenhouseId, TermView::Int(greenhouse_id as i128)),
        ),
        WebSocketMessageDataView::SubscribeToDeviceRecordsAverageUpdate { device_id, greenhouse_id, range } => tagged("subscribe_to_device_records_average_update"@).push(
            (Field::DeviceId, TermView::Int(device_id as i128)),
        ).push(
            (Field::GreenhouseId, TermView::Int(greenhouse_id as i128)),
        ).push(
            (Field::Range, TermView::Int(range.number() as i128)),
        ),
        WebSocketMessageDataView::DispatchUserUpdate { id, username, created_at, greenhouses } => tagged("dispatch_user_update"@).push(
            (Field::Id, TermView::Int(id as i128)),
        ).push(
            (Field::Username, TermView::Text(username)),
        ).push(
            (Field::CreatedAt, TermView::Int(created_at as i128)),
        ).push(
            (Field::Greenhouses, TermView::Int(greenhouses as i128)),
        ),
        WebSocketMessageDataView::DispatchUserMeUpdate { id, email, username, created_at, locale, theme, greenhouses } => tagged("dispatch_user_me_update"@).push(
            (Field::Id, TermView::Int(id as i128)),
        ).push(
            (Field::Email, TermView::Text(email)),
        ).push(
            (Field::Username, TermView::Text(username)),
        ).push(
            (Field::CreatedAt, TermView::Int(created_at as i128)),
        ).push(
            (Field::Locale, TermView::Text(locale)),
        ).push(
            (Field::Theme, TermView::Int(theme.number() as i128)),
        ).push(
            (Field::Greenhouses, TermView::Int(greenhouses as i128)),
        ),
        WebSocketMessageDataView::DispatchGreenhouseMineUpdate { id, name, token, owner_id, created_at, maximum_average_humidity, minimum_average_temperature } => tagged("dispatch_greenhouse_mine_update"@).push(
            (Field::Id, TermView::Int(id as i128)),
        ).push(
            (Field::Name, TermView::Text(name)),
        ).push(
            (Field::Token, TermView::Text(token)),
        ).push(
            (Field::OwnerId, TermView::Int(owner_id as i128)),
        ).push(
            (Field::CreatedAt, TermView::Int(created_at as i128)),
        ).push(
            (Field::MaximumAverageHumidity, double_or_nil(maximum_average_humidity)),
        ).push(
            (Field::MinimumAverageTemperature, double_or_nil(minimum_average_temperature)),
        ),
        WebSocketMessageDataView::DispatchGreenhouseMineDelete { id } => tagged("dispatch_greenhouse_mine_delete"@).push(
            (Field::Id, TermView::Int(id as i128)),
        ),
        WebSocketMessageDataView::DispatchDeviceUpdate { id, external_id, name, status, kind, greenhouse_id, created_at, maximum_data_value, latest_data } => tagged("dispatch_device_update"@).push(
            (Field::Id, TermView::Int(id as i128)),
        ).push(
            (Field::ExternalId, i16_or_nil(external_id)),
        ).push(
            (Field::Name, text_or_nil(name)),
        ).push(
            (Field::Status, TermView::Int(status.number() as i128)),
        ).push(
            (Field::Kind, TermView::Int(kind.number() as i128)),
        ).push(
            (Field::GreenhouseId, TermView::Int(greenhouse_id as i128)),
        ).push(
            (Field::CreatedAt, TermView::Int(created_at as i128)),
        ).push(
            (Field::MaximumDataValue, double_or_nil(maximum_data_value)),
        ).push(
            (Field::LatestData, double_or_nil(latest_data)),
        ),
        WebSocketMessageDataView::DispatchDeviceRecordsUpdate { device_id, quantity } => tagged("dispatch_device_records_update"@).push(
            (Field::DeviceId, TermView::Int(device_id as i128)),
        ).push(
            (Field::Quantity, TermView::Int(quantity as i128)),
        ),
        WebSocketMessageDataView::DispatchDeviceRecordsAverageUpdate { device_id, range, records } => tagged("dispatch_device_records_average_update"@).push(
            (Field::DeviceId, TermView::Int(device_id as i128)),
        ).push(
            (Field::Range, TermView::Int(range.number() as i128)),
        ).push(
            (Field::Records, encoded_averages(records)),
        ),
        WebSocketMessageDataView::Response { code, message } => tagged("response"@).push(
            (Field::Code, TermView::Int(code as i128)),
        ).push(
            (Field::Message, TermView::Text(message)),
        ),
        WebSocketMessageDataView::Empty  => tagged("none"@),
    }
}

/// Writes a body as a record.
pub fn encode_data(data: &WebSocketMessageData) -> (r: Vec<(Field, Term)>)
    ensures
        entry_views(r@) == encoded_data(data@),
{
    let mut entries = blank();
    match data {
        WebSocketMessageData::RequestPatchUser { email, username, locale, theme, new_password, current_password } => {
            put(&mut entries, Field::Action, Term::Text(String::from_str("request_patch_user")));
            put(&mut entries, Field::Email, Term::Text(email.clone()));
            put(&mut entries, Field::Username, Term::Text(username.clone()));
            put(&mut entries, Field::Locale, Term::Text(locale.clone()));
            put(&mut entries, Field::Theme, Term::Int(theme.to_number() as i128));
            put(&mut entries, Field::NewPassword, optional_text_term(new_password));
            put(&mut entries, Field::CurrentPassword, optional_text_term(current_password));
        },
        WebSocketMessageData::RequestPostGreenhouse { name, token } => {
            put(&mut entries, Field::Action, Term::Text(String::from_str("request_post_greenhouse")));
            put(&mut entries, Field::Name, Term::Text(name.clone()));
            put(&mut entries, Field::Token, Term::Text(token.clone()));
        },
        WebSocketMessageData::RequestPatchGreenhouse { id, name, token, maximum_average_humidity, minimum_average_temperature } => {
            put(&mut entries, Field::Action, Term::Text(String::from_str("request_patch_greenhouse")));
            put(&mut entries, Field::Id, Term::Int(*id as i128));
            put(&mut entries, Field::Name, Term::Text(name.clone()));
            put(&mut entries, Field::Token, Term::Text(token.clone()));
            put(&mut entries, Field::MaximumAverageHumidity, optional_double_term(maximum_average_humidity));
            put(&mut entries, Field::MinimumAverageTemperature, optional_double_term(minimum_average_temperature));
        },
        WebSocketMessageData::RequestDeleteGreenhouse { id, current_password } => {
            put(&mut entries, Field::Action, Term::Text(String::from_str("request_delete_greenhouse")));
            put(&mut entries, Field::Id, Term::Int(*id as i128));
            put(&mut entries, Field::CurrentPassword, Term::Text(current_password.clone()));
        },
        WebSocketMessageData::RequestPatchDevice { id, greenhouse_id, name, maximum_data_value } => {
            put(&mut entries, Field::Action, Term::Text(String::from_str("request_patch_device")));
            put(&mut entries, Field::Id, Term::Int(*id as i128));
            put(&mut entries, Field::GreenhouseId, Term::Int(*greenhouse_id as i128));
            put(&mut entries, Field::Name, optional_text_term(name));
            put(&mut entries, Field::MaximumDataValue, optional_double_term(maximum_data_value));
        },
        WebSocketMessageData::RequestPatchDevicesResetNames { greenhouse_id } => {
            put(&mut entries, Field::Action, Term::Text(String::from_str("request_patch_devices_reset_names")));
            put(&mut entries, Field::GreenhouseId, Term::Int(*greenhouse_id as i128));
        },
        WebSocketMessageData::RequestPatchDeviceState { id, greenhouse_id, state } => {
            put(&mut entries, Field::Action, Term::Text(String::from_str("request_patch_device_state")));
            put(&mut entries, Field::Id, Term::Int(*id as i128));
            put(&mut entries, Field::GreenhouseId, Term::Int(*greenhouse_id as i128));
            put(&mut entries, Field::State, Term::Int(*state as i128));
        },
        WebSocketMessageData::RequestPostDeviceCustomData { id, greenhouse_id, data, time } => {
            put(&mut entries, Field::Action, Term::Text(String::from_str("request_post_device_custom_data")));
            put(&mut entries, Field::Id, Term::Int(*id as i128));
            put(&mut entries, Field::GreenhouseId, Term::Int(*greenhouse_id as i128));
            put(&mut entries, Field::Data, Term::Float(*data));
            put(&mut entries, Field::Time, Term::Int(*time as i128));
        },
        WebSocketMessageData::RequestPostDeviceRequestData { id, greenhouse_id } => {
            put(&mut entries, Field::Action, Term::Text(String::from_str("request_post_device_request_data")));
            put(&mut entries, Field::Id, optional_i64_term(id));
            put(&mut entries, Field::GreenhouseId, Term::Int(*greenhouse_id as i128));
        },
        WebSocketMessageData::RequestPostDeviceDisable { id, greenhouse_id } => {
            put(&mut entries, Field::Action, Term::Text(String::from_str("request_post_device_disable")));
            put(&mut entries, Field::Id, Term::Int(*id as i128));
            put(&mut entries, Field::GreenhouseId, Term::Int(*greenhouse_id as i128));
        },
        WebSocketMessageData::RequestPostDeviceEnable { id, greenhouse_id } => {
            put(&mut entries, Field::Action, Term::Text(String::from_str("request_post_device_enable")));
            put(&mut entries, Field::Id, Term::Int(*id as i128));
            put(&mut entries, Field::GreenhouseId, Term::Int(*greenhouse_id as i128));
        },
        WebSocketMessageData::Authorize { token } => {
            put(&mut entries, Field::Action, Term::Text(String::from_str("authorize")));
            put(&mut entries, Field::Token, Term::Text(token.clone()));
        },
        WebSocketMessageData::SubscribeToUserUpdate { id } => {
            put(&mut entries, Field::Action, Term::Text(String::from_str("subscribe_to_user_update")));
            put(&mut entries, Field::Id, Term::Int(*id as i128));
        },
        WebSocketMessageData::SubscribeToUserMeUpdates {} => {
            put(&mut entries, Field::Action, Term::Text(String::from_str("subscribe_to_user_me_updates")));
        },
        WebSocketMessageData::SubscribeToGreenhouseUpdate { id } => {
            put(&mut entries, Field::Action, Term::Text(String::from_str("subscribe_to_greenhouse_update")));
            put(&mut entries, Field::Id, Term::Int(*id as i128));
        },
        WebSocketMessageData::SubscribeToDeviceUpdate { id, greenhouse_id } => {
            put(&mut entries, Field::Action, Term::Text(String::from_str("subscribe_to_device_update")));
            put(&mut entries, Field::Id, Term::Int(*id as i128));
            put(&mut entries, Field::GreenhouseId, Term::Int(*greenhouse_id as i128));
        },
        WebSocketMessageData::SubscribeToDevicesUpdate { greenhouse_id } => {
            put(&mut entries, Field::Action, Term::Text(String::from_str("subscribe_to_devices_update")));
            put(&mut entries, Field::GreenhouseId, Term::Int(*greenhouse_id as i128));
        },
        WebSocketMessageData::SubscribeToDeviceRecordsUpdate { device_id, greenhouse_id } => {
            put(&mut entries, Field::Action, Term::Text(String::from_str("subscribe_to_device_records_update")));
            put(&mut entries, Field::DeviceId, Term::Int(*device_id as i128));
            put(&mut entries, Field::GreenhouseId, Term::Int(*greenhouse_id as i128));
        },
        WebSocketMessageData::SubscribeToDeviceRecordsAverageUpdate { device_id, greenhouse_id, range } => {
            put(&mut entries, Field::Action, Term::Text(String::from_str("subscribe_to_device_records_average_update")));
            put(&mut entries, Field::DeviceId, Term::Int(*device_id as i128));
            put(&mut entries, Field::GreenhouseId, Term::Int(*greenhouse_id as i128));
            put(&mut entries, Field::Range, Term::Int(range.to_number() as i128));
        },
        WebSocketMessageData::DispatchUserUpdate { id, username, created_at, greenhouses } => {
            put(&mut entries, Field::Action, Term::Text(String::from_str("dispatch_user_update")));
            put(&mut entries, Field::Id, Term::Int(*id as i128));
            put(&mut entries, Field::Username, Term::Text(username.clone()));
            put(&mut entries, Field::CreatedAt, Term::Int(*created_at as i128));
            put(&mut entries, Field::Greenhouses, Term::Int(*greenhouses as i128));
        },
        WebSocketMessageData::DispatchUserMeUpdate { id, email, username, created_at, locale, theme, greenhouses } => {
            put(&mut entries, Field::Action, Term::Text(String::from_str("dispatch_user_me_update")));
            put(&mut entries, Field::Id, Term::Int(*id as i128));
            put(&mut entries, Field::Email, Term::Text(email.clone()));
            put(&mut entries, Field::Username, Term::Text(username.clone()));
            put(&mut entries, Field::CreatedAt, Term::Int(*created_at as i128));
            put(&mut entries, Field::Locale, Term::Text(locale.clone()));
            put(&mut entries, Field::Theme, Term::Int(theme.to_number() as i128));
            put(&mut entries, Field::Greenhouses, Term::Int(*greenhouses as i128));
        },
        WebSocketMessageData::DispatchGreenhouseMineUpdate { id, name, token, owner_id, created_at, maximum_average_humidity, minimum_average_temperature } => {
            put(&mut entries, Field::Action, Term::Text(String::from_str("dispatch_greenhouse_mine_update")));
            put(&mut entries, Field::Id, Term::Int(*id as i128));
            put(&mut entries, Field::Name, Term::Text(name.clone()));
            put(&mut entries, Field::Token, Term::Text(token.clone()));
            put(&mut entries, Field::OwnerId, Term::Int(*owner_id as i128));
            put(&mut entries, Field::CreatedAt, Term::Int(*created_at as i128));
            put(&mut entries, Field::MaximumAverageHumidity, optional_double_term(maximum_average_humidity));
            put(&mut entries, Field::MinimumAverageTemperature, optional_double_term(minimum_average_temperature));
        },
        WebSocketMessageData::DispatchGreenhouseMineDelete { id } => {
            put(&mut entries, Field::Action, Term::Text(String::from_str("dispatch_greenhouse_mine_delete")));
            put(&mut entries, Field::Id, Term::Int(*id as i128));
        },
        WebSocketMessageData::DispatchDeviceUpdate { id, external_id, name, status, kind, greenhouse_id, created_at, maximum_data_value, latest_data } => {
            put(&mut entries, Field::Action, Term::Text(String::from_str("dispatch_device_update")));
            put(&mut entries, Field::Id, Term::Int(*id as i128));
            put(&mut entries, Field::ExternalId, optional_i16_term(external_id));
            put(&mut entries, Field::Name, optional_text_term(name));
            put(&mut entries, Field::Status, Term::Int(status.to_number() as i128));
            put(&mut entries, Field::Kind, Term::Int(kind.to_number() as i128));
            put(&mut entries, Field::GreenhouseId, Term::Int(*greenhouse_id as i128));
            put(&mut entries, Field::CreatedAt, Term::Int(*created_at as i128));
            put(&mut entries, Field::MaximumDataValue, optional_double_term(maximum_data_value));
            put(&mut entries, Field::LatestData, optional_double_term(latest_data));
        },
        WebSocketMessageData::DispatchDeviceRecordsUpdate { device_id, quantity } => {
            put(&mut entries, Field::Action, Term::Text(String::from_str("dispatch_device_records_update")));
            put(&mut entries, Field::DeviceId, Term::Int(*device_id as i128));
            put(&mut entries, Field::Quantity, Term::Int(*quantity as i128));
        },
        WebSocketMessageData::DispatchDeviceRecordsAverageUpdate { device_id, range, records } => {
            put(&mut entries, Field::Action, Term::Text(String::from_str("dispatch_device_records_average_update")));
            put(&mut entries, Field::DeviceId, Term::Int(*device_id as i128));
            put(&mut entries, Field::Range, Term::Int(range.to_number() as i128));
            put(&mut entries, Field::Records, encode_averages(records));
        },
        WebSocketMessageData::Response { code, message } => {
            put(&mut entries, Field::Action, Term::Text(String::from_str("response")));
            put(&mut entries, Field::Code, Term::Int(*code as i128));
            put(&mut entries, Field::Message, Term::Text(message.clone()));
        },
        WebSocketMessageData::Empty  => {
            put(&mut entries, Field::Action, Term::Text(String::from_str("none")));
        },
    }
    entries
}

/// The body of the kind `request_patch_user` that a record holds, if all its fields are
/// there and of the right kind.
pub open spec fn decoded_request_patch_user(entries: Seq<(Field, TermView)>) -> Option<
    WebSocketMessageDataView,
> {
    match text_in(entries, Field::Email) {
        None => None,
        Some(email) =>         match text_in(entries, Field::Username) {
            None => None,
            Some(username) =>             match text_in(entries, Field::Locale) {
                None => None,
                Some(locale) =>                 match int_in(entries, Field::Theme, 0, 2) {
                    None => None,
                    Some(theme) =>                     match optional_text_in(entries, Field::NewPassword) {
                        None => None,
                        Some(new_password) =>                         match optional_text_in(entries, Field::CurrentPassword) {
                            None => None,
                            Some(current_password) => Some(
                                WebSocketMessageDataView::RequestPatchUser {
                                    email,
                                    username,
                                    locale,
                                    theme: theme_of(theme),
                                    new_password,
                                    current_password,
                                },
                            ),
                        },
                    },
                },
            },
        },
    }
}

fn decode_request_patch_user(entries: &Vec<(Field, Term)>) -> (r: Option<WebSocketMessageData>)
    ensures
        data_view(r) == decoded_request_patch_user(entry_views(entries@)),
{
    let email = match read_text(entries, Field::Email) {
        Some(value) => value,
        None => {
            return None;
        },
    };
    let username = match read_text(entries, Field::Username) {
        Some(value) => value,
        None => {
            return None;
        },
    };
    let locale = match read_text(entries, Field::Locale) {
        Some(value) => value,
        None => {
            return None;
        },
    };
    let theme = match read_int(entries, Field::Theme, 0, 2) {
        Some(value) => value,
        None => {
            return None;
        },
    };
    let new_password = match read_optional_text(entries, Field::NewPassword) {
        Some(value) => value,
        None => {
            return None;
        },
    };
    let current_password = match read_optional_text(entries, Field::CurrentPassword) {
        Some(value) => value,
        None => {
            return None;
        },
    };
    Some(
        WebSocketMessageData::RequestPatchUser {
            email,
            username,
            locale,
            theme: theme_from(theme),
            new_password,
            current_password,
        },
    )
}

/// The body of the kind `request_post_greenhouse` that a record holds, if all its fields are
/// there and of the right kind.
pub open spec fn decoded_request_post_greenhouse(entries: Seq<(Field, TermView)>) -> Option<
    WebSocketMessageDataView,
> {
    match text_in(entries, Field::Name) {
        None => None,
        Some(name) =>         match text_in(entries, Field::Token) {
            None => None,
            Some(token) => Some(
                WebSocketMessageDataView::RequestPostGreenhouse {
                    name,
                    token,
                },
            ),
        },
    }
}

fn decode_request_post_greenhouse(entries: &Vec<(Field, Term)>) -> (r: Option<WebSocketMessageData>)
    ensures
        data_view(r) == decoded_request_post_greenhouse(entry_views(entries@)),
{
    let name = match read_text(entries, Field::Name) {
        Some(value) => value,
        None => {
            return None;
        },
    };
    let token = match read_text(entries, Field::Token) {
        Some(value) => value,
        None => {
            return None;
        },
    };
    Some(
        WebSocketMessageData::RequestPostGreenhouse {
            name,
            token,
        },
    )
}

/// The body of the kind `request_patch_greenhouse` that a record holds, if all its fields are
/// there and of the right kind.
pub open spec fn decoded_request_patch_greenhouse(entries: Seq<(Field, TermView)>) -> Option<
    WebSocketMessageDataView,
> {
    match int_in(entries, Field::Id, i64::MIN as int, i64::MAX as int) {
        None => None,
        Some(id) =>         match text_in(entries, Field::Name) {
            None => None,
            Some(name) =>             match text_in(entries, Field::Token) {
                None => None,
                Some(token) =>                 match optional_real_in(entries, Field::MaximumAverageHumidity) {
                    None => None,
                    Some(maximum_average_humidity) =>                     match optional_real_in(entries, Field::MinimumAverageTemperature) {
                        None => None,
                        Some(minimum_average_temperature) => Some(
                            WebSocketMessageDataView::RequestPatchGreenhouse {
                                id: id as i64,
                                name,
                                token,
                                maximum_average_humidity,
                                minimum_average_temperature,
                            },
                        ),
                    },
                },
            },
        },
    }
}

fn decode_request_patch_greenhouse(entries: &Vec<(Field, Term)>) -> (r: Option<WebSocketMessageData>)
    ensures
        data_view(r) == decoded_request_patch_greenhouse(entry_views(entries@)),
{
    let id = match read_int(entries, Field::Id, i64::MIN as i128, i64::MAX as i128) {
        Some(value) => value,
        None => {
            return None;
        },
    };
    let name = match read_text(entries, Field::Name) {
        Some(value) => value,
        None => {
            return None;
        },
    };
    let token = match read_text(entries, Field::Token) {
        Some(value) => value,
        None => {
            return None;
        },
    };
    let maximum_average_humidity = match read_optional_float(entries, Field::MaximumAverageHumidity) {
        Some(value) => value,
        None => {
            return None;
        },
    };
    let minimum_average_temperature = match read_optional_float(entries, Field::MinimumAverageTemperature) {
        Some(value) => value,
        None => {
            return None;
        },
    };
    Some(
        WebSocketMessageData::RequestPatchGreenhouse {
            id: id as i64,
            name,
            token,
            maximum_average_humidity,
            minimum_average_temperature,
        },
    )
}

/// The body of the kind `request_delete_greenhouse` that a record holds, if all its fields are
/// there and of the right kind.
pub open spec fn decoded_request_delete_greenhouse(entries: Seq<(Field, TermView)>) -> Option<
    WebSocketMessageDataView,
> {
    match int_in(entries, Field::Id, i64::MIN as int, i64::MAX as int) {
        None => None,
        Some(id) =>         match text_in(entries, Field::CurrentPassword) {
            None => None,
            Some(current_password) => Some(
                WebSocketMessageDataView::RequestDeleteGreenhouse {
                    id: id as i64,
                    current_password,
                },
            ),
        },
    }
}

fn decode_request_delete_greenhouse(entries: &Vec<(Field, Term)>) -> (r: Option<WebSocketMessageData>)
    ensures
        data_view(r) == decoded_request_delete_greenhouse(entry_views(entries@)),
{
    let id = match read_int(entries, Field::Id, i64::MIN as i128, i64::MAX as i128) {
        Some(value) => value,
        None => {
            return None;
        },
    };
    let current_password = match read_text(entries, Field::CurrentPassword) {
        Some(value) => value,
        None => {
            return None;
        },
    };
    Some(
        WebSocketMessageData::RequestDeleteGreenhouse {
            id: id as i64,
            current_password,
        },
    )
}

/// The body of the kind `request_patch_device` that a record holds, if all its fields are
/// there and of the right kind.
pub open spec fn decoded_request_patch_device(entries: Seq<(Field, TermView)>) -> Option<
    WebSocketMessageDataView,
> {
    match int_in(entries, Field::Id, i64::MIN as int, i64::MAX as int) {
        None => None,
        Some(id) =>         match int_in(entries, Field::GreenhouseId, i64::MIN as int, i64::MAX as int) {
            None => None,
            Some(greenhouse_id) =>             match optional_text_in(entries, Field::Name) {
                None => None,
                Some(name) =>                 match optional_real_in(entries, Field::MaximumDataValue) {
                    None => None,
                    Some(maximum_data_value) => Some(
                        WebSocketMessageDataView::RequestPatchDevice {
                            id: id as i64,
                            greenhouse_id: greenhouse_id as i64,
                            name,
                            maximum_data_value,
                        },
                    ),
                },
            },
        },
    }
}

fn decode_request_patch_device(entries: &Vec<(Field, Term)>) -> (r: Option<WebSocketMessageData>)
    ensures
        data_view(r) == decoded_request_patch_device(entry_views(entries@)),
{
    let id = match read_int(entries, Field::Id, i64::MIN as i128, i64::MAX as i128) {
        Some(value) => value,
        None => {
            return None;
        },
    };
    let greenhouse_id = match read_int(entries, Field::GreenhouseId, i64::MIN as i128, i64::MAX as i128) {
        Some(value) => value,
        None => {
            return None;
        },
    };
    let name = match read_optional_text(entries, Field::Name) {
        Some(value) => value,
        None => {
            return None;
        },
    };
    let maximum_data_value = match read_optional_float(entries, Field::MaximumDataValue) {
        Some(value) => value,
        None => {
            return None;
        },
    };
    Some(
        WebSocketMessageData::RequestPatchDevice {
            id: id as i64,
            greenhouse_id: greenhouse_id as i64,
            name,
            maximum_data_value,
        },
    )
}

/// The body of the kind `request_patch_devices_reset_names` that a record holds, if all its fields are
/// there and of the right kind.
pub open spec fn decoded_request_patch_devices_reset_names(entries: Seq<(Field, TermView)>) -> Option<
    WebSocketMessageDataView,
> {
    match int_in(entries, Field::GreenhouseId, i64::MIN as int, i64::MAX as int) {
        None => None,
        Some(greenhouse_id) => Some(
            WebSocketMessageDataView::RequestPatchDevicesResetNames {
                greenhouse_id: greenhouse_id as i64,
            },
        ),
    }
}

fn decode_request_patch_devices_reset_names(entries: &Vec<(Field, Term)>) -> (r: Option<WebSocketMessageData>)
    ensures
        data_view(r) == decoded_request_patch_devices_reset_names(entry_views(entries@)),
{
    let greenhouse_id = match read_int(entries, Field::GreenhouseId, i64::MIN as i128, i64::MAX as i128) {
        Some(value) => value,
        None => {
            return None;
        },
    };
    Some(
        WebSocketMessageData::RequestPatchDevicesResetNames {
            greenhouse_id: greenhouse_id as i64,
        },
    )
}

/// The body of the kind `request_patch_device_state` that a record holds, if all its fields are
/// there and of the right kind.
pub open spec fn decoded_request_patch_device_state(entries: Seq<(Field, TermView)>) -> Option<
    WebSocketMessageDataView,
> {
    match int_in(entries, Field::Id, i64::MIN as int, i64::MAX as int) {
        None => None,
        Some(id) =>         match int_in(entries, Field::GreenhouseId, i64::MIN as int, i64::MAX as int) {
            None => None,
            Some(greenhouse_id) =>             match int_in(entries, Field::State, 0 as int, u8::MAX as int) {
                None => None,
                Some(state) => Some(
                    WebSocketMessageDataView::RequestPatchDeviceState {
                        id: id as i64,
                        greenhouse_id: greenhouse_id as i64,
                        state: state as u8,
                    },
                ),
            },
        },
    }
}

fn decode_request_patch_device_state(entries: &Vec<(Field, Term)>) -> (r: Option<WebSocketMessageData>)
    ensures
        data_view(r) == decoded_request_patch_device_state(entry_views(entries@)),
{
    let id = match read_int(entries, Field::Id, i64::MIN as i128, i64::MAX as i128) {
        Some(value) => value,
        None => {
            return None;
        },
    };
    let greenhouse_id = match read_int(entries, Field::GreenhouseId, i64::MIN as i128, i64::MAX as i128) {
        Some(value) => value,
        None => {
            return None;
        },
    };
    let state = match read_int(entries, Field::State, 0 as i128, u8::MAX as i128) {
        Some(value) => value,
        None => {
            return None;
        },
    };
    Some(
        WebSocketMessageData::RequestPatchDeviceState {
            id: id as i64,
            greenhouse_id: greenhouse_id as i64,
            state: state as u8,
        },
    )
}

/// The body of the kind `request_post_device_custom_data` that a record holds, if all its fields are
/// there and of the right kind.
pub open spec fn decoded_request_post_device_custom_data(entries: Seq<(Field, TermView)>) -> Option<
    WebSocketMessageDataView,
> {
    match int_in(entries, Field::Id, i64::MIN as int, i64::MAX as int) {
        None => None,
        Some(id) =>         match int_in(entries, Field::GreenhouseId, i64::MIN as int, i64::MAX as int) {
            None => None,
            Some(greenhouse_id) =>             match real_in(entries, Field::Data) {
                None => None,
                Some(data) =>                 match int_in(entries, Field::Time, 0 as int, u64::MAX as int) {
                    None => None,
                    Some(time) => Some(
                        WebSocketMessageDataView::RequestPostDeviceCustomData {
                            id: id as i64,
                            greenhouse_id: greenhouse_id as i64,
                            data,
                            time: time as u64,
                        },
                    ),
                },
            },
        },
    }
}

fn decode_request_post_device_custom_data(entries: &Vec<(Field, Term)>) -> (r: Option<WebSocketMessageData>)
    ensures
        data_view(r) == decoded_request_post_device_custom_data(entry_views(entries@)),
{
    let id = match read_int(entries, Field::Id, i64::MIN as i128, i64::MAX as i128) {
        Some(value) => value,
        None => {
            return None;
        },
    };
    let greenhouse_id = match read_int(entries, Field::GreenhouseId, i64::MIN as i128, i64::MAX as i128) {
        Some(value) => value,
        None => {
            return None;
        },
    };
    let data = match read_float(entries, Field::Data) {
        Some(value) => value,
        None => {
            return None;
        },
    };
    let time = match read_int(entries, Field::Time, 0 as i128, u64::MAX as i128) {
        Some(value) => value,
        None => {
            return None;
        },
    };
    Some(
        WebSocketMessageData::RequestPostDeviceCustomData {
            id: id as i64,
            greenhouse_id: greenhouse_id as i64,
            data,
            time: time as u64,
        },
    )
}

/// The body of the kind `request_post_device_request_data` that a record holds, if all its fields are
/// there and of the right kind.
pub open spec fn decoded_request_post_device_request_data(entries: Seq<(Field, TermView)>) -> Option<
    WebSocketMessageDataView,
> {
    match optional_int_in(entries, Field::Id, i64::MIN as int, i64::MAX as int) {
        None => None,
        Some(id) =>         match int_in(entries, Field::GreenhouseId, i64::MIN as int, i64::MAX as int) {
            None => None,
            Some(greenhouse_id) => Some(
                WebSocketMessageDataView::RequestPostDeviceRequestData {
                    id: narrowed_i64(id),
                    greenhouse_id: greenhouse_id as i64,
                },
            ),
        },
    }
}

fn decode_request_post_device_request_data(entries: &Vec<(Field, Term)>) -> (r: Option<WebSocketMessageData>)
    ensures
        data_view(r) == decoded_request_post_device_request_data(entry_views(entries@)),
{
    let id = match read_optional_int(entries, Field::Id, i64::MIN as i128, i64::MAX as i128) {
        Some(value) => value,
        None => {
            return None;
        },
    };
    let greenhouse_id = match read_int(entries, Field::GreenhouseId, i64::MIN as i128, i64::MAX as i128) {
        Some(value) => value,
        None => {
            return None;
        },
    };
    Some(
        WebSocketMessageData::RequestPostDeviceRequestData {
            id: narrow_i64(id),
            greenhouse_id: greenhouse_id as i64,
        },
    )
}

/// The body of the kind `request_post_device_disable` that a record holds, if all its fields are
/// there and of the right kind.
pub open spec fn decoded_request_post_device_disable(entries: Seq<(Field, TermView)>) -> Option<
    WebSocketMessageDataView,
> {
    match int_in(entries, Field::Id, i64::MIN as int, i64::MAX as int) {
        None => None,
        Some(id) =>         match int_in(entries, Field::GreenhouseId, i64::MIN as int, i64::MAX as int) {
            None => None,
            Some(greenhouse_id) => Some(
                WebSocketMessageDataView::RequestPostDeviceDisable {
                    id: id as i64,
                    greenhouse_id: greenhouse_id as i64,
                },
            ),
        },
    }
}

fn decode_request_post_device_disable(entries: &Vec<(Field, Term)>) -> (r: Option<WebSocketMessageData>)
    ensures
        data_view(r) == decoded_request_post_device_disable(entry_views(entries@)),
{
    let id = match read_int(entries, Field::Id, i64::MIN as i128, i64::MAX as i128) {
        Some(value) => value,
        None => {
            return None;
        },
    };
    let greenhouse_id = match read_int(entries, Field::GreenhouseId, i64::MIN as i128, i64::MAX as i128) {
        Some(value) => value,
        None => {
            return None;
        },
    };
    Some(
        WebSocketMessageData::RequestPostDeviceDisable {
            id: id as i64,
            greenhouse_id: greenhouse_id as i64,
        },
    )
}

/// The body of the kind `request_post_device_enable` that a record holds, if all its fields are
/// there and of the right kind.
pub open spec fn decoded_request_post_device_enable(entries: Seq<(Field, TermView)>) -> Option<
    WebSocketMessageDataView,
> {
    match int_in(entries, Field::Id, i64::MIN as int, i64::MAX as int) {
        None => None,
        Some(id) =>         match int_in(entries, Field::GreenhouseId, i64::MIN as int, i64::MAX as int) {
            None => None,
            Some(greenhouse_id) => Some(
                WebSocketMessageDataView::RequestPostDeviceEnable {
                    id: id as i64,
                    greenhouse_id: greenhouse_id as i64,
                },
            ),
        },
    }
}

fn decode_request_post_device_enable(entries: &Vec<(Field, Term)>) -> (r: Option<WebSocketMessageData>)
    ensures
        data_view(r) == decoded_request_post_device_enable(entry_views(entries@)),
{
    let id = match read_int(entries, Field::Id, i64::MIN as i128, i64::MAX as i128) {
        Some(value) => value,
        None => {
            return None;
        },
    };
    let greenhouse_id = match read_int(entries, Field::GreenhouseId, i64::MIN as i128, i64::MAX as i128) {
        Some(value) => value,
        None => {
            return None;
        },
    };
    Some(
        WebSocketMessageData::RequestPostDeviceEnable {
            id: id as i64,
            greenhouse_id: greenhouse_id as i64,
        },
    )
}

/// The body of the kind `authorize` that a record holds, if all its fields are
/// there and of the right kind.
pub open spec fn decoded_authorize(entries: Seq<(Field, TermView)>) -> Option<
    WebSocketMessageDataView,
> {
    match text_in(entries, Field::Token) {
        None => None,
        Some(token) => Some(
            WebSocketMessageDataView::Authorize {
                token,
            },
        ),
    }
}

fn decode_authorize(entries: &Vec<(Field, Term)>) -> (r: Option<WebSocketMessageData>)
    ensures
        data_view(r) == decoded_authorize(entry_views(entries@)),
{
    let token = match read_text(entries, Field::Token) {
        Some(value) => value,
        None => {
            return None;
        },
    };
    Some(
        WebSocketMessageData::Authorize {
            token,
        },
    )
}

/// The body of the kind `subscribe_to_user_update` that a record holds, if all its fields are
/// there and of the right kind.
pub open spec fn decoded_subscribe_to_user_update(entries: Seq<(Field, TermView)>) -> Option<
    WebSocketMessageDataView,
> {
    match int_in(entries, Field::Id, i64::MIN as int, i64::MAX as int) {
        None => None,
        Some(id) => Some(
            WebSocketMessageDataView::SubscribeToUserUpdate {
                id: id as i64,
            },
        ),
    }
}

fn decode_subscribe_to_user_update(entries: &Vec<(Field, Term)>) -> (r: Option<WebSocketMessageData>)
    ensures
        data_view(r) == decoded_subscribe_to_user_update(entry_views(entries@)),
{
    let id = match read_int(entries, Field::Id, i64::MIN as i128, i64::MAX as i128) {
        Some(value) => value,
        None => {
            return None;
        },
    };
    Some(
        WebSocketMessageData::SubscribeToUserUpdate {
            id: id as i64,
        },
    )
}

/// The body of the kind `subscribe_to_user_me_updates` that a record holds, if all its fields are
/// there and of the right kind.
pub open spec fn decoded_subscribe_to_user_me_updates(entries: Seq<(Field, TermView)>) -> Option<
    WebSocketMessageDataView,
> {
    Some(WebSocketMessageDataView::SubscribeToUserMeUpdates {})
}

fn decode_subscribe_to_user_me_updates(entries: &Vec<(Field, Term)>) -> (r: Option<WebSocketMessageData>)
    ensures
        data_view(r) == decoded_subscribe_to_user_me_updates(entry_views(entries@)),
{
    Some(WebSocketMessageData::SubscribeToUserMeUpdates {})
}

/// The body of the kind `subscribe_to_greenhouse_update` that a record holds, if all its fields are
/// there and of the right kind.
pub open spec fn decoded_subscribe_to_greenhouse_update(entries: Seq<(Field, TermView)>) -> Option<
    WebSocketMessageDataView,
> {
    match int_in(entries, Field::Id, i64::MIN as int, i64::MAX as int) {
        None => None,
        Some(id) => Some(
            WebSocketMessageDataView::SubscribeToGreenhouseUpdate {
                id: id as i64,
            },
        ),
    }
}

fn decode_subscribe_to_greenhouse_update(entries: &Vec<(Field, Term)>) -> (r: Option<WebSocketMessageData>)
    ensures
        data_view(r) == decoded_subscribe_to_greenhouse_update(entry_views(entries@)),
{
    let id = match read_int(entries, Field::Id, i64::MIN as i128, i64::MAX as i128) {
        Some(value) => value,
        None => {
            return None;
        },
    };
    Some(
        WebSocketMessageData::SubscribeToGreenhouseUpdate {
            id: id as i64,
        },
    )
}

/// The body of the kind `subscribe_to_device_update` that a record holds, if all its fields are
/// there and of the right kind.
pub open spec fn decoded_subscribe_to_device_update(entries: Seq<(Field, TermView)>) -> Option<
    WebSocketMessageDataView,
> {
    match int_in(entries, Field::Id, i64::MIN as int, i64::MAX as int) {
        None => None,
        Some(id) =>         match int_in(entries, Field::GreenhouseId, i64::MIN as int, i64::MAX as int) {
            None => None,
            Some(greenhouse_id) => Some(
                WebSocketMessageDataView::SubscribeToDeviceUpdate {
                    id: id as i64,
                    greenhouse_id: greenhouse_id as i64,
                },
            ),
        },
    }
}

fn decode_subscribe_to_device_update(entries: &Vec<(Field, Term)>) -> (r: Option<WebSocketMessageData>)
    ensures
        data_view(r) == decoded_subscribe_to_device_update(entry_views(entries@)),
{
    let id = match read_int(entries, Field::Id, i64::MIN as i128, i64::MAX as i128) {
        Some(value) => value,
        None => {
            return None;
        },
    };
    let greenhouse_id = match read_int(entries, Field::GreenhouseId, i64::MIN as i128, i64::MAX as i128) {
        Some(value) => value,
        None => {
            return None;
        },
    };
    Some(
        WebSocketMessageData::SubscribeToDeviceUpdate {
            id: id as i64,
            greenhouse_id: greenhouse_id as i64,
        },
    )
}

/// The body of the kind `subscribe_to_devices_update` that a record holds, if all its fields are
/// there and of the right kind.
pub open spec fn decoded_subscribe_to_devices_update(entries: Seq<(Field, TermView)>) -> Option<
    WebSocketMessageDataView,
> {
    match int_in(entries, Field::GreenhouseId, i64::MIN as int, i64::MAX as int) {
        None => None,
        Some(greenhouse_id) => Some(
            WebSocketMessageDataView::SubscribeToDevicesUpdate {
                greenhouse_id: greenhouse_id as i64,
            },
        ),
    }
}

fn decode_subscribe_to_devices_update(entries: &Vec<(Field, Term)>) -> (r: Option<WebSocketMessageData>)
    ensures
        data_view(r) == decoded_subscribe_to_devices_update(entry_views(entries@)),
{
    let greenhouse_id = match read_int(entries, Field::GreenhouseId, i64::MIN as i128, i64::MAX as i128) {
        Some(value) => value,
        None => {
            return None;
        },
    };
    Some(
        WebSocketMessageData::SubscribeToDevicesUpdate {
            greenhouse_id: greenhouse_id as i64,
        },
    )
}

/// The body of the kind `subscribe_to_device_records_update` that a record holds, if all its fields are
/// there and of the right kind.
pub open spec fn decoded_subscribe_to_device_records_update(entries: Seq<(Field, TermView)>) -> Option<
    WebSocketMessageDataView,
> {
    match int_in(entries, Field::DeviceId, i64::MIN as int, i64::MAX as int) {
        None => None,
        Some(device_id) =>         match int_in(entries, Field::GreenhouseId, i64::MIN as int, i64::MAX as int) {
            None => None,
            Some(greenhouse_id) => Some(
                WebSocketMessageDataView::SubscribeToDeviceRecordsUpdate {
                    device_id: device_id as i64,
                    greenhouse_id: greenhouse_id as i64,
                },
            ),
        },
    }
}

fn decode_subscribe_to_device_records_update(entries: &Vec<(Field, Term)>) -> (r: Option<WebSocketMessageData>)
    ensures
        data_view(r) == decoded_subscribe_to_device_records_update(entry_views(entries@)),
{
    let device_id = match read_int(entries, Field::DeviceId, i64::MIN as i128, i64::MAX as i128) {
        Some(value) => value,
        None => {
            return None;
        },
    };
    let greenhouse_id = match read_int(entries, Field::GreenhouseId, i64::MIN as i128, i64::MAX as i128) {
        Some(value) => value,
        None => {
            return None;
        },
    };
    Some(
        WebSocketMessageData::SubscribeToDeviceRecordsUpdate {
            device_id: device_id as i64,
            greenhouse_id: greenhouse_id as i64,
        },
    )
}

/// The body of the kind `subscribe_to_device_records_average_update` that a record holds, if all its fields are
/// there and of the right kind.
pub open spec fn decoded_subscribe_to_device_records_average_update(entries: Seq<(Field, TermView)>) -> Option<
    WebSocketMessageDataView,
> {
    match int_in(entries, Field::DeviceId, i64::MIN as int, i64::MAX as int) {
        None => None,
        Some(device_id) =>         match int_in(entries, Field::GreenhouseId, i64::MIN as int, i64::MAX as int) {
            None => None,
            Some(greenhouse_id) =>             match int_in(entries, Field::Range, 0, 5) {
                None => None,
                Some(range) => Some(
                    WebSocketMessageDataView::SubscribeToDeviceRecordsAverageUpdate {
                        device_id: device_id as i64,
                        greenhouse_id: greenhouse_id as i64,
                        range: range_of(range),
                    },
                ),
            },
        },
    }
}

fn decode_subscribe_to_device_records_average_update(entries: &Vec<(Field, Term)>) -> (r: Option<WebSocketMessageData>)
    ensures
        data_view(r) == decoded_subscribe_to_device_records_average_update(entry_views(entries@)),
{
    let device_id = match read_int(entries, Field::DeviceId, i64::MIN as i128, i64::MAX as i128) {
        Some(value) => value,
        None => {
            return None;
        },
    };
    let greenhouse_id = match read_int(entries, Field::GreenhouseId, i64::MIN as i128, i64::MAX as i128) {
        Some(value) => value,
        None => {
            return None;
        },
    };
    let range = match read_int(entries, Field::Range, 0, 5) {
        Some(value) => value,
        None => {
            return None;
        },
    };
    Some(
        WebSocketMessageData::SubscribeToDeviceRecordsAverageUpdate {
            device_id: device_id as i64,
            greenhouse_id: greenhouse_id as i64,
            range: range_from(range),
        },
    )
}

/// The body of the kind `dispatch_user_update` that a record holds, if all its fields are
/// there and of the right kind.
pub open spec fn decoded_dispatch_user_update(entries: Seq<(Field, TermView)>) -> Option<
    WebSocketMessageDataView,
> {
    match int_in(entries, Field::Id, i64::MIN as int, i64::MAX as int) {
        None => None,
        Some(id) =>         match text_in(entries, Field::Username) {
            None => None,
            Some(username) =>             match int_in(entries, Field::CreatedAt, 0 as int, u64::MAX as int) {
                None => None,
                Some(created_at) =>                 match int_in(entries, Field::Greenhouses, i64::MIN as int, i64::MAX as int) {
                    None => None,
                    Some(greenhouses) => Some(
                        WebSocketMessageDataView::DispatchUserUpdate {
                            id: id as i64,
                            username,
                            created_at: created_at as u64,
                            greenhouses: greenhouses as i64,
                        },
                    ),
                },
            },
        },
    }
}

fn decode_dispatch_user_update(entries: &Vec<(Field, Term)>) -> (r: Option<WebSocketMessageData>)
    ensures
        data_view(r) == decoded_dispatch_user_update(entry_views(entries@)),
{
    let id = match read_int(entries, Field::Id, i64::MIN as i128, i64::MAX as i128) {
        Some(value) => value,
        None => {
            return None;
        },
    };
    let username = match read_text(entries, Field::Username) {
        Some(value) => value,
        None => {
            return None;
        },
    };
    let created_at = match read_int(entries, Field::CreatedAt, 0 as i128, u64::MAX as i128) {
        Some(value) => value,
        None => {
            return None;
        },
    };
    let greenhouses = match read_int(entries, Field::Greenhouses, i64::MIN as i128, i64::MAX as i128) {
        Some(value) => value,
        None => {
            return None;
        },
    };
    Some(
        WebSocketMessageData::DispatchUserUpdate {
            id: id as i64,
            username,
            created_at: created_at as u64,
            greenhouses: greenhouses as i64,
        },
    )
}

/// The body of the kind `dispatch_user_me_update` that a record holds, if all its fields are
/// there and of the right kind.
pub open spec fn decoded_dispatch_user_me_update(entries: Seq<(Field, TermView)>) -> Option<
    WebSocketMessageDataView,
> {
    match int_in(entries, Field::Id, i64::MIN as int, i64::MAX as int) {
        None => None,
        Some(id) =>         match text_in(entries, Field::Email) {
            None => None,
            Some(email) =>             match text_in(entries, Field::Username) {
                None => None,
                Some(username) =>                 match int_in(entries, Field::CreatedAt, 0 as int, u64::MAX as int) {
                    None => None,
                    Some(created_at) =>                     match text_in(entries, Field::Locale) {
                        None => None,
                        Some(locale) =>                         match int_in(entries, Field::Theme, 0, 2) {
                            None => None,
                            Some(theme) =>                             match int_in(entries, Field::Greenhouses, i64::MIN as int, i64::MAX as int) {
                                None => None,
                                Some(greenhouses) => Some(
                                    WebSocketMessageDataView::DispatchUserMeUpdate {
                                        id: id as i64,
                                        email,
                                        username,
                                        created_at: created_at as u64,
                                        locale,
                                        theme: theme_of(theme),
                                        greenhouses: greenhouses as i64,
                                    },
                                ),
                            },
                        },
                    },
                },
            },
        },
    }
}

fn decode_dispatch_user_me_update(entries: &Vec<(Field, Term)>) -> (r: Option<WebSocketMessageData>)
    ensures
        data_view(r) == decoded_dispatch_user_me_update(entry_views(entries@)),
{
    let id = match read_int(entries, Field::Id, i64::MIN as i128, i64::MAX as i128) {
        Some(value) => value,
        None => {
            return None;
        },
    };
    let email = match read_text(entries, Field::Email) {
        Some(value) => value,
        None => {
            return None;
        },
    };
    let username = match read_text(entries, Field::Username) {
        Some(value) => value,
        None => {
            return None;
        },
    };
    let created_at = match read_int(entries, Field::CreatedAt, 0 as i128, u64::MAX as i128) {
        Some(value) => value,
        None => {
            return None;
        },
    };
    let locale = match read_text(entries, Field::Locale) {
        Some(value) => value,
        None => {
            return None;
        },
    };
    let theme = match read_int(entries, Field::Theme, 0, 2) {
        Some(value) => value,
        None => {
            return None;
        },
    };
    let greenhouses = match read_int(entries, Field::Greenhouses, i64::MIN as i128, i64::MAX as i128) {
        Some(value) => value,
        None => {
            return None;
        },
    };
    Some(
        WebSocketMessageData::DispatchUserMeUpdate {
            id: id as i64,
            email,
            username,
            created_at: created_at as u64,
            locale,
            theme: theme_from(theme),
            greenhouses: greenhouses as i64,
        },
    )
}

/// The body of the kind `dispatch_greenhouse_mine_update` that a record holds, if all its fields are
/// there and of the right kind.
pub open spec fn decoded_dispatch_greenhouse_mine_update(entries: Seq<(Field, TermView)>) -> Option<
    WebSocketMessageDataView,
> {
    match int_in(entries, Field::Id, i64::MIN as int, i64::MAX as int) {
        None => None,
        Some(id) =>         match text_in(entries, Field::Name) {
            None => None,
            Some(name) =>             match text_in(entries, Field::Token) {
                None => None,
                Some(token) =>                 match int_in(entries, Field::OwnerId, i64::MIN as int, i64::MAX as int) {
                    None => None,
                    Some(owner_id) =>                     match int_in(entries, Field::CreatedAt, 0 as int, u64::MAX as int) {
                        None => None,
                        Some(created_at) =>                         match optional_real_in(entries, Field::MaximumAverageHumidity) {
                            None => None,
                            Some(maximum_average_humidity) =>                             match optional_real_in(entries, Field::MinimumAverageTemperature) {
                                None => None,
                                Some(minimum_average_temperature) => Some(
                                    WebSocketMessageDataView::DispatchGreenhouseMineUpdate {
                                        id: id as i64,
                                        name,
                                        token,
                                        owner_id: owner_id as i64,
                                        created_at: created_at as u64,
                                        maximum_average_humidity,
                                        minimum_average_temperature,
                                    },
                                ),
                            },
                        },
                    },
                },
            },
        },
    }
}

fn decode_dispatch_greenhouse_mine_update(entries: &Vec<(Field, Term)>) -> (r: Option<WebSocketMessageData>)
    ensures
        data_view(r) == decoded_dispatch_greenhouse_mine_update(entry_views(entries@)),
{
    let id = match read_int(entries, Field::Id, i64::MIN as i128, i64::MAX as i128) {
        Some(value) => value,
        None => {
            return None;
        },
    };
    let name = match read_text(entries, Field::Name) {
        Some(value) => value,
        None => {
            return None;
        },
    };
    let token = match read_text(entries, Field::Token) {
        Some(value) => value,
        None => {
            return None;
        },
    };
    let owner_id = match read_int(entries, Field::OwnerId, i64::MIN as i128, i64::MAX as i128) {
        Some(value) => value,
        None => {
            return None;
        },
    };
    let created_at = match read_int(entries, Field::CreatedAt, 0 as i128, u64::MAX as i128) {
        Some(value) => value,
        None => {
            return None;
        },
    };
    let maximum_average_humidity = match read_optional_float(entries, Field::MaximumAverageHumidity) {
        Some(value) => value,
        None => {
            return None;
        },
    };
    let minimum_average_temperature = match read_optional_float(entries, Field::MinimumAverageTemperature) {
        Some(value) => value,
        None => {
            return None;
        },
    };
    Some(
        WebSocketMessageData::DispatchGreenhouseMineUpdate {
            id: id as i64,
            name,
            token,
            owner_id: owner_id as i64,
            created_at: created_at as u64,
            maximum_average_humidity,
            minimum_average_temperature,
        },
    )
}

/// The body of the kind `dispatch_greenhouse_mine_delete` that a record holds, if all its fields are
/// there and of the right kind.
pub open spec fn decoded_dispatch_greenhouse_mine_delete(entries: Seq<(Field, TermView)>) -> Option<
    WebSocketMessageDataView,
> {
    match int_in(entries, Field::Id, i64::MIN as int, i64::MAX as int) {
        None => None,
        Some(id) => Some(
            WebSocketMessageDataView::DispatchGreenhouseMineDelete {
                id: id as i64,
            },
        ),
    }
}

fn decode_dispatch_greenhouse_mine_delete(entries: &Vec<(Field, Term)>) -> (r: Option<WebSocketMessageData>)
    ensures
        data_view(r) == decoded_dispatch_greenhouse_mine_delete(entry_views(entries@)),
{
    let id = match read_int(entries, Field::Id, i64::MIN as i128, i64::MAX as i128) {
        Some(value) => value,
        None => {
            return None;
        },
    };
    Some(
        WebSocketMessageData::DispatchGreenhouseMineDelete {
            id: id as i64,
        },
    )
}

/// The body of the kind `dispatch_device_update` that a record holds, if all its fields are
/// there and of the right kind.
pub open spec fn decoded_dispatch_device_update(entries: Seq<(Field, TermView)>) -> Option<
    WebSocketMessageDataView,
> {
    match int_in(entries, Field::Id, i64::MIN as int, i64::MAX as int) {
        None => None,
        Some(id) =>         match optional_int_in(entries, Field::ExternalId, i16::MIN as int, i16::MAX as int) {
            None => None,
            Some(external_id) =>             match optional_text_in(entries, Field::Name) {
                None => None,
                Some(name) =>                 match int_in(entries, Field::Status, 0, 2) {
                    None => None,
                    Some(status) =>                     match int_in(entries, Field::Kind, 0, 5) {
                        None => None,
                        Some(kind) =>                         match int_in(entries, Field::GreenhouseId, i64::MIN as int, i64::MAX as int) {
                            None => None,
                            Some(greenhouse_id) =>                             match int_in(entries, Field::CreatedAt, 0 as int, u64::MAX as int) {
                                None => None,
                                Some(created_at) =>                                 match optional_real_in(entries, Field::MaximumDataValue) {
                                    None => None,
                                    Some(maximum_data_value) =>                                     match optional_real_in(entries, Field::LatestData) {
                                        None => None,
                                        Some(latest_data) => Some(
                                            WebSocketMessageDataView::DispatchDeviceUpdate {
                                                id: id as i64,
                                                external_id: narrowed_i16(external_id),
                                                name,
                                                status: status_of(status),
                                                kind: kind_of(kind),
                                                greenhouse_id: greenhouse_id as i64,
                                                created_at: created_at as u64,
                                                maximum_data_value,
                                                latest_data,
                                            },
                                        ),
                                    },
                                },
                            },
                        },
                    },
                },
            },
        },
    }
}

fn decode_dispatch_device_update(entries: &Vec<(Field, Term)>) -> (r: Option<WebSocketMessageData>)
    ensures
        data_view(r) == decoded_dispatch_device_update(entry_views(entries@)),
{
    let id = match read_int(entries, Field::Id, i64::MIN as i128, i64::MAX as i128) {
        Some(value) => value,
        None => {
            return None;
        },
    };
    let external_id = match read_optional_int(entries, Field::ExternalId, i16::MIN as i128, i16::MAX as i128) {
        Some(value) => value,
        None => {
            return None;
        },
    };
    let name = match read_optional_text(entries, Field::Name) {
        Some(value) => value,
        None => {
            return None;
        },
    };
    let status = match read_int(entries, Field::Status, 0, 2) {
        Some(value) => value,
        None => {
            return None;
        },
    };
    let kind = match read_int(entries, Field::Kind, 0, 5) {
        Some(value) => value,
        None => {
            return None;
        },
    };
    let greenhouse_id = match read_int(entries, Field::GreenhouseId, i64::MIN as i128, i64::MAX as i128) {
        Some(value) => value,
        None => {
            return None;
        },
    };
    let created_at = match read_int(entries, Field::CreatedAt, 0 as i128, u64::MAX as i128) {
        Some(value) => value,
        None => {
            return None;
        },
    };
    let maximum_data_value = match read_optional_float(entries, Field::MaximumDataValue) {
        Some(value) => value,
        None => {
            return None;
        },
    };
    let latest_data = match read_optional_float(entries, Field::LatestData) {
        Some(value) => value,
        None => {
            return None;
        },
    };
    Some(
        WebSocketMessageData::DispatchDeviceUpdate {
            id: id as i64,
            external_id: narrow_i16(external_id),
            name,
            status: status_from(status),
            kind: kind_from(kind),
            greenhouse_id: greenhouse_id as i64,
            created_at: created_at as u64,
            maximum_data_value,
            latest_data,
        },
    )
}

/// The body of the kind `dispatch_device_records_update` that a record holds, if all its fields are
/// there and of the right kind.
pub open spec fn decoded_dispatch_device_records_update(entries: Seq<(Field, TermView)>) -> Option<
    WebSocketMessageDataView,
> {
    match int_in(entries, Field::DeviceId, i64::MIN as int, i64::MAX as int) {
        None => None,
        Some(device_id) =>         match int_in(entries, Field::Quantity, i64::MIN as int, i64::MAX as int) {
            None => None,
            Some(quantity) => Some(
                WebSocketMessageDataView::DispatchDeviceRecordsUpdate {
                    device_id: device_id as i64,
                    quantity: quantity as i64,
                },
            ),
        },
    }
}

fn decode_dispatch_device_records_update(entries: &Vec<(Field, Term)>) -> (r: Option<WebSocketMessageData>)
    ensures
        data_view(r) == decoded_dispatch_device_records_update(entry_views(entries@)),
{
    let device_id = match read_int(entries, Field::DeviceId, i64::MIN as i128, i64::MAX as i128) {
        Some(value) => value,
        None => {
            return None;
        },
    };
    let quantity = match read_int(entries, Field::Quantity, i64::MIN as i128, i64::MAX as i128) {
        Some(value) => value,
        None => {
            return None;
        },
    };
    Some(
        WebSocketMessageData::DispatchDeviceRecordsUpdate {
            device_id: device_id as i64,
            quantity: quantity as i64,
        },
    )
}

/// The body of the kind `dispatch_device_records_average_update` that a record holds, if all its fields are
/// there and of the right kind.
pub open spec fn decoded_dispatch_device_records_average_update(entries: Seq<(Field, TermView)>) -> Option<
    WebSocketMessageDataView,
> {
    match int_in(entries, Field::DeviceId, i64::MIN as int, i64::MAX as int) {
        None => None,
        Some(device_id) =>         match int_in(entries, Field::Range, 0, 5) {
            None => None,
            Some(range) =>             match averages_in(entries, Field::Records) {
                None => None,
                Some(records) => Some(
                    WebSocketMessageDataView::DispatchDeviceRecordsAverageUpdate {
                        device_id: device_id as i64,
                        range: range_of(range),
                        records,
                    },
                ),
            },
        },
    }
}

fn decode_dispatch_device_records_average_update(entries: &Vec<(Field, Term)>) -> (r: Option<WebSocketMessageData>)
    ensures
        data_view(r) == decoded_dispatch_device_records_average_update(entry_views(entries@)),
{
    let device_id = match read_int(entries, Field::DeviceId, i64::MIN as i128, i64::MAX as i128) {
        Some(value) => value,
        None => {
            return None;
        },
    };
    let range = match read_int(entries, Field::Range, 0, 5) {
        Some(value) => value,
        None => {
            return None;
        },
    };
    let records = match read_averages(entries, Field::Records) {
        Some(value) => value,
        None => {
            return None;
        },
    };
    Some(
        WebSocketMessageData::DispatchDeviceRecordsAverageUpdate {
            device_id: device_id as i64,
            range: range_from(range),
            records,
        },
    )
}

/// The body of the kind `response` that a record holds, if all its fields are
/// there and of the right kind.
pub open spec fn decoded_response(entries: Seq<(Field, TermView)>) -> Option<
    WebSocketMessageDataView,
> {
    match int_in(entries, Field::Code, 0 as int, u32::MAX as int) {
        None => None,
        Some(code) =>         match text_in(entries, Field::Message) {
            None => None,
            Some(message) => Some(
                WebSocketMessageDataView::Response {
                    code: code as u32,
                    message,
                },
            ),
        },
    }
}

fn decode_response(entries: &Vec<(Field, Term)>) -> (r: Option<WebSocketMessageData>)
    ensures
        data_view(r) == decoded_response(entry_views(entries@)),
{
    let code = match read_int(entries, Field::Code, 0 as i128, u32::MAX as i128) {
        Some(value) => value,
        None => {
            return None;
        },
    };
    let message = match read_text(entries, Field::Message) {
        Some(value) => value,
        None => {
            return None;
        },
    };
    Some(
        WebSocketMessageData::Response {
            code: code as u32,
            message,
        },
    )
}

/// The place of a kind of body among the kinds, by the name that the kind
/// is written as; -1 for a name that no kind has.
pub open spec fn action_number(action: Seq<char>) -> i8 {
    if action == "request_patch_user"@ {
        0
    } else if action == "request_post_greenhouse"@ {
        1
    } else if action == "request_patch_greenhouse"@ {
        2
    } else if action == "request_delete_greenhouse"@ {
        3
    } else if action == "request_patch_device"@ {
        4
    } else if action == "request_patch_devices_reset_names"@ {
        5
    } else if action == "request_patch_device_state"@ {
        6
    } else if action == "request_post_device_custom_data"@ {
        7
    } else if action == "request_post_device_request_data"@ {
        8
    } else if action == "request_post_device_disable"@ {
        9
    } else if action == "request_post_device_enable"@ {
        10
    } else if action == "authorize"@ {
        11
    } else if action == "subscribe_to_user_update"@ {
        12
    } else if action == "subscribe_to_user_me_updates"@ {
        13
    } else if action == "subscribe_to_greenhouse_update"@ {
        14
    } else if action == "subscribe_to_device_update"@ {
        15
    } else if action == "subscribe_to_devices_update"@ {
        16
    } else if action == "subscribe_to_device_records_update"@ {
        17
    } else if action == "subscribe_to_device_records_average_update"@ {
        18
    } else if action == "dispatch_user_update"@ {
        19
    } else if action == "dispatch_user_me_update"@ {
        20
    } else if action == "dispatch_greenhouse_mine_update"@ {
        21
    } else if action == "dispatch_greenhouse_mine_delete"@ {
        22
    } else if action == "dispatch_device_update"@ {
        23
    } else if action == "dispatch_device_records_update"@ {
        24
    } else if action == "dispatch_device_records_average_update"@ {
        25
    } else if action == "response"@ {
        26
    } else if action == "none"@ {
        27
    } else {
        -1i8
    }
}

fn number_of_action(action: &str) -> (r: i8)
    ensures
        r == action_number(action@),
{
    if same_text(action, "request_patch_user") {
        0
    } else if same_text(action, "request_post_greenhouse") {
        1
    } else if same_text(action, "request_patch_greenhouse") {
        2
    } else if same_text(action, "request_delete_greenhouse") {
        3
    } else if same_text(action, "request_patch_device") {
        4
    } else if same_text(action, "request_patch_devices_reset_names") {
        5
    } else if same_text(action, "request_patch_device_state") {
        6
    } else if same_text(action, "request_post_device_custom_data") {
        7
    } else if same_text(action, "request_post_device_request_data") {
        8
    } else if same_text(action, "request_post_device_disable") {
        9
    } else if same_text(action, "request_post_device_enable") {
        10
    } else if same_text(action, "authorize") {
        11
    } else if same_text(action, "subscribe_to_user_update") {
        12
    } else if same_text(action, "subscribe_to_user_me_updates") {
        13
    } else if same_text(action, "subscribe_to_greenhouse_update") {
        14
    } else if same_text(action, "subscribe_to_device_update") {
        15
    } else if same_text(action, "subscribe_to_devices_update") {
        16
    } else if same_text(action, "subscribe_to_device_records_update") {
        17
    } else if same_text(action, "subscribe_to_device_records_average_update") {
        18
    } else if same_text(action, "dispatch_user_update") {
        19
    } else if same_text(action, "dispatch_user_me_update") {
        20
    } else if same_text(action, "dispatch_greenhouse_mine_update") {
        21
    } else if same_text(action, "dispatch_greenhouse_mine_delete") {
        22
    } else if same_text(action, "dispatch_device_update") {
        23
    } else if same_text(action, "dispatch_device_records_update") {
        24
    } else if same_text(action, "dispatch_device_records_average_update") {
        25
    } else if same_text(action, "response") {
        26
    } else if same_text(action, "none") {
        27
    } else {
        -1
    }
}

proof fn lemma_action_request_patch_user()
    ensures
        "request_patch_user"@.len() == 18,
        "request_patch_user"@[0] == 'r',
        "request_patch_user"@[1] == 'e',
        "request_patch_user"@[2] == 'q',
        "request_patch_user"@[3] == 'u',
        "request_patch_user"@[4] == 'e',
        "request_patch_user"@[5] == 's',
        "request_patch_user"@[6] == 't',
        "request_patch_user"@[7] == '_',
        "request_patch_user"@[8] == 'p',
        "request_patch_user"@[9] == 'a',
        "request_patch_user"@[10] == 't',
        "request_patch_user"@[11] == 'c',
        "request_patch_user"@[12] == 'h',
        "request_patch_user"@[13] == '_',
        "request_patch_user"@[14] == 'u',
        "request_patch_user"@[15] == 's',
        "request_patch_user"@[16] == 'e',
        "request_patch_user"@[17] == 'r',
{
    reveal_strlit("request_patch_user");
}

proof fn lemma_action_request_post_greenhouse()
    ensures
        "request_post_greenhouse"@.len() == 23,
        "request_post_greenhouse"@[0] == 'r',
        "request_post_greenhouse"@[1] == 'e',
        "request_post_greenhouse"@[2] == 'q',
        "request_post_greenhouse"@[3] == 'u',
        "request_post_greenhouse"@[4] == 'e',
        "request_post_greenhouse"@[5] == 's',
        "request_post_greenhouse"@[6] == 't',
        "request_post_greenhouse"@[7] == '_',
        "request_post_greenhouse"@[8] == 'p',
        "request_post_greenhouse"@[9] == 'o',
        "request_post_greenhouse"@[10] == 's',
        "request_post_greenhouse"@[11] == 't',
        "request_post_greenhouse"@[12] == '_',
        "request_post_greenhouse"@[13] == 'g',
        "request_post_greenhouse"@[14] == 'r',
        "request_post_greenhouse"@[15] == 'e',
        "request_post_greenhouse"@[16] == 'e',
        "request_post_greenhouse"@[17] == 'n',
        "request_post_greenhouse"@[18] == 'h',
        "request_post_greenhouse"@[19] == 'o',
        "request_post_greenhouse"@[20] == 'u',
        "request_post_greenhouse"@[21] == 's',
        "request_post_greenhouse"@[22] == 'e',
{
    reveal_strlit("request_post_greenhouse");
}

proof fn lemma_action_request_patch_greenhouse()
    ensures
        "request_patch_greenhouse"@.len() == 24,
        "request_patch_greenhouse"@[0] == 'r',
        "request_patch_greenhouse"@[1] == 'e',
        "request_patch_greenhouse"@[2] == 'q',
        "request_patch_greenhouse"@[3] == 'u',
        "request_patch_greenhouse"@[4] == 'e',
        "request_patch_greenhouse"@[5] == 's',
        "request_patch_greenhouse"@[6] == 't',
        "request_patch_greenhouse"@[7] == '_',
        "request_patch_greenhouse"@[8] == 'p',
        "request_patch_greenhouse"@[9] == 'a',
        "request_patch_greenhouse"@[10] == 't',
        "request_patch_greenhouse"@[11] == 'c',
        "request_patch_greenhouse"@[12] == 'h',
        "request_patch_greenhouse"@[13] == '_',
        "request_patch_greenhouse"@[14] == 'g',
        "request_patch_greenhouse"@[15] == 'r',
        "request_patch_greenhouse"@[16] == 'e',
        "request_patch_greenhouse"@[17] == 'e',
        "request_patch_greenhouse"@[18] == 'n',
        "request_patch_greenhouse"@[19] == 'h',
        "request_patch_greenhouse"@[20] == 'o',
        "request_patch_greenhouse"@[21] == 'u',
        "request_patch_greenhouse"@[22] == 's',
        "request_patch_greenhouse"@[23] == 'e',
{
    reveal_strlit("request_patch_greenhouse");
}

proof fn lemma_action_request_delete_greenhouse()
    ensures
        "request_delete_greenhouse"@.len() == 25,
        "request_delete_greenhouse"@[0] == 'r',
        "request_delete_greenhouse"@[1] == 'e',
        "request_delete_greenhouse"@[2] == 'q',
        "request_delete_greenhouse"@[3] == 'u',
        "request_delete_greenhouse"@[4] == 'e',
        "request_delete_greenhouse"@[5] == 's',
        "request_delete_greenhouse"@[6] == 't',
        "request_delete_greenhouse"@[7] == '_',
        "request_delete_greenhouse"@[8] == 'd',
        "request_delete_greenhouse"@[9] == 'e',
        "request_delete_greenhouse"@[10] == 'l',
        "request_delete_greenhouse"@[11] == 'e',
        "request_delete_greenhouse"@[12] == 't',
        "request_delete_greenhouse"@[13] == 'e',
        "request_delete_greenhouse"@[14] == '_',
        "request_delete_greenhouse"@[15] == 'g',
        "request_delete_greenhouse"@[16] == 'r',
        "request_delete_greenhouse"@[17] == 'e',
        "request_delete_greenhouse"@[18] == 'e',
        "request_delete_greenhouse"@[19] == 'n',
        "request_delete_greenhouse"@[20] == 'h',
        "request_delete_greenhouse"@[21] == 'o',
        "request_delete_greenhouse"@[22] == 'u',
        "request_delete_greenhouse"@[23] == 's',
        "request_delete_greenhouse"@[24] == 'e',
{
    reveal_strlit("request_delete_greenhouse");
}

proof fn lemma_action_request_patch_device()
    ensures
        "request_patch_device"@.len() == 20,
        "request_patch_device"@[0] == 'r',
        "request_patch_device"@[1] == 'e',
        "request_patch_device"@[2] == 'q',
        "request_patch_device"@[3] == 'u',
        "request_patch_device"@[4] == 'e',
        "request_patch_device"@[5] == 's',
        "request_patch_device"@[6] == 't',
        "request_patch_device"@[7] == '_',
        "request_patch_device"@[8] == 'p',
        "request_patch_device"@[9] == 'a',
        "request_patch_device"@[10] == 't',
        "request_patch_device"@[11] == 'c',
        "request_patch_device"@[12] == 'h',
        "request_patch_device"@[13] == '_',
        "request_patch_device"@[14] == 'd',
        "request_patch_device"@[15] == 'e',
        "request_patch_device"@[16] == 'v',
        "request_patch_device"@[17] == 'i',
        "request_patch_device"@[18] == 'c',
        "request_patch_device"@[19] == 'e',
{
    reveal_strlit("request_patch_device");
}

proof fn lemma_action_request_patch_devices_reset_names()
    ensures
        "request_patch_devices_reset_names"@.len() == 33,
        "request_patch_devices_reset_names"@[0] == 'r',
        "request_patch_devices_reset_names"@[1] == 'e',
        "request_patch_devices_reset_names"@[2] == 'q',
        "request_patch_devices_reset_names"@[3] == 'u',
        "request_patch_devices_reset_names"@[4] == 'e',
        "request_patch_devices_reset_names"@[5] == 's',
        "request_patch_devices_reset_names"@[6] == 't',
        "request_patch_devices_reset_names"@[7] == '_',
        "request_patch_devices_reset_names"@[8] == 'p',
        "request_patch_devices_reset_names"@[9] == 'a',
        "request_patch_devices_reset_names"@[10] == 't',
        "request_patch_devices_reset_names"@[11] == 'c',
        "request_patch_devices_reset_names"@[12] == 'h',
        "request_patch_devices_reset_names"@[13] == '_',
        "request_patch_devices_reset_names"@[14] == 'd',
        "request_patch_devices_reset_names"@[15] == 'e',
        "request_patch_devices_reset_names"@[16] == 'v',
        "request_patch_devices_reset_names"@[17] == 'i',
        "request_patch_devices_reset_names"@[18] == 'c',
        "request_patch_devices_reset_names"@[19] == 'e',
        "request_patch_devices_reset_names"@[20] == 's',
        "request_patch_devices_reset_names"@[21] == '_',
        "request_patch_devices_reset_names"@[22] == 'r',
        "request_patch_devices_reset_names"@[23] == 'e',
        "request_patch_devices_reset_names"@[24] == 's',
        "request_patch_devices_reset_names"@[25] == 'e',
        "request_patch_devices_reset_names"@[26] == 't',
        "request_patch_devices_reset_names"@[27] == '_',
        "request_patch_devices_reset_names"@[28] == 'n',
        "request_patch_devices_reset_names"@[29] == 'a',
        "request_patch_devices_reset_names"@[30] == 'm',
        "request_patch_devices_reset_names"@[31] == 'e',
        "request_patch_devices_reset_names"@[32] == 's',
{
    reveal_strlit("request_patch_devices_reset_names");
}

proof fn lemma_action_request_patch_device_state()
    ensures
        "request_patch_device_state"@.len() == 26,
        "request_patch_device_state"@[0] == 'r',
        "request_patch_device_state"@[1] == 'e',
        "request_patch_device_state"@[2] == 'q',
        "request_patch_device_state"@[3] == 'u',
        "request_patch_device_state"@[4] == 'e',
        "request_patch_device_state"@[5] == 's',
        "request_patch_device_state"@[6] == 't',
        "request_patch_device_state"@[7] == '_',
        "request_patch_device_state"@[8] == 'p',
        "request_patch_device_state"@[9] == 'a',
        "request_patch_device_state"@[10] == 't',
        "request_patch_device_state"@[11] == 'c',
        "request_patch_device_state"@[12] == 'h',
        "request_patch_device_state"@[13] == '_',
        "request_patch_device_state"@[14] == 'd',
        "request_patch_device_state"@[15] == 'e',
        "request_patch_device_state"@[16] == 'v',
        "request_patch_device_state"@[17] == 'i',
        "request_patch_device_state"@[18] == 'c',
        "request_patch_device_state"@[19] == 'e',
        "request_patch_device_state"@[20] == '_',
        "request_patch_device_state"@[21] == 's',
        "request_patch_device_state"@[22] == 't',
        "request_patch_device_state"@[23] == 'a',
        "request_patch_device_state"@[24] == 't',
        "request_patch_device_state"@[25] == 'e',
{
    reveal_strlit("request_patch_device_state");
}

proof fn lemma_action_request_post_device_custom_data()
    ensures
        "request_post_device_custom_data"@.len() == 31,
        "request_post_device_custom_data"@[0] == 'r',
        "request_post_device_custom_data"@[1] == 'e',
        "request_post_device_custom_data"@[2] == 'q',
        "request_post_device_custom_data"@[3] == 'u',
        "request_post_device_custom_data"@[4] == 'e',
        "request_post_device_custom_data"@[5] == 's',
        "request_post_device_custom_data"@[6] == 't',
        "request_post_device_custom_data"@[7] == '_',
        "request_post_device_custom_data"@[8] == 'p',
        "request_post_device_custom_data"@[9] == 'o',
        "request_post_device_custom_data"@[10] == 's',
        "request_post_device_custom_data"@[11] == 't',
        "request_post_device_custom_data"@[12] == '_',
        "request_post_device_custom_data"@[13] == 'd',
        "request_post_device_custom_data"@[14] == 'e',
        "request_post_device_custom_data"@[15] == 'v',
        "request_post_device_custom_data"@[16] == 'i',
        "request_post_device_custom_data"@[17] == 'c',
        "request_post_device_custom_data"@[18] == 'e',
        "request_post_device_custom_data"@[19] == '_',
        "request_post_device_custom_data"@[20] == 'c',
        "request_post_device_custom_data"@[21] == 'u',
        "request_post_device_custom_data"@[22] == 's',
        "request_post_device_custom_data"@[23] == 't',
        "request_post_device_custom_data"@[24] == 'o',
        "request_post_device_custom_data"@[25] == 'm',
        "request_post_device_custom_data"@[26] == '_',
        "request_post_device_custom_data"@[27] == 'd',
        "request_post_device_custom_data"@[28] == 'a',
        "request_post_device_custom_data"@[29] == 't',
        "request_post_device_custom_data"@[30] == 'a',
{
    reveal_strlit("request_post_device_custom_data");
}

proof fn lemma_action_request_post_device_request_data()
    ensures
        "request_post_device_request_data"@.len() == 32,
        "request_post_device_request_data"@[0] == 'r',
        "request_post_device_request_data"@[1] == 'e',
        "request_post_device_request_data"@[2] == 'q',
        "request_post_device_request_data"@[3] == 'u',
        "request_post_device_request_data"@[4] == 'e',
        "request_post_device_request_data"@[5] == 's',
        "request_post_device_request_data"@[6] == 't',
        "request_post_device_request_data"@[7] == '_',
        "request_post_device_request_data"@[8] == 'p',
        "request_post_device_request_data"@[9] == 'o',
        "request_post_device_request_data"@[10] == 's',
        "request_post_device_request_data"@[11] == 't',
        "request_post_device_request_data"@[12] == '_',
        "request_post_device_request_data"@[13] == 'd',
        "request_post_device_request_data"@[14] == 'e',
        "request_post_device_request_data"@[15] == 'v',
        "request_post_device_request_data"@[16] == 'i',
        "request_post_device_request_data"@[17] == 'c',
        "request_post_device_request_data"@[18] == 'e',
        "request_post_device_request_data"@[19] == '_',
        "request_post_device_request_data"@[20] == 'r',
        "request_post_device_request_data"@[21] == 'e',
        "request_post_device_request_data"@[22] == 'q',
        "request_post_device_request_data"@[23] == 'u',
        "request_post_device_request_data"@[24] == 'e',
        "request_post_device_request_data"@[25] == 's',
        "request_post_device_request_data"@[26] == 't',
        "request_post_device_request_data"@[27] == '_',
        "request_post_device_request_data"@[28] == 'd',
        "request_post_device_request_data"@[29] == 'a',
        "request_post_device_request_data"@[30] == 't',
        "request_post_device_request_data"@[31] == 'a',
{
    reveal_strlit("request_post_device_request_data");
}

proof fn lemma_action_request_post_device_disable()
    ensures
        "request_post_device_disable"@.len() == 27,
        "request_post_device_disable"@[0] == 'r',
        "request_post_device_disable"@[1] == 'e',
        "request_post_device_disable"@[2] == 'q',
        "request_post_device_disable"@[3] == 'u',
        "request_post_device_disable"@[4] == 'e',
        "request_post_device_disable"@[5] == 's',
        "request_post_device_disable"@[6] == 't',
        "request_post_device_disable"@[7] == '_',
        "request_post_device_disable"@[8] == 'p',
        "request_post_device_disable"@[9] == 'o',
        "request_post_device_disable"@[10] == 's',
        "request_post_device_disable"@[11] == 't',
        "request_post_device_disable"@[12] == '_',
        "request_post_device_disable"@[13] == 'd',
        "request_post_device_disable"@[14] == 'e',
        "request_post_device_disable"@[15] == 'v',
        "request_post_device_disable"@[16] == 'i',
        "request_post_device_disable"@[17] == 'c',
        "request_post_device_disable"@[18] == 'e',
        "request_post_device_disable"@[19] == '_',
        "request_post_device_disable"@[20] == 'd',
        "request_post_device_disable"@[21] == 'i',
        "request_post_device_disable"@[22] == 's',
        "request_post_device_disable"@[23] == 'a',
        "request_post_device_disable"@[24] == 'b',
        "request_post_device_disable"@[25] == 'l',
        "request_post_device_disable"@[26] == 'e',
{
    reveal_strlit("request_post_device_disable");
}

proof fn lemma_action_request_post_device_enable()
    ensures
        "request_post_device_enable"@.len() == 26,
        "request_post_device_enable"@[0] == 'r',
        "request_post_device_enable"@[1] == 'e',
        "request_post_device_enable"@[2] == 'q',
        "request_post_device_enable"@[3] == 'u',
        "request_post_device_enable"@[4] == 'e',
        "request_post_device_enable"@[5] == 's',
        "request_post_device_enable"@[6] == 't',
        "request_post_device_enable"@[7] == '_',
        "request_post_device_enable"@[8] == 'p',
        "request_post_device_enable"@[9] == 'o',
        "request_post_device_enable"@[10] == 's',
        "request_post_device_enable"@[11] == 't',
        "request_post_device_enable"@[12] == '_',
        "request_post_device_enable"@[13] == 'd',
        "request_post_device_enable"@[14] == 'e',
        "request_post_device_enable"@[15] == 'v',
        "request_post_device_enable"@[16] == 'i',
        "request_post_device_enable"@[17] == 'c',
        "request_post_device_enable"@[18] == 'e',
        "request_post_device_enable"@[19] == '_',
        "request_post_device_enable"@[20] == 'e',
        "request_post_device_enable"@[21] == 'n',
        "request_post_device_enable"@[22] == 'a',
        "request_post_device_enable"@[23] == 'b',
        "request_post_device_enable"@[24] == 'l',
        "request_post_device_enable"@[25] == 'e',
{
    reveal_strlit("request_post_device_enable");
}

proof fn lemma_action_authorize()
    ensures
        "authorize"@.len() == 9,
        "authorize"@[0] == 'a',
        "authorize"@[1] == 'u',
        "authorize"@[2] == 't',
        "authorize"@[3] == 'h',
        "authorize"@[4] == 'o',
        "authorize"@[5] == 'r',
        "authorize"@[6] == 'i',
        "authorize"@[7] == 'z',
        "authorize"@[8] == 'e',
{
    reveal_strlit("authorize");
}

proof fn lemma_action_subscribe_to_user_update()
    ensures
        "subscribe_to_user_update"@.len() == 24,
        "subscribe_to_user_update"@[0] == 's',
        "subscribe_to_user_update"@[1] == 'u',
        "subscribe_to_user_update"@[2] == 'b',
        "subscribe_to_user_update"@[3] == 's',
        "subscribe_to_user_update"@[4] == 'c',
        "subscribe_to_user_update"@[5] == 'r',
        "subscribe_to_user_update"@[6] == 'i',
        "subscribe_to_user_update"@[7] == 'b',
        "subscribe_to_user_update"@[8] == 'e',
        "subscribe_to_user_update"@[9] == '_',
        "subscribe_to_user_update"@[10] == 't',
        "subscribe_to_user_update"@[11] == 'o',
        "subscribe_to_user_update"@[12] == '_',
        "subscribe_to_user_update"@[13] == 'u',
        "subscribe_to_user_update"@[14] == 's',
        "subscribe_to_user_update"@[15] == 'e',
        "subscribe_to_user_update"@[16] == 'r',
        "subscribe_to_user_update"@[17] == '_',
        "subscribe_to_user_update"@[18] == 'u',
        "subscribe_to_user_update"@[19] == 'p',
        "subscribe_to_user_update"@[20] == 'd',
        "subscribe_to_user_update"@[21] == 'a',
        "subscribe_to_user_update"@[22] == 't',
        "subscribe_to_user_update"@[23] == 'e',
{
    reveal_strlit("subscribe_to_user_update");
}

proof fn lemma_action_subscribe_to_user_me_updates()
    ensures
        "subscribe_to_user_me_updates"@.len() == 28,
        "subscribe_to_user_me_updates"@[0] == 's',
        "subscribe_to_user_me_updates"@[1] == 'u',
        "subscribe_to_user_me_updates"@[2] == 'b',
        "subscribe_to_user_me_updates"@[3] == 's',
        "subscribe_to_user_me_updates"@[4] == 'c',
        "subscribe_to_user_me_updates"@[5] == 'r',
        "subscribe_to_user_me_updates"@[6] == 'i',
        "subscribe_to_user_me_updates"@[7] == 'b',
        "subscribe_to_user_me_updates"@[8] == 'e',
        "subscribe_to_user_me_updates"@[9] == '_',
        "subscribe_to_user_me_updates"@[10] == 't',
        "subscribe_to_user_me_updates"@[11] == 'o',
        "subscribe_to_user_me_updates"@[12] == '_',
        "subscribe_to_user_me_updates"@[13] == 'u',
        "subscribe_to_user_me_updates"@[14] == 's',
        "subscribe_to_user_me_updates"@[15] == 'e',
        "subscribe_to_user_me_updates"@[16] == 'r',
        "subscribe_to_user_me_updates"@[17] == '_',
        "subscribe_to_user_me_updates"@[18] == 'm',
        "subscribe_to_user_me_updates"@[19] == 'e',
        "subscribe_to_user_me_updates"@[20] == '_',
        "subscribe_to_user_me_updates"@[21] == 'u',
        "subscribe_to_user_me_updates"@[22] == 'p',
        "subscribe_to_user_me_updates"@[23] == 'd',
        "subscribe_to_user_me_updates"@[24] == 'a',
        "subscribe_to_user_me_updates"@[25] == 't',
        "subscribe_to_user_me_updates"@[26] == 'e',
        "subscribe_to_user_me_updates"@[27] == 's',
{
    reveal_strlit("subscribe_to_user_me_updates");
}

proof fn lemma_action_subscribe_to_greenhouse_update()
    ensures
        "subscribe_to_greenhouse_update"@.len() == 30,
        "subscribe_to_greenhouse_update"@[0] == 's',
        "subscribe_to_greenhouse_update"@[1] == 'u',
        "subscribe_to_greenhouse_update"@[2] == 'b',
        "subscribe_to_greenhouse_update"@[3] == 's',
        "subscribe_to_greenhouse_update"@[4] == 'c',
        "subscribe_to_greenhouse_update"@[5] == 'r',
        "subscribe_to_greenhouse_update"@[6] == 'i',
        "subscribe_to_greenhouse_update"@[7] == 'b',
        "subscribe_to_greenhouse_update"@[8] == 'e',
        "subscribe_to_greenhouse_update"@[9] == '_',
        "subscribe_to_greenhouse_update"@[10] == 't',
        "subscribe_to_greenhouse_update"@[11] == 'o',
        "subscribe_to_greenhouse_update"@[12] == '_',
        "subscribe_to_greenhouse_update"@[13] == 'g',
        "subscribe_to_greenhouse_update"@[14] == 'r',
        "subscribe_to_greenhouse_update"@[15] == 'e',
        "subscribe_to_greenhouse_update"@[16] == 'e',
        "subscribe_to_greenhouse_update"@[17] == 'n',
        "subscribe_to_greenhouse_update"@[18] == 'h',
        "subscribe_to_greenhouse_update"@[19] == 'o',
        "subscribe_to_greenhouse_update"@[20] == 'u',
        "subscribe_to_greenhouse_update"@[21] == 's',
        "subscribe_to_greenhouse_update"@[22] == 'e',
        "subscribe_to_greenhouse_update"@[23] == '_',
        "subscribe_to_greenhouse_update"@[24] == 'u',
        "subscribe_to_greenhouse_update"@[25] == 'p',
        "subscribe_to_greenhouse_update"@[26] == 'd',
        "subscribe_to_greenhouse_update"@[27] == 'a',
        "subscribe_to_greenhouse_update"@[28] == 't',
        "subscribe_to_greenhouse_update"@[29] == 'e',
{
    reveal_strlit("subscribe_to_greenhouse_update");
}

proof fn lemma_action_subscribe_to_device_update()
    ensures
        "subscribe_to_device_update"@.len() == 26,
        "subscribe_to_device_update"@[0] == 's',
        "subscribe_to_device_update"@[1] == 'u',
        "subscribe_to_device_update"@[2] == 'b',
        "subscribe_to_device_update"@[3] == 's',
        "subscribe_to_device_update"@[4] == 'c',
        "subscribe_to_device_update"@[5] == 'r',
        "subscribe_to_device_update"@[6] == 'i',
        "subscribe_to_device_update"@[7] == 'b',
        "subscribe_to_device_update"@[8] == 'e',
        "subscribe_to_device_update"@[9] == '_',
        "subscribe_to_device_update"@[10] == 't',
        "subscribe_to_device_update"@[11] == 'o',
        "subscribe_to_device_update"@[12] == '_',
        "subscribe_to_device_update"@[13] == 'd',
        "subscribe_to_device_update"@[14] == 'e',
        "subscribe_to_device_update"@[15] == 'v',
        "subscribe_to_device_update"@[16] == 'i',
        "subscribe_to_device_update"@[17] == 'c',
        "subscribe_to_device_update"@[18] == 'e',
        "subscribe_to_device_update"@[19] == '_',
        "subscribe_to_device_update"@[20] == 'u',
        "subscribe_to_device_update"@[21] == 'p',
        "subscribe_to_device_update"@[22] == 'd',
        "subscribe_to_device_update"@[23] == 'a',
        "subscribe_to_device_update"@[24] == 't',
        "subscribe_to_device_update"@[25] == 'e',
{
    reveal_strlit("subscribe_to_device_update");
}

proof fn lemma_action_subscribe_to_devices_update()
    ensures
        "subscribe_to_devices_update"@.len() == 27,
        "subscribe_to_devices_update"@[0] == 's',
        "subscribe_to_devices_update"@[1] == 'u',
        "subscribe_to_devices_update"@[2] == 'b',
        "subscribe_to_devices_update"@[3] == 's',
        "subscribe_to_devices_update"@[4] == 'c',
        "subscribe_to_devices_update"@[5] == 'r',
        "subscribe_to_devices_update"@[6] == 'i',
        "subscribe_to_devices_update"@[7] == 'b',
        "subscribe_to_devices_update"@[8] == 'e',
        "subscribe_to_devices_update"@[9] == '_',
        "subscribe_to_devices_update"@[10] == 't',
        "subscribe_to_devices_update"@[11] == 'o',
        "subscribe_to_devices_update"@[12] == '_',
        "subscribe_to_devices_update"@[13] == 'd',
        "subscribe_to_devices_update"@[14] == 'e',
        "subscribe_to_devices_update"@[15] == 'v',
        "subscribe_to_devices_update"@[16] == 'i',
        "subscribe_to_devices_update"@[17] == 'c',
        "subscribe_to_devices_update"@[18] == 'e',
        "subscribe_to_devices_update"@[19] == 's',
        "subscribe_to_devices_update"@[20] == '_',
        "subscribe_to_devices_update"@[21] == 'u',
        "subscribe_to_devices_update"@[22] == 'p',
        "subscribe_to_devices_update"@[23] == 'd',
        "subscribe_to_devices_update"@[24] == 'a',
        "subscribe_to_devices_update"@[25] == 't',
        "subscribe_to_devices_update"@[26] == 'e',
{
    reveal_strlit("subscribe_to_devices_update");
}

proof fn lemma_action_subscribe_to_device_records_update()
    ensures
        "subscribe_to_device_records_update"@.len() == 34,
        "subscribe_to_device_records_update"@[0] == 's',
        "subscribe_to_device_records_update"@[1] == 'u',
        "subscribe_to_device_records_update"@[2] == 'b',
        "subscribe_to_device_records_update"@[3] == 's',
        "subscribe_to_device_records_update"@[4] == 'c',
        "subscribe_to_device_records_update"@[5] == 'r',
        "subscribe_to_device_records_update"@[6] == 'i',
        "subscribe_to_device_records_update"@[7] == 'b',
        "subscribe_to_device_records_update"@[8] == 'e',
        "subscribe_to_device_records_update"@[9] == '_',
        "subscribe_to_device_records_update"@[10] == 't',
        "subscribe_to_device_records_update"@[11] == 'o',
        "subscribe_to_device_records_update"@[12] == '_',
        "subscribe_to_device_records_update"@[13] == 'd',
        "subscribe_to_device_records_update"@[14] == 'e',
        "subscribe_to_device_records_update"@[15] == 'v',
        "subscribe_to_device_records_update"@[16] == 'i',
        "subscribe_to_device_records_update"@[17] == 'c',
        "subscribe_to_device_records_update"@[18] == 'e',
        "subscribe_to_device_records_update"@[19] == '_',
        "subscribe_to_device_records_update"@[20] == 'r',
        "subscribe_to_device_records_update"@[21] == 'e',
        "subscribe_to_device_records_update"@[22] == 'c',
        "subscribe_to_device_records_update"@[23] == 'o',
        "subscribe_to_device_records_update"@[24] == 'r',
        "subscribe_to_device_records_update"@[25] == 'd',
        "subscribe_to_device_records_update"@[26] == 's',
        "subscribe_to_device_records_update"@[27] == '_',
        "subscribe_to_device_records_update"@[28] == 'u',
        "subscribe_to_device_records_update"@[29] == 'p',
        "subscribe_to_device_records_update"@[30] == 'd',
        "subscribe_to_device_records_update"@[31] == 'a',
        "subscribe_to_device_records_update"@[32] == 't',
        "subscribe_to_device_records_update"@[33] == 'e',
{
    reveal_strlit("subscribe_to_device_records_update");
}

proof fn lemma_action_subscribe_to_device_records_average_update()
    ensures
        "subscribe_to_device_records_average_update"@.len() == 42,
        "subscribe_to_device_records_average_update"@[0] == 's',
        "subscribe_to_device_records_average_update"@[1] == 'u',
        "subscribe_to_device_records_average_update"@[2] == 'b',
        "subscribe_to_device_records_average_update"@[3] == 's',
        "subscribe_to_device_records_average_update"@[4] == 'c',
        "subscribe_to_device_records_average_update"@[5] == 'r',
        "subscribe_to_device_records_average_update"@[6] == 'i',
        "subscribe_to_device_records_average_update"@[7] == 'b',
        "subscribe_to_device_records_average_update"@[8] == 'e',
        "subscribe_to_device_records_average_update"@[9] == '_',
        "subscribe_to_device_records_average_update"@[10] == 't',
        "subscribe_to_device_records_average_update"@[11] == 'o',
        "subscribe_to_device_records_average_update"@[12] == '_',
        "subscribe_to_device_records_average_update"@[13] == 'd',
        "subscribe_to_device_records_average_update"@[14] == 'e',
        "subscribe_to_device_records_average_update"@[15] == 'v',
        "subscribe_to_device_records_average_update"@[16] == 'i',
        "subscribe_to_device_records_average_update"@[17] == 'c',
        "subscribe_to_device_records_average_update"@[18] == 'e',
        "subscribe_to_device_records_average_update"@[19] == '_',
        "subscribe_to_device_records_average_update"@[20] == 'r',
        "subscribe_to_device_records_average_update"@[21] == 'e',
        "subscribe_to_device_records_average_update"@[22] == 'c',
        "subscribe_to_device_records_average_update"@[23] == 'o',
        "subscribe_to_device_records_average_update"@[24] == 'r',
        "subscribe_to_device_records_average_update"@[25] == 'd',
        "subscribe_to_device_records_average_update"@[26] == 's',
        "subscribe_to_device_records_average_update"@[27] == '_',
        "subscribe_to_device_records_average_update"@[28] == 'a',
        "subscribe_to_device_records_average_update"@[29] == 'v',
        "subscribe_to_device_records_average_update"@[30] == 'e',
        "subscribe_to_device_records_average_update"@[31] == 'r',
        "subscribe_to_device_records_average_update"@[32] == 'a',
        "subscribe_to_device_records_average_update"@[33] == 'g',
        "subscribe_to_device_records_average_update"@[34] == 'e',
        "subscribe_to_device_records_average_update"@[35] == '_',
        "subscribe_to_device_records_average_update"@[36] == 'u',
        "subscribe_to_device_records_average_update"@[37] == 'p',
        "subscribe_to_device_records_average_update"@[38] == 'd',
        "subscribe_to_device_records_average_update"@[39] == 'a',
        "subscribe_to_device_records_average_update"@[40] == 't',
        "subscribe_to_device_records_average_update"@[41] == 'e',
{
    reveal_strlit("subscribe_to_device_records_average_update");
}

proof fn lemma_action_dispatch_user_update()
    ensures
        "dispatch_user_update"@.len() == 20,
        "dispatch_user_update"@[0] == 'd',
        "dispatch_user_update"@[1] == 'i',
        "dispatch_user_update"@[2] == 's',
        "dispatch_user_update"@[3] == 'p',
        "dispatch_user_update"@[4] == 'a',
        "dispatch_user_update"@[5] == 't',
        "dispatch_user_update"@[6] == 'c',
        "dispatch_user_update"@[7] == 'h',
        "dispatch_user_update"@[8] == '_',
        "dispatch_user_update"@[9] == 'u',
        "dispatch_user_update"@[10] == 's',
        "dispatch_user_update"@[11] == 'e',
        "dispatch_user_update"@[12] == 'r',
        "dispatch_user_update"@[13] == '_',
        "dispatch_user_update"@[14] == 'u',
        "dispatch_user_update"@[15] == 'p',
        "dispatch_user_update"@[16] == 'd',
        "dispatch_user_update"@[17] == 'a',
        "dispatch_user_update"@[18] == 't',
        "dispatch_user_update"@[19] == 'e',
{
    reveal_strlit("dispatch_user_update");
}

proof fn lemma_action_dispatch_user_me_update()
    ensures
        "dispatch_user_me_update"@.len() == 23,
        "dispatch_user_me_update"@[0] == 'd',
        "dispatch_user_me_update"@[1] == 'i',
        "dispatch_user_me_update"@[2] == 's',
        "dispatch_user_me_update"@[3] == 'p',
        "dispatch_user_me_update"@[4] == 'a',
        "dispatch_user_me_update"@[5] == 't',
        "dispatch_user_me_update"@[6] == 'c',
        "dispatch_user_me_update"@[7] == 'h',
        "dispatch_user_me_update"@[8] == '_',
        "dispatch_user_me_update"@[9] == 'u',
        "dispatch_user_me_update"@[10] == 's',
        "dispatch_user_me_update"@[11] == 'e',
        "dispatch_user_me_update"@[12] == 'r',
        "dispatch_user_me_update"@[13] == '_',
        "dispatch_user_me_update"@[14] == 'm',
        "dispatch_user_me_update"@[15] == 'e',
        "dispatch_user_me_update"@[16] == '_',
        "dispatch_user_me_update"@[17] == 'u',
        "dispatch_user_me_update"@[18] == 'p',
        "dispatch_user_me_update"@[19] == 'd',
        "dispatch_user_me_update"@[20] == 'a',
        "dispatch_user_me_update"@[21] == 't',
        "dispatch_user_me_update"@[22] == 'e',
{
    reveal_strlit("dispatch_user_me_update");
}

proof fn lemma_action_dispatch_greenhouse_mine_update()
    ensures
        "dispatch_greenhouse_mine_update"@.len() == 31,
        "dispatch_greenhouse_mine_update"@[0] == 'd',
        "dispatch_greenhouse_mine_update"@[1] == 'i',
        "dispatch_greenhouse_mine_update"@[2] == 's',
        "dispatch_greenhouse_mine_update"@[3] == 'p',
        "dispatch_greenhouse_mine_update"@[4] == 'a',
        "dispatch_greenhouse_mine_update"@[5] == 't',
        "dispatch_greenhouse_mine_update"@[6] == 'c',
        "dispatch_greenhouse_mine_update"@[7] == 'h',
        "dispatch_greenhouse_mine_update"@[8] == '_',
        "dispatch_greenhouse_mine_update"@[9] == 'g',
        "dispatch_greenhouse_mine_update"@[10] == 'r',
        "dispatch_greenhouse_mine_update"@[11] == 'e',
        "dispatch_greenhouse_mine_update"@[12] == 'e',
        "dispatch_greenhouse_mine_update"@[13] == 'n',
        "dispatch_greenhouse_mine_update"@[14] == 'h',
        "dispatch_greenhouse_mine_update"@[15] == 'o',
        "dispatch_greenhouse_mine_update"@[16] == 'u',
        "dispatch_greenhouse_mine_update"@[17] == 's',
        "dispatch_greenhouse_mine_update"@[18] == 'e',
        "dispatch_greenhouse_mine_update"@[19] == '_',
        "dispatch_greenhouse_mine_update"@[20] == 'm',
        "dispatch_greenhouse_mine_update"@[21] == 'i',
        "dispatch_greenhouse_mine_update"@[22] == 'n',
        "dispatch_greenhouse_mine_update"@[23] == 'e',
        "dispatch_greenhouse_mine_update"@[24] == '_',
        "dispatch_greenhouse_mine_update"@[25] == 'u',
        "dispatch_greenhouse_mine_update"@[26] == 'p',
        "dispatch_greenhouse_mine_update"@[27] == 'd',
        "dispatch_greenhouse_mine_update"@[28] == 'a',
        "dispatch_greenhouse_mine_update"@[29] == 't',
        "dispatch_greenhouse_mine_update"@[30] == 'e',
{
    reveal_strlit("dispatch_greenhouse_mine_update");
}

proof fn lemma_action_dispatch_greenhouse_mine_delete()
    ensures
        "dispatch_greenhouse_mine_delete"@.len() == 31,
        "dispatch_greenhouse_mine_delete"@[0] == 'd',
        "dispatch_greenhouse_mine_delete"@[1] == 'i',
        "dispatch_greenhouse_mine_delete"@[2] == 's',
        "dispatch_greenhouse_mine_delete"@[3] == 'p',
        "dispatch_greenhouse_mine_delete"@[4] == 'a',
        "dispatch_greenhouse_mine_delete"@[5] == 't',
        "dispatch_greenhouse_mine_delete"@[6] == 'c',
        "dispatch_greenhouse_mine_delete"@[7] == 'h',
        "dispatch_greenhouse_mine_delete"@[8] == '_',
        "dispatch_greenhouse_mine_delete"@[9] == 'g',
        "dispatch_greenhouse_mine_delete"@[10] == 'r',
        "dispatch_greenhouse_mine_delete"@[11] == 'e',
        "dispatch_greenhouse_mine_delete"@[12] == 'e',
        "dispatch_greenhouse_mine_delete"@[13] == 'n',
        "dispatch_greenhouse_mine_delete"@[14] == 'h',
        "dispatch_greenhouse_mine_delete"@[15] == 'o',
        "dispatch_greenhouse_mine_delete"@[16] == 'u',
        "dispatch_greenhouse_mine_delete"@[17] == 's',
        "dispatch_greenhouse_mine_delete"@[18] == 'e',
        "dispatch_greenhouse_mine_delete"@[19] == '_',
        "dispatch_greenhouse_mine_delete"@[20] == 'm',
        "dispatch_greenhouse_mine_delete"@[21] == 'i',
        "dispatch_greenhouse_mine_delete"@[22] == 'n',
        "dispatch_greenhouse_mine_delete"@[23] == 'e',
        "dispatch_greenhouse_mine_delete"@[24] == '_',
        "dispatch_greenhouse_mine_delete"@[25] == 'd',
        "dispatch_greenhouse_mine_delete"@[26] == 'e',
        "dispatch_greenhouse_mine_delete"@[27] == 'l',
        "dispatch_greenhouse_mine_delete"@[28] == 'e',
        "dispatch_greenhouse_mine_delete"@[29] == 't',
        "dispatch_greenhouse_mine_delete"@[30] == 'e',
{
    reveal_strlit("dispatch_greenhouse_mine_delete");
}

proof fn lemma_action_dispatch_device_update()
    ensures
        "dispatch_device_update"@.len() == 22,
        "dispatch_device_update"@[0] == 'd',
        "dispatch_device_update"@[1] == 'i',
        "dispatch_device_update"@[2] == 's',
        "dispatch_device_update"@[3] == 'p',
        "dispatch_device_update"@[4] == 'a',
        "dispatch_device_update"@[5] == 't',
        "dispatch_device_update"@[6] == 'c',
        "dispatch_device_update"@[7] == 'h',
        "dispatch_device_update"@[8] == '_',
        "dispatch_device_update"@[9] == 'd',
        "dispatch_device_update"@[10] == 'e',
        "dispatch_device_update"@[11] == 'v',
        "dispatch_device_update"@[12] == 'i',
        "dispatch_device_update"@[13] == 'c',
        "dispatch_device_update"@[14] == 'e',
        "dispatch_device_update"@[15] == '_',
        "dispatch_device_update"@[16] == 'u',
        "dispatch_device_update"@[17] == 'p',
        "dispatch_device_update"@[18] == 'd',
        "dispatch_device_update"@[19] == 'a',
        "dispatch_device_update"@[20] == 't',
        "dispatch_device_update"@[21] == 'e',
{
    reveal_strlit("dispatch_device_update");
}

proof fn lemma_action_dispatch_device_records_update()
    ensures
        "dispatch_device_records_update"@.len() == 30,
        "dispatch_device_records_update"@[0] == 'd',
        "dispatch_device_records_update"@[1] == 'i',
        "dispatch_device_records_update"@[2] == 's',
        "dispatch_device_records_update"@[3] == 'p',
        "dispatch_device_records_update"@[4] == 'a',
        "dispatch_device_records_update"@[5] == 't',
        "dispatch_device_records_update"@[6] == 'c',
        "dispatch_device_records_update"@[7] == 'h',
        "dispatch_device_records_update"@[8] == '_',
        "dispatch_device_records_update"@[9] == 'd',
        "dispatch_device_records_update"@[10] == 'e',
        "dispatch_device_records_update"@[11] == 'v',
        "dispatch_device_records_update"@[12] == 'i',
        "dispatch_device_records_update"@[13] == 'c',
        "dispatch_device_records_update"@[14] == 'e',
        "dispatch_device_records_update"@[15] == '_',
        "dispatch_device_records_update"@[16] == 'r',
        "dispatch_device_records_update"@[17] == 'e',
        "dispatch_device_records_update"@[18] == 'c',
        "dispatch_device_records_update"@[19] == 'o',
        "dispatch_device_records_update"@[20] == 'r',
        "dispatch_device_records_update"@[21] == 'd',
        "dispatch_device_records_update"@[22] == 's',
        "dispatch_device_records_update"@[23] == '_',
        "dispatch_device_records_update"@[24] == 'u',
        "dispatch_device_records_update"@[25] == 'p',
        "dispatch_device_records_update"@[26] == 'd',
        "dispatch_device_records_update"@[27] == 'a',
        "dispatch_device_records_update"@[28] == 't',
        "dispatch_device_records_update"@[29] == 'e',
{
    reveal_strlit("dispatch_device_records_update");
}

proof fn lemma_action_dispatch_device_records_average_update()
    ensures
        "dispatch_device_records_average_update"@.len() == 38,
        "dispatch_device_records_average_update"@[0] == 'd',
        "dispatch_device_records_average_update"@[1] == 'i',
        "dispatch_device_records_average_update"@[2] == 's',
        "dispatch_device_records_average_update"@[3] == 'p',
        "dispatch_device_records_average_update"@[4] == 'a',
        "dispatch_device_records_average_update"@[5] == 't',
        "dispatch_device_records_average_update"@[6] == 'c',
        "dispatch_device_records_average_update"@[7] == 'h',
        "dispatch_device_records_average_update"@[8] == '_',
        "dispatch_device_records_average_update"@[9] == 'd',
        "dispatch_device_records_average_update"@[10] == 'e',
        "dispatch_device_records_average_update"@[11] == 'v',
        "dispatch_device_records_average_update"@[12] == 'i',
        "dispatch_device_records_average_update"@[13] == 'c',
        "dispatch_device_records_average_update"@[14] == 'e',
        "dispatch_device_records_average_update"@[15] == '_',
        "dispatch_device_records_average_update"@[16] == 'r',
        "dispatch_device_records_average_update"@[17] == 'e',
        "dispatch_device_records_average_update"@[18] == 'c',
        "dispatch_device_records_average_update"@[19] == 'o',
        "dispatch_device_records_average_update"@[20] == 'r',
        "dispatch_device_records_average_update"@[21] == 'd',
        "dispatch_device_records_average_update"@[22] == 's',
        "dispatch_device_records_average_update"@[23] == '_',
        "dispatch_device_records_average_update"@[24] == 'a',
        "dispatch_device_records_average_update"@[25] == 'v',
        "dispatch_device_records_average_update"@[26] == 'e',
        "dispatch_device_records_average_update"@[27] == 'r',
        "dispatch_device_records_average_update"@[28] == 'a',
        "dispatch_device_records_average_update"@[29] == 'g',
        "dispatch_device_records_average_update"@[30] == 'e',
        "dispatch_device_records_average_update"@[31] == '_',
        "dispatch_device_records_average_update"@[32] == 'u',
        "dispatch_device_records_average_update"@[33] == 'p',
        "dispatch_device_records_average_update"@[34] == 'd',
        "dispatch_device_records_average_update"@[35] == 'a',
        "dispatch_device_records_average_update"@[36] == 't',
        "dispatch_device_records_average_update"@[37] == 'e',
{
    reveal_strlit("dispatch_device_records_average_update");
}

proof fn lemma_action_response()
    ensures
        "response"@.len() == 8,
        "response"@[0] == 'r',
        "response"@[1] == 'e',
        "response"@[2] == 's',
        "response"@[3] == 'p',
        "response"@[4] == 'o',
        "response"@[5] == 'n',
        "response"@[6] == 's',
        "response"@[7] == 'e',
{
    reveal_strlit("response");
}

proof fn lemma_action_none()
    ensures
        "none"@.len() == 4,
        "none"@[0] == 'n',
        "none"@[1] == 'o',
        "none"@[2] == 'n',
        "none"@[3] == 'e',
{
    reveal_strlit("none");
}

/// Every kind of body has a place of its own: no two are written alike.
proof fn lemma_action_numbers()
    ensures
        action_number("request_patch_user"@) == 0,
        action_number("request_post_greenhouse"@) == 1,
        action_number("request_patch_greenhouse"@) == 2,
        action_number("request_delete_greenhouse"@) == 3,
        action_number("request_patch_device"@) == 4,
        action_number("request_patch_devices_reset_names"@) == 5,
        action_number("request_patch_device_state"@) == 6,
        action_number("request_post_device_custom_data"@) == 7,
        action_number("request_post_device_request_data"@) == 8,
        action_number("request_post_device_disable"@) == 9,
        action_number("request_post_device_enable"@) == 10,
        action_number("authorize"@) == 11,
        action_number("subscribe_to_user_update"@) == 12,
        action_number("subscribe_to_user_me_updates"@) == 13,
        action_number("subscribe_to_greenhouse_update"@) == 14,
        action_number("subscribe_to_device_update"@) == 15,
        action_number("subscribe_to_devices_update"@) == 16,
        action_number("subscribe_to_device_records_update"@) == 17,
        action_number("subscribe_to_device_records_average_update"@) == 18,
        action_number("dispatch_user_update"@) == 19,
        action_number("dispatch_user_me_update"@) == 20,
        action_number("dispatch_greenhouse_mine_update"@) == 21,
        action_number("dispatch_greenhouse_mine_delete"@) == 22,
        action_number("dispatch_device_update"@) == 23,
        action_number("dispatch_device_records_update"@) == 24,
        action_number("dispatch_device_records_average_update"@) == 25,
        action_number("response"@) == 26,
        action_number("none"@) == 27,
{
    lemma_action_request_patch_user();
    lemma_action_request_post_greenhouse();
    lemma_action_request_patch_greenhouse();
    lemma_action_request_delete_greenhouse();
    lemma_action_request_patch_device();
    lemma_action_request_patch_devices_reset_names();
    lemma_action_request_patch_device_state();
    lemma_action_request_post_device_custom_data();
    lemma_action_request_post_device_request_data();
    lemma_action_request_post_device_disable();
    lemma_action_request_post_device_enable();
    lemma_action_authorize();
    lemma_action_subscribe_to_user_update();
    lemma_action_subscribe_to_user_me_updates();
    lemma_action_subscribe_to_greenhouse_update();
    lemma_action_subscribe_to_device_update();
    lemma_action_subscribe_to_devices_update();
    lemma_action_subscribe_to_device_records_update();
    lemma_action_subscribe_to_device_records_average_update();
    lemma_action_dispatch_user_update();
    lemma_action_dispatch_user_me_update();
    lemma_action_dispatch_greenhouse_mine_update();
    lemma_action_dispatch_greenhouse_mine_delete();
    lemma_action_dispatch_device_update();
    lemma_action_dispatch_device_records_update();
    lemma_action_dispatch_device_records_average_update();
    lemma_action_response();
    lemma_action_none();
}

/// The body that a record holds: the body of the kind that stands under
/// the action key.
pub open spec fn decoded_data(entries: Seq<(Field, TermView)>) -> Option<WebSocketMessageDataView> {
    match text_in(entries, Field::Action) {
        None => None,
        Some(action) => match action_number(action) {
            0 => decoded_request_patch_user(entries),
            1 => decoded_request_post_greenhouse(entries),
            2 => decoded_request_patch_greenhouse(entries),
            3 => decoded_request_delete_greenhouse(entries),
            4 => decoded_request_patch_device(entries),
            5 => decoded_request_patch_devices_reset_names(entries),
            6 => decoded_request_patch_device_state(entries),
            7 => decoded_request_post_device_custom_data(entries),
            8 => decoded_request_post_device_request_data(entries),
            9 => decoded_request_post_device_disable(entries),
            10 => decoded_request_post_device_enable(entries),
            11 => decoded_authorize(entries),
            12 => decoded_subscribe_to_user_update(entries),
            13 => decoded_subscribe_to_user_me_updates(entries),
            14 => decoded_subscribe_to_greenhouse_update(entries),
            15 => decoded_subscribe_to_device_update(entries),
            16 => decoded_subscribe_to_devices_update(entries),
            17 => decoded_subscribe_to_device_records_update(entries),
            18 => decoded_subscribe_to_device_records_average_update(entries),
            19 => decoded_dispatch_user_update(entries),
            20 => decoded_dispatch_user_me_update(entries),
            21 => decoded_dispatch_greenhouse_mine_update(entries),
            22 => decoded_dispatch_greenhouse_mine_delete(entries),
            23 => decoded_dispatch_device_update(entries),
            24 => decoded_dispatch_device_records_update(entries),
            25 => decoded_dispatch_device_records_average_update(entries),
            26 => decoded_response(entries),
            27 => Some(WebSocketMessageDataView::Empty),
            _ => None,
        },
    }
}

/// Reads a body from a record.
pub fn decode_data(entries: &Vec<(Field, Term)>) -> (r: Option<WebSocketMessageData>)
    ensures
        data_view(r) == decoded_data(entry_views(entries@)),
{
    let action = match read_text(entries, Field::Action) {
        Some(action) => action,
        None => {
            return None;
        },
    };
    match number_of_action(action.as_str()) {
        0 => decode_request_patch_user(entries),
        1 => decode_request_post_greenhouse(entries),
        2 => decode_request_patch_greenhouse(entries),
        3 => decode_request_delete_greenhouse(entries),
        4 => decode_request_patch_device(entries),
        5 => decode_request_patch_devices_reset_names(entries),
        6 => decode_request_patch_device_state(entries),
        7 => decode_request_post_device_custom_data(entries),
        8 => decode_request_post_device_request_data(entries),
        9 => decode_request_post_device_disable(entries),
        10 => decode_request_post_device_enable(entries),
        11 => decode_authorize(entries),
        12 => decode_subscribe_to_user_update(entries),
        13 => decode_subscribe_to_user_me_updates(entries),
        14 => decode_subscribe_to_greenhouse_update(entries),
        15 => decode_subscribe_to_device_update(entries),
        16 => decode_subscribe_to_devices_update(entries),
        17 => decode_subscribe_to_device_records_update(entries),
        18 => decode_subscribe_to_device_records_average_update(entries),
        19 => decode_dispatch_user_update(entries),
        20 => decode_dispatch_user_me_update(entries),
        21 => decode_dispatch_greenhouse_mine_update(entries),
        22 => decode_dispatch_greenhouse_mine_delete(entries),
        23 => decode_dispatch_device_update(entries),
        24 => decode_dispatch_device_records_update(entries),
        25 => decode_dispatch_device_records_average_update(entries),
        26 => decode_response(entries),
        27 => Some(WebSocketMessageData::Empty),
        _ => None,
    }
}

proof fn lemma_data_round_trip_request_patch_user(data: WebSocketMessageDataView)
    requires
        data is RequestPatchUser,
    ensures
        decoded_data(encoded_data(data)) == Some(data),
{
    reveal_with_fuel(lookup_from, 12);
    lemma_action_numbers();
    let entries = encoded_data(data);
    assert(text_in(entries, Field::Action) == Some("request_patch_user"@));
    assert(lookup(entries, Field::Email) == Some(TermView::Text(data->RequestPatchUser_email)));
    assert(lookup(entries, Field::Username) == Some(TermView::Text(data->RequestPatchUser_username)));
    assert(lookup(entries, Field::Locale) == Some(TermView::Text(data->RequestPatchUser_locale)));
    assert(lookup(entries, Field::Theme) == Some(TermView::Int(data->RequestPatchUser_theme.number() as i128)));
    assert(lookup(entries, Field::NewPassword) == Some(text_or_nil(data->RequestPatchUser_new_password)));
    assert(lookup(entries, Field::CurrentPassword) == Some(text_or_nil(data->RequestPatchUser_current_password)));
    assert(decoded_request_patch_user(entries) == Some(data));
}

proof fn lemma_data_round_trip_request_post_greenhouse(data: WebSocketMessageDataView)
    requires
        data is RequestPostGreenhouse,
    ensures
        decoded_data(encoded_data(data)) == Some(data),
{
    reveal_with_fuel(lookup_from, 12);
    lemma_action_numbers();
    let entries = encoded_data(data);
    assert(text_in(entries, Field::Action) == Some("request_post_greenhouse"@));
    assert(lookup(entries, Field::Name) == Some(TermView::Text(data->RequestPostGreenhouse_name)));
    assert(lookup(entries, Field::Token) == Some(TermView::Text(data->RequestPostGreenhouse_token)));
    assert(decoded_request_post_greenhouse(entries) == Some(data));
}

proof fn lemma_data_round_trip_request_patch_greenhouse(data: WebSocketMessageDataView)
    requires
        data is RequestPatchGreenhouse,
    ensures
        decoded_data(encoded_data(data)) == Some(data),
{
    reveal_with_fuel(lookup_from, 12);
    lemma_action_numbers();
    let entries = encoded_data(data);
    assert(text_in(entries, Field::Action) == Some("request_patch_greenhouse"@));
    assert(lookup(entries, Field::Id) == Some(TermView::Int(data->RequestPatchGreenhouse_id as i128)));
    assert(lookup(entries, Field::Name) == Some(TermView::Text(data->RequestPatchGreenhouse_name)));
    assert(lookup(entries, Field::Token) == Some(TermView::Text(data->RequestPatchGreenhouse_token)));
    assert(lookup(entries, Field::MaximumAverageHumidity) == Some(double_or_nil(data->RequestPatchGreenhouse_maximum_average_humidity)));
    assert(lookup(entries, Field::MinimumAverageTemperature) == Some(double_or_nil(data->RequestPatchGreenhouse_minimum_average_temperature)));
    assert(decoded_request_patch_greenhouse(entries) == Some(data));
}

proof fn lemma_data_round_trip_request_delete_greenhouse(data: WebSocketMessageDataView)
    requires
        data is RequestDeleteGreenhouse,
    ensures
        decoded_data(encoded_data(data)) == Some(data),
{
    reveal_with_fuel(lookup_from, 12);
    lemma_action_numbers();
    let entries = encoded_data(data);
    assert(text_in(entries, Field::Action) == Some("request_delete_greenhouse"@));
    assert(lookup(entries, Field::Id) == Some(TermView::Int(data->RequestDeleteGreenhouse_id as i128)));
    assert(lookup(entries, Field::CurrentPassword) == Some(TermView::Text(data->RequestDeleteGreenhouse_current_password)));
    assert(decoded_request_delete_greenhouse(entries) == Some(data));
}

proof fn lemma_data_round_trip_request_patch_device(data: WebSocketMessageDataView)
    requires
        data is RequestPatchDevice,
    ensures
        decoded_data(encoded_data(data)) == Some(data),
{
    reveal_with_fuel(lookup_from, 12);
    lemma_action_numbers();
    let entries = encoded_data(data);
    assert(text_in(entries, Field::Action) == Some("request_patch_device"@));
    assert(lookup(entries, Field::Id) == Some(TermView::Int(data->RequestPatchDevice_id as i128)));
    assert(lookup(entries, Field::GreenhouseId) == Some(TermView::Int(data->RequestPatchDevice_greenhouse_id as i128)));
    assert(lookup(entries, Field::Name) == Some(text_or_nil(data->RequestPatchDevice_name)));
    assert(lookup(entries, Field::MaximumDataValue) == Some(double_or_nil(data->RequestPatchDevice_maximum_data_value)));
    assert(decoded_request_patch_device(entries) == Some(data));
}

proof fn lemma_data_round_trip_request_patch_devices_reset_names(data: WebSocketMessageDataView)
    requires
        data is RequestPatchDevicesResetNames,
    ensures
        decoded_data(encoded_data(data)) == Some(data),
{
    reveal_with_fuel(lookup_from, 12);
    lemma_action_numbers();
    let entries = encoded_data(data);
    assert(text_in(entries, Field::Action) == Some("request_patch_devices_reset_names"@));
    assert(lookup(entries, Field::GreenhouseId) == Some(TermView::Int(data->RequestPatchDevicesResetNames_greenhouse_id as i128)));
    assert(decoded_request_patch_devices_reset_names(entries) == Some(data));
}

proof fn lemma_data_round_trip_request_patch_device_state(data: WebSocketMessageDataView)
    requires
        data is RequestPatchDeviceState,
    ensures
        decoded_data(encoded_data(data)) == Some(data),
{
    reveal_with_fuel(lookup_from, 12);
    lemma_action_numbers();
    let entries = encoded_data(data);
    assert(text_in(entries, Field::Action) == Some("request_patch_device_state"@));
    assert(lookup(entries, Field::Id) == Some(TermView::Int(data->RequestPatchDeviceState_id as i128)));
    assert(lookup(entries, Field::GreenhouseId) == Some(TermView::Int(data->RequestPatchDeviceState_greenhouse_id as i128)));
    assert(lookup(entries, Field::State) == Some(TermView::Int(data->RequestPatchDeviceState_state as i128)));
    assert(decoded_request_patch_device_state(entries) == Some(data));
}

proof fn lemma_data_round_trip_request_post_device_custom_data(data: WebSocketMessageDataView)
    requires
        data is RequestPostDeviceCustomData,
    ensures
        decoded_data(encoded_data(data)) == Some(data),
{
    reveal_with_fuel(lookup_from, 12);
    lemma_action_numbers();
    let entries = encoded_data(data);
    assert(text_in(entries, Field::Action) == Some("request_post_device_custom_data"@));
    assert(lookup(entries, Field::Id) == Some(TermView::Int(data->RequestPostDeviceCustomData_id as i128)));
    assert(lookup(entries, Field::GreenhouseId) == Some(TermView::Int(data->RequestPostDeviceCustomData_greenhouse_id as i128)));
    assert(lookup(entries, Field::Data) == Some(TermView::Float(data->RequestPostDeviceCustomData_data)));
    assert(lookup(entries, Field::Time) == Some(TermView::Int(data->RequestPostDeviceCustomData_time as i128)));
    assert(decoded_request_post_device_custom_data(entries) == Some(data));
}

proof fn lemma_data_round_trip_request_post_device_request_data(data: WebSocketMessageDataView)
    requires
        data is RequestPostDeviceRequestData,
    ensures
        decoded_data(encoded_data(data)) == Some(data),
{
    reveal_with_fuel(lookup_from, 12);
    lemma_action_numbers();
    let entries = encoded_data(data);
    assert(text_in(entries, Field::Action) == Some("request_post_device_request_data"@));
    assert(lookup(entries, Field::Id) == Some(i64_or_nil(data->RequestPostDeviceRequestData_id)));
    assert(lookup(entries, Field::GreenhouseId) == Some(TermView::Int(data->RequestPostDeviceRequestData_greenhouse_id as i128)));
    assert(decoded_request_post_device_request_data(entries) == Some(data));
}

proof fn lemma_data_round_trip_request_post_device_disable(data: WebSocketMessageDataView)
    requires
        data is RequestPostDeviceDisable,
    ensures
        decoded_data(encoded_data(data)) == Some(data),
{
    reveal_with_fuel(lookup_from, 12);
    lemma_action_numbers();
    let entries = encoded_data(data);
    assert(text_in(entries, Field::Action) == Some("request_post_device_disable"@));
    assert(lookup(entries, Field::Id) == Some(TermView::Int(data->RequestPostDeviceDisable_id as i128)));
    assert(lookup(entries, Field::GreenhouseId) == Some(TermView::Int(data->RequestPostDeviceDisable_greenhouse_id as i128)));
    assert(decoded_request_post_device_disable(entries) == Some(data));
}

proof fn lemma_data_round_trip_request_post_device_enable(data: WebSocketMessageDataView)
    requires
        data is RequestPostDeviceEnable,
    ensures
        decoded_data(encoded_data(data)) == Some(data),
{
    reveal_with_fuel(lookup_from, 12);
    lemma_action_numbers();
    let entries = encoded_data(data);
    assert(text_in(entries, Field::Action) == Some("request_post_device_enable"@));
    assert(lookup(entries, Field::Id) == Some(TermView::Int(data->RequestPostDeviceEnable_id as i128)));
    assert(lookup(entries, Field::GreenhouseId) == Some(TermView::Int(data->RequestPostDeviceEnable_greenhouse_id as i128)));
    assert(decoded_request_post_device_enable(entries) == Some(data));
}

proof fn lemma_data_round_trip_authorize(data: WebSocketMessageDataView)
    requires
        data is Authorize,
    ensures
        decoded_data(encoded_data(data)) == Some(data),
{
    reveal_with_fuel(lookup_from, 12);
    lemma_action_numbers();
    let entries = encoded_data(data);
    assert(text_in(entries, Field::Action) == Some("authorize"@));
    assert(lookup(entries, Field::Token) == Some(TermView::Text(data->Authorize_token)));
    assert(decoded_authorize(entries) == Some(data));
}

proof fn lemma_data_round_trip_subscribe_to_user_update(data: WebSocketMessageDataView)
    requires
        data is SubscribeToUserUpdate,
    ensures
        decoded_data(encoded_data(data)) == Some(data),
{
    reveal_with_fuel(lookup_from, 12);
    lemma_action_numbers();
    let entries = encoded_data(data);
    assert(text_in(entries, Field::Action) == Some("subscribe_to_user_update"@));
    assert(lookup(entries, Field::Id) == Some(TermView::Int(data->SubscribeToUserUpdate_id as i128)));
    assert(decoded_subscribe_to_user_update(entries) == Some(data));
}

proof fn lemma_data_round_trip_subscribe_to_user_me_updates(data: WebSocketMessageDataView)
    requires
        data is SubscribeToUserMeUpdates,
    ensures
        decoded_data(encoded_data(data)) == Some(data),
{
    reveal_with_fuel(lookup_from, 12);
    lemma_action_numbers();
    let entries = encoded_data(data);
    assert(text_in(entries, Field::Action) == Some("subscribe_to_user_me_updates"@));
    assert(decoded_subscribe_to_user_me_updates(entries) == Some(data));
}

proof fn lemma_data_round_trip_subscribe_to_greenhouse_update(data: WebSocketMessageDataView)
    requires
        data is SubscribeToGreenhouseUpdate,
    ensures
        decoded_data(encoded_data(data)) == Some(data),
{
    reveal_with_fuel(lookup_from, 12);
    lemma_action_numbers();
    let entries = encoded_data(data);
    assert(text_in(entries, Field::Action) == Some("subscribe_to_greenhouse_update"@));
    assert(lookup(entries, Field::Id) == Some(TermView::Int(data->SubscribeToGreenhouseUpdate_id as i128)));
    assert(decoded_subscribe_to_greenhouse_update(entries) == Some(data));
}

proof fn lemma_data_round_trip_subscribe_to_device_update(data: WebSocketMessageDataView)
    requires
        data is SubscribeToDeviceUpdate,
    ensures
        decoded_data(encoded_data(data)) == Some(data),
{
    reveal_with_fuel(lookup_from, 12);
    lemma_action_numbers();
    let entries = encoded_data(data);
    assert(text_in(entries, Field::Action) == Some("subscribe_to_device_update"@));
    assert(lookup(entries, Field::Id) == Some(TermView::Int(data->SubscribeToDeviceUpdate_id as i128)));
    assert(lookup(entries, Field::GreenhouseId) == Some(TermView::Int(data->SubscribeToDeviceUpdate_greenhouse_id as i128)));
    assert(decoded_subscribe_to_device_update(entries) == Some(data));
}

proof fn lemma_data_round_trip_subscribe_to_devices_update(data: WebSocketMessageDataView)
    requires
        data is SubscribeToDevicesUpdate,
    ensures
        decoded_data(encoded_data(data)) == Some(data),
{
    reveal_with_fuel(lookup_from, 12);
    lemma_action_numbers();
    let entries = encoded_data(data);
    assert(text_in(entries, Field::Action) == Some("subscribe_to_devices_update"@));
    assert(lookup(entries, Field::GreenhouseId) == Some(TermView::Int(data->SubscribeToDevicesUpdate_greenhouse_id as i128)));
    assert(decoded_subscribe_to_devices_update(entries) == Some(data));
}

proof fn lemma_data_round_trip_subscribe_to_device_records_update(data: WebSocketMessageDataView)
    requires
        data is SubscribeToDeviceRecordsUpdate,
    ensures
        decoded_data(encoded_data(data)) == Some(data),
{
    reveal_with_fuel(lookup_from, 12);
    lemma_action_numbers();
    let entries = encoded_data(data);
    assert(text_in(entries, Field::Action) == Some("subscribe_to_device_records_update"@));
    assert(lookup(entries, Field::DeviceId) == Some(TermView::Int(data->SubscribeToDeviceRecordsUpdate_device_id as i128)));
    assert(lookup(entries, Field::GreenhouseId) == Some(TermView::Int(data->SubscribeToDeviceRecordsUpdate_greenhouse_id as i128)));
    assert(decoded_subscribe_to_device_records_update(entries) == Some(data));
}

proof fn lemma_data_round_trip_subscribe_to_device_records_average_update(data: WebSocketMessageDataView)
    requires
        data is SubscribeToDeviceRecordsAverageUpdate,
    ensures
        decoded_data(encoded_data(data)) == Some(data),
{
    reveal_with_fuel(lookup_from, 12);
    lemma_action_numbers();
    let entries = encoded_data(data);
    assert(text_in(entries, Field::Action) == Some("subscribe_to_device_records_average_update"@));
    assert(lookup(entries, Field::DeviceId) == Some(TermView::Int(data->SubscribeToDeviceRecordsAverageUpdate_device_id as i128)));
    assert(lookup(entries, Field::GreenhouseId) == Some(TermView::Int(data->SubscribeToDeviceRecordsAverageUpdate_greenhouse_id as i128)));
    assert(lookup(entries, Field::Range) == Some(TermView::Int(data->SubscribeToDeviceRecordsAverageUpdate_range.number() as i128)));
    assert(decoded_subscribe_to_device_records_average_update(entries) == Some(data));
}

proof fn lemma_data_round_trip_dispatch_user_update(data: WebSocketMessageDataView)
    requires
        data is DispatchUserUpdate,
    ensures
        decoded_data(encoded_data(data)) == Some(data),
{
    reveal_with_fuel(lookup_from, 12);
    lemma_action_numbers();
    let entries = encoded_data(data);
    assert(text_in(entries, Field::Action) == Some("dispatch_user_update"@));
    assert(lookup(entries, Field::Id) == Some(TermView::Int(data->DispatchUserUpdate_id as i128)));
    assert(lookup(entries, Field::Username) == Some(TermView::Text(data->DispatchUserUpdate_username)));
    assert(lookup(entries, Field::CreatedAt) == Some(TermView::Int(data->DispatchUserUpdate_created_at as i128)));
    assert(lookup(entries, Field::Greenhouses) == Some(TermView::Int(data->DispatchUserUpdate_greenhouses as i128)));
    assert(decoded_dispatch_user_update(entries) == Some(data));
}

proof fn lemma_data_round_trip_dispatch_user_me_update(data: WebSocketMessageDataView)
    requires
        data is DispatchUserMeUpdate,
    ensures
        decoded_data(encoded_data(data)) == Some(data),
{
    reveal_with_fuel(lookup_from, 12);
    lemma_action_numbers();
    let entries = encoded_data(data);
    assert(text_in(entries, Field::Action) == Some("dispatch_user_me_update"@));
    assert(lookup(entries, Field::Id) == Some(TermView::Int(data->DispatchUserMeUpdate_id as i128)));
    assert(lookup(entries, Field::Email) == Some(TermView::Text(data->DispatchUserMeUpdate_email)));
    assert(lookup(entries, Field::Username) == Some(TermView::Text(data->DispatchUserMeUpdate_username)));
    assert(lookup(entries, Field::CreatedAt) == Some(TermView::Int(data->DispatchUserMeUpdate_created_at as i128)));
    assert(lookup(entries, Field::Locale) == Some(TermView::Text(data->DispatchUserMeUpdate_locale)));
    assert(lookup(entries, Field::Theme) == Some(TermView::Int(data->DispatchUserMeUpdate_theme.number() as i128)));
    assert(lookup(entries, Field::Greenhouses) == Some(TermView::Int(data->DispatchUserMeUpdate_greenhouses as i128)));
    assert(decoded_dispatch_user_me_update(entries) == Some(data));
}

proof fn lemma_data_round_trip_dispatch_greenhouse_mine_update(data: WebSocketMessageDataView)
    requires
        data is DispatchGreenhouseMineUpdate,
    ensures
        decoded_data(encoded_data(data)) == Some(data),
{
    reveal_with_fuel(lookup_from, 12);
    lemma_action_numbers();
    let entries = encoded_data(data);
    assert(text_in(entries, Field::Action) == Some("dispatch_greenhouse_mine_update"@));
    assert(lookup(entries, Field::Id) == Some(TermView::Int(data->DispatchGreenhouseMineUpdate_id as i128)));
    assert(lookup(entries, Field::Name) == Some(TermView::Text(data->DispatchGreenhouseMineUpdate_name)));
    assert(lookup(entries, Field::Token) == Some(TermView::Text(data->DispatchGreenhouseMineUpdate_token)));
    assert(lookup(entries, Field::OwnerId) == Some(TermView::Int(data->DispatchGreenhouseMineUpdate_owner_id as i128)));
    assert(lookup(entries, Field::CreatedAt) == Some(TermView::Int(data->DispatchGreenhouseMineUpdate_created_at as i128)));
    assert(lookup(entries, Field::MaximumAverageHumidity) == Some(double_or_nil(data->DispatchGreenhouseMineUpdate_maximum_average_humidity)));
    assert(lookup(entries, Field::MinimumAverageTemperature) == Some(double_or_nil(data->DispatchGreenhouseMineUpdate_minimum_average_temperature)));
    assert(decoded_dispatch_greenhouse_mine_update(entries) == Some(data));
}

proof fn lemma_data_round_trip_dispatch_greenhouse_mine_delete(data: WebSocketMessageDataView)
    requires
        data is DispatchGreenhouseMineDelete,
    ensures
        decoded_data(encoded_data(data)) == Some(data),
{
    reveal_with_fuel(lookup_from, 12);
    lemma_action_numbers();
    let entries = encoded_data(data);
    assert(text_in(entries, Field::Action) == Some("dispatch_greenhouse_mine_delete"@));
    assert(lookup(entries, Field::Id) == Some(TermView::Int(data->DispatchGreenhouseMineDelete_id as i128)));
    assert(decoded_dispatch_greenhouse_mine_delete(entries) == Some(data));
}

proof fn lemma_data_round_trip_dispatch_device_update(data: WebSocketMessageDataView)
    requires
        data is DispatchDeviceUpdate,
    ensures
        decoded_data(encoded_data(data)) == Some(data),
{
    reveal_with_fuel(lookup_from, 12);
    lemma_action_numbers();
    let entries = encoded_data(data);
    assert(text_in(entries, Field::Action) == Some("dispatch_device_update"@));
    assert(lookup(entries, Field::Id) == Some(TermView::Int(data->DispatchDeviceUpdate_id as i128)));
    assert(lookup(entries, Field::ExternalId) == Some(i16_or_nil(data->DispatchDeviceUpdate_external_id)));
    assert(lookup(entries, Field::Name) == Some(text_or_nil(data->DispatchDeviceUpdate_name)));
    assert(lookup(entries, Field::Status) == Some(TermView::Int(data->DispatchDeviceUpdate_status.number() as i128)));
    assert(lookup(entries, Field::Kind) == Some(TermView::Int(data->DispatchDeviceUpdate_kind.number() as i128)));
    assert(lookup(entries, Field::GreenhouseId) == Some(TermView::Int(data->DispatchDeviceUpdate_greenhouse_id as i128)));
    assert(lookup(entries, Field::CreatedAt) == Some(TermView::Int(data->DispatchDeviceUpdate_created_at as i128)));
    assert(lookup(entries, Field::MaximumDataValue) == Some(double_or_nil(data->DispatchDeviceUpdate_maximum_data_value)));
    assert(lookup(entries, Field::LatestData) == Some(double_or_nil(data->DispatchDeviceUpdate_latest_data)));
    assert(decoded_dispatch_device_update(entries) == Some(data));
}

proof fn lemma_data_round_trip_dispatch_device_records_update(data: WebSocketMessageDataView)
    requires
        data is DispatchDeviceRecordsUpdate,
    ensures
        decoded_data(encoded_data(data)) == Some(data),
{
    reveal_with_fuel(lookup_from, 12);
    lemma_action_numbers();
    let entries = encoded_data(data);
    assert(text_in(entries, Field::Action) == Some("dispatch_device_records_update"@));
    assert(lookup(entries, Field::DeviceId) == Some(TermView::Int(data->DispatchDeviceRecordsUpdate_device_id as i128)));
    assert(lookup(entries, Field::Quantity) == Some(TermView::Int(data->DispatchDeviceRecordsUpdate_quantity as i128)));
    assert(decoded_dispatch_device_records_update(entries) == Some(data));
}

proof fn lemma_data_round_trip_dispatch_device_records_average_update(data: WebSocketMessageDataView)
    requires
        data is DispatchDeviceRecordsAverageUpdate,
    ensures
        decoded_data(encoded_data(data)) == Some(data),
{
    reveal_with_fuel(lookup_from, 12);
    lemma_action_numbers();
    let entries = encoded_data(data);
    assert(text_in(entries, Field::Action) == Some("dispatch_device_records_average_update"@));
    assert(lookup(entries, Field::DeviceId) == Some(TermView::Int(data->DispatchDeviceRecordsAverageUpdate_device_id as i128)));
    assert(lookup(entries, Field::Range) == Some(TermView::Int(data->DispatchDeviceRecordsAverageUpdate_range.number() as i128)));
    assert(lookup(entries, Field::Records) == Some(encoded_averages(data->DispatchDeviceRecordsAverageUpdate_records)));
    lemma_averages_round_trip(data->DispatchDeviceRecordsAverageUpdate_records);
    assert(decoded_dispatch_device_records_average_update(entries) == Some(data));
}

proof fn lemma_data_round_trip_response(data: WebSocketMessageDataView)
    requires
        data is Response,
    ensures
        decoded_data(encoded_data(data)) == Some(data),
{
    reveal_with_fuel(lookup_from, 12);
    lemma_action_numbers();
    let entries = encoded_data(data);
    assert(text_in(entries, Field::Action) == Some("response"@));
    assert(lookup(entries, Field::Code) == Some(TermView::Int(data->Response_code as i128)));
    assert(lookup(entries, Field::Message) == Some(TermView::Text(data->Response_message)));
    assert(decoded_response(entries) == Some(data));
}

proof fn lemma_data_round_trip_empty(data: WebSocketMessageDataView)
    requires
        data is Empty,
    ensures
        decoded_data(encoded_data(data)) == Some(data),
{
    reveal_with_fuel(lookup_from, 12);
    lemma_action_numbers();
    let entries = encoded_data(data);
    assert(text_in(entries, Field::Action) == Some("none"@));
}

/// A body that is written and read again is the body it was.
pub proof fn lemma_data_round_trip(data: WebSocketMessageDataView)
    ensures
        decoded_data(encoded_data(data)) == Some(data),
{
    match data {
        WebSocketMessageDataView::RequestPatchUser { .. } => lemma_data_round_trip_request_patch_user(data),
        WebSocketMessageDataView::RequestPostGreenhouse { .. } => lemma_data_round_trip_request_post_greenhouse(data),
        WebSocketMessageDataView::RequestPatchGreenhouse { .. } => lemma_data_round_trip_request_patch_greenhouse(data),
        WebSocketMessageDataView::RequestDeleteGreenhouse { .. } => lemma_data_round_trip_request_delete_greenhouse(data),
        WebSocketMessageDataView::RequestPatchDevice { .. } => lemma_data_round_trip_request_patch_device(data),
        WebSocketMessageDataView::RequestPatchDevicesResetNames { .. } => lemma_data_round_trip_request_patch_devices_reset_names(data),
        WebSocketMessageDataView::RequestPatchDeviceState { .. } => lemma_data_round_trip_request_patch_device_state(data),
        WebSocketMessageDataView::RequestPostDeviceCustomData { .. } => lemma_data_round_trip_request_post_device_custom_data(data),
        WebSocketMessageDataView::RequestPostDeviceRequestData { .. } => lemma_data_round_trip_request_post_device_request_data(data),
        WebSocketMessageDataView::RequestPostDeviceDisable { .. } => lemma_data_round_trip_request_post_device_disable(data),
        WebSocketMessageDataView::RequestPostDeviceEnable { .. } => lemma_data_round_trip_request_post_device_enable(data),
        WebSocketMessageDataView::Authorize { .. } => lemma_data_round_trip_authorize(data),
        WebSocketMessageDataView::SubscribeToUserUpdate { .. } => lemma_data_round_trip_subscribe_to_user_update(data),
        WebSocketMessageDataView::SubscribeToUserMeUpdates { .. } => lemma_data_round_trip_subscribe_to_user_me_updates(data),
        WebSocketMessageDataView::SubscribeToGreenhouseUpdate { .. } => lemma_data_round_trip_subscribe_to_greenhouse_update(data),
        WebSocketMessageDataView::SubscribeToDeviceUpdate { .. } => lemma_data_round_trip_subscribe_to_device_update(data),
        WebSocketMessageDataView::SubscribeToDevicesUpdate { .. } => lemma_data_round_trip_subscribe_to_devices_update(data),
        WebSocketMessageDataView::SubscribeToDeviceRecordsUpdate { .. } => lemma_data_round_trip_subscribe_to_device_records_update(data),
        WebSocketMessageDataView::SubscribeToDeviceRecordsAverageUpdate { .. } => lemma_data_round_trip_subscribe_to_device_records_average_update(data),
        WebSocketMessageDataView::DispatchUserUpdate { .. } => lemma_data_round_trip_dispatch_user_update(data),
        WebSocketMessageDataView::DispatchUserMeUpdate { .. } => lemma_data_round_trip_dispatch_user_me_update(data),
        WebSocketMessageDataView::DispatchGreenhouseMineUpdate { .. } => lemma_data_round_trip_dispatch_greenhouse_mine_update(data),
        WebSocketMessageDataView::DispatchGreenhouseMineDelete { .. } => lemma_data_round_trip_dispatch_greenhouse_mine_delete(data),
        WebSocketMessageDataView::DispatchDeviceUpdate { .. } => lemma_data_round_trip_dispatch_device_update(data),
        WebSocketMessageDataView::DispatchDeviceRecordsUpdate { .. } => lemma_data_round_trip_dispatch_device_records_update(data),
        WebSocketMessageDataView::DispatchDeviceRecordsAverageUpdate { .. } => lemma_data_round_trip_dispatch_device_records_average_update(data),
        WebSocketMessageDataView::Response { .. } => lemma_data_round_trip_response(data),
        WebSocketMessageDataView::Empty => lemma_data_round_trip_empty(data),
    }
}

} // verus!

verus! {

impl DispatchEvent {
    /// The name under which the event's family is written.
    pub open spec fn family_name(self) -> Seq<char> {
        match self {
            DispatchEvent::UserUpdate { .. } => "user_update"@,
            DispatchEvent::UserMeUpdate { .. } => "user_me_update"@,
            DispatchEvent::GreenhouseUpdate { .. } => "greenhouse_update"@,
            DispatchEvent::GreenhouseCreate { .. } => "greenhouse_create"@,
            DispatchEvent::GreenhouseDelete { .. } => "greenhouse_delete"@,
            DispatchEvent::DeviceUpdate { .. } => "device_update"@,
            DispatchEvent::DeviceRecordsUpdate { .. } => "device_records_update"@,
            DispatchEvent::DeviceRecordsAverageUpdate { .. } => "device_records_average_update"@,
        }
    }

    /// The event as it arrives: only the family is written, so every key
    /// has its default.
    pub open spec fn bare(self) -> DispatchEvent {
        match self {
            DispatchEvent::UserUpdate { .. } => DispatchEvent::UserUpdate { id: 0 },
            DispatchEvent::UserMeUpdate { .. } => DispatchEvent::UserMeUpdate { id: 0 },
            DispatchEvent::GreenhouseUpdate { .. } => DispatchEvent::GreenhouseUpdate { id: 0 },
            DispatchEvent::GreenhouseCreate { .. } => DispatchEvent::GreenhouseCreate {
                id: None,
                owner_id: 0,
            },
            DispatchEvent::GreenhouseDelete { .. } => DispatchEvent::GreenhouseDelete {
                id: None,
                owner_id: 0,
            },
            DispatchEvent::DeviceUpdate { .. } => DispatchEvent::DeviceUpdate { id: 0 },
            DispatchEvent::DeviceRecordsUpdate { .. } => DispatchEvent::DeviceRecordsUpdate {
                device_id: 0,
            },
            DispatchEvent::DeviceRecordsAverageUpdate { .. } =>
                DispatchEvent::DeviceRecordsAverageUpdate {
                device_id: 0,
                range: DeviceRecordsTimestampRange::Today,
            },
        }
    }

    fn family_text(&self) -> (r: &'static str)
        ensures
            r@ == self.family_name(),
    {
        match self {
            DispatchEvent::UserUpdate { .. } => "user_update",
            DispatchEvent::UserMeUpdate { .. } => "user_me_update",
            DispatchEvent::GreenhouseUpdate { .. } => "greenhouse_update",
            DispatchEvent::GreenhouseCreate { .. } => "greenhouse_create",
            DispatchEvent::GreenhouseDelete { .. } => "greenhouse_delete",
            DispatchEvent::DeviceUpdate { .. } => "device_update",
            DispatchEvent::DeviceRecordsUpdate { .. } => "device_records_update",
            DispatchEvent::DeviceRecordsAverageUpdate { .. } => "device_records_average_update",
        }
    }
}

/// The event that a family's name stands for, with every key at its
/// default.
pub open spec fn event_named(name: Seq<char>) -> Option<DispatchEvent> {
    if name == "user_update"@ {
        Some(DispatchEvent::UserUpdate { id: 0 })
    } else if name == "user_me_update"@ {
        Some(DispatchEvent::UserMeUpdate { id: 0 })
    } else if name == "greenhouse_update"@ {
        Some(DispatchEvent::GreenhouseUpdate { id: 0 })
    } else if name == "greenhouse_create"@ {
        Some(DispatchEvent::GreenhouseCreate { id: None, owner_id: 0 })
    } else if name == "greenhouse_delete"@ {
        Some(DispatchEvent::GreenhouseDelete { id: None, owner_id: 0 })
    } else if name == "device_update"@ {
        Some(DispatchEvent::DeviceUpdate { id: 0 })
    } else if name == "device_records_update"@ {
        Some(DispatchEvent::DeviceRecordsUpdate { device_id: 0 })
    } else if name == "device_records_average_update"@ {
        Some(
            DispatchEvent::DeviceRecordsAverageUpdate {
                device_id: 0,
                range: DeviceRecordsTimestampRange::Today,
            },
        )
    } else {
        None
    }
}

fn event_from_name(name: &str) -> (r: Option<DispatchEvent>)
    ensures
        r == event_named(name@),
{
    if same_text(name, "user_update") {
        Some(DispatchEvent::UserUpdate { id: 0 })
    } else if same_text(name, "user_me_update") {
        Some(DispatchEvent::UserMeUpdate { id: 0 })
    } else if same_text(name, "greenhouse_update") {
        Some(DispatchEvent::GreenhouseUpdate { id: 0 })
    } else if same_text(name, "greenhouse_create") {
        Some(DispatchEvent::GreenhouseCreate { id: None, owner_id: 0 })
    } else if same_text(name, "greenhouse_delete") {
        Some(DispatchEvent::GreenhouseDelete { id: None, owner_id: 0 })
    } else if same_text(name, "device_update") {
        Some(DispatchEvent::DeviceUpdate { id: 0 })
    } else if same_text(name, "device_records_update") {
        Some(DispatchEvent::DeviceRecordsUpdate { device_id: 0 })
    } else if same_text(name, "device_records_average_update") {
        Some(
            DispatchEvent::DeviceRecordsAverageUpdate {
                device_id: 0,
                range: DeviceRecordsTimestampRange::Today,
            },
        )
    } else {
        None
    }
}

/// The name of an event's family stands for the event with every key at
/// its default.
pub proof fn lemma_event_name_round_trip(event: DispatchEvent)
    ensures
        event_named(event.family_name()) == Some(event.bare()),
{
    reveal_strlit("user_update");
    reveal_strlit("user_me_update");
    reveal_strlit("greenhouse_update");
    reveal_strlit("greenhouse_create");
    reveal_strlit("greenhouse_delete");
    reveal_strlit("device_update");
    reveal_strlit("device_records_update");
    reveal_strlit("device_records_average_update");
    assert("user_update"@.len() == 11);
    assert("user_me_update"@.len() == 14);
    assert("greenhouse_update"@.len() == 17);
    assert("greenhouse_create"@.len() == 17);
    assert("greenhouse_delete"@.len() == 17);
    assert("device_update"@.len() == 13);
    assert("device_records_update"@.len() == 21);
    assert("device_records_average_update"@.len() == 29);
    assert("greenhouse_update"@[11] != "greenhouse_create"@[11]);
    assert("greenhouse_update"@[11] != "greenhouse_delete"@[11]);
    assert("greenhouse_create"@[11] != "greenhouse_delete"@[11]);
}

impl Method {
    /// The word that the method is written as.
    pub open spec fn word(self) -> Seq<char> {
        match self {
            Method::Get => "get"@,
            Method::Post => "post"@,
            Method::Patch => "patch"@,
            Method::Delete => "delete"@,
        }
    }

    /// The method that a word stands for.
    pub open spec fn of_word(word: Seq<char>) -> Option<Method> {
        if word == "get"@ {
            Some(Method::Get)
        } else if word == "post"@ {
            Some(Method::Post)
        } else if word == "patch"@ {
            Some(Method::Patch)
        } else if word == "delete"@ {
            Some(Method::Delete)
        } else {
            None
        }
    }

    pub fn name(&self) -> (r: &'static str)
        ensures
            r@ == self.word(),
    {
        match self {
            Method::Get => "get",
            Method::Post => "post",
            Method::Patch => "patch",
            Method::Delete => "delete",
        }
    }

    pub fn parse(word: &str) -> (r: Option<Method>)
        ensures
            r == Self::of_word(word@),
    {
        if same_text(word, "get") {
            Some(Method::Get)
        } else if same_text(word, "post") {
            Some(Method::Post)
        } else if same_text(word, "patch") {
            Some(Method::Patch)
        } else if same_text(word, "delete") {
            Some(Method::Delete)
        } else {
            None
        }
    }

    /// A method's word stands for the method.
    pub proof fn lemma_word_round_trip(self)
        ensures
            Self::of_word(self.word()) == Some(self),
    {
        reveal_strlit("get");
        reveal_strlit("post");
        reveal_strlit("patch");
        reveal_strlit("delete");
        assert("get"@.len() == 3);
        assert("post"@.len() == 4);
        assert("patch"@.len() == 5);
        assert("delete"@.len() == 6);
    }
}

/// The record that an event is written as: the name of its family. The
/// keys of an event never leave the server.
pub open spec fn encoded_event(event: DispatchEvent) -> Seq<(Field, TermView)> {
    Seq::empty().push((Field::EventName, TermView::Text(event.family_name())))
}

/// The event that a record holds.
pub open spec fn decoded_event(entries: Seq<(Field, TermView)>) -> Option<DispatchEvent> {
    match text_in(entries, Field::EventName) {
        Some(name) => event_named(name),
        None => None,
    }
}

/// The event that an envelope may hold.
pub open spec fn event_in(entries: Seq<(Field, TermView)>) -> Option<Option<DispatchEvent>> {
    match lookup(entries, Field::Event) {
        None => Some(None),
        Some(TermView::Nil) => Some(None),
        Some(TermView::Record(event)) => match decoded_event(event) {
            Some(event) => Some(Some(event)),
            None => None,
        },
        Some(_) => None,
    }
}

/// The method that an envelope may hold.
pub open spec fn method_in(entries: Seq<(Field, TermView)>) -> Option<Option<Method>> {
    match lookup(entries, Field::Method) {
        None => Some(None),
        Some(TermView::Nil) => Some(None),
        Some(TermView::Text(word)) => match Method::of_word(word) {
            Some(method) => Some(Some(method)),
            None => None,
        },
        Some(_) => None,
    }
}

/// The body that an envelope holds: the empty body where it holds none.
pub open spec fn body_in(entries: Seq<(Field, TermView)>) -> Option<WebSocketMessageDataView> {
    match lookup(entries, Field::Body) {
        None => Some(WebSocketMessageDataView::Empty),
        Some(TermView::Record(body)) => decoded_data(body),
        Some(_) => None,
    }
}

/// The id that an envelope holds: what stands under the short key, or,
/// where that key is missing, under the long one.
pub open spec fn ident_in(entries: Seq<(Field, TermView)>) -> Option<int> {
    match lookup(entries, Field::Ident) {
        Some(term) => within(term, i64::MIN as int, i64::MAX as int),
        None => int_in(entries, Field::Id, i64::MIN as int, i64::MAX as int),
    }
}

/// The record that an envelope is written as: its id and opcode, then the
/// event, the method, the request path and the body, each only if there is
/// one. The connection's id is never written.
pub open spec fn encoded_envelope(message: WebSocketMessageView) -> Seq<(Field, TermView)> {
    let base = Seq::empty().push((Field::Ident, TermView::Int(message.id as i128))).push(
        (Field::Opcode, TermView::Int(message.opcode.number() as i128)),
    );
    let with_event = match message.event {
        Some(event) => base.push((Field::Event, TermView::Record(encoded_event(event)))),
        None => base,
    };
    let with_method = match message.method {
        Some(method) => with_event.push((Field::Method, TermView::Text(method.word()))),
        None => with_event,
    };
    let with_request = match message.request {
        Some(request) => with_method.push((Field::Request, TermView::Text(request))),
        None => with_method,
    };
    if message.data is Empty {
        with_request
    } else {
        with_request.push((Field::Body, TermView::Record(encoded_data(message.data))))
    }
}

/// The envelope that a record holds, if id and opcode are there and
/// everything that is there is of the right kind.
pub open spec fn decoded_envelope(entries: Seq<(Field, TermView)>) -> Option<WebSocketMessageView> {
    match ident_in(entries) {
        None => None,
        Some(id) => match int_in(entries, Field::Opcode, 0, 6) {
            None => None,
            Some(opcode) => match event_in(entries) {
                None => None,
                Some(event) => match method_in(entries) {
                    None => None,
                    Some(method) => match optional_text_in(entries, Field::Request) {
                        None => None,
                        Some(request) => match body_in(entries) {
                            None => None,
                            Some(data) => Some(
                                WebSocketMessageView {
                                    id: id as i64,
                                    connection_id: 0,
                                    opcode: opcode_of(opcode),
                                    event,
                                    method,
                                    request,
                                    data,
                                },
                            ),
                        },
                    },
                },
            },
        },
    }
}

/// The envelope that a term holds.
pub open spec fn decoded(term: TermView) -> Option<WebSocketMessageView> {
    match term {
        TermView::Record(entries) => decoded_envelope(entries),
        _ => None,
    }
}

/// The term that an envelope is written as.
pub open spec fn encoded(message: WebSocketMessageView) -> TermView {
    TermView::Record(encoded_envelope(message))
}

/// What is left of an envelope once it has been written and read: the
/// connection's id and the keys of the event are not written, so they
/// come back at their defaults.
pub open spec fn as_received(message: WebSocketMessageView) -> WebSocketMessageView {
    WebSocketMessageView {
        connection_id: 0,
        event: match message.event {
            Some(event) => Some(event.bare()),
            None => None,
        },
        ..message
    }
}

/// An envelope that is written and read again, in either encoding, is the
/// envelope it was, whatever its body, but for what is never written.
pub proof fn lemma_envelope_round_trip(message: WebSocketMessageView)
    ensures
        decoded(encoded(message)) == Some(as_received(message)),
{
    reveal_with_fuel(lookup_from, 8);
    let entries = encoded_envelope(message);
    lemma_data_round_trip(message.data);
    assert(lookup(entries, Field::Ident) == Some(TermView::Int(message.id as i128)));
    assert(lookup(entries, Field::Opcode) == Some(TermView::Int(message.opcode.number() as i128)));
    assert(opcode_of(message.opcode.number() as int) == message.opcode);
    match message.event {
        Some(event) => {
            lemma_event_name_round_trip(event);
            assert(lookup(entries, Field::Event) == Some(TermView::Record(encoded_event(event))));
            assert(event_in(entries) == Some(Some(event.bare())));
        },
        None => {
            assert(lookup(entries, Field::Event) is None);
        },
    }
    match message.method {
        Some(method) => {
            method.lemma_word_round_trip();
            assert(lookup(entries, Field::Method) == Some(TermView::Text(method.word())));
        },
        None => {
            assert(lookup(entries, Field::Method) is None);
        },
    }
    match message.request {
        Some(request) => {
            assert(lookup(entries, Field::Request) == Some(TermView::Text(request)));
        },
        None => {
            assert(lookup(entries, Field::Request) is None);
        },
    }
    if message.data is Empty {
        assert(lookup(entries, Field::Body) is None);
    } else {
        assert(lookup(entries, Field::Body) == Some(TermView::Record(encoded_data(message.data))));
    }
    assert(body_in(entries) == Some(message.data));
}

/// An envelope as it travels, with no connection named and no keys in its
/// event, comes back exactly as it was sent.
pub proof fn lemma_envelope_round_trip_exact(message: WebSocketMessageView)
    requires
        message.connection_id == 0,
        message.event is Some ==> message.event->Some_0.bare() == message.event->Some_0,
    ensures
        decoded(encoded(message)) == Some(message),
{
    lemma_envelope_round_trip(message);
}

/// The view of an optional envelope.
pub open spec fn message_view(message: Option<WebSocketMessage>) -> Option<WebSocketMessageView> {
    match message {
        Some(message) => Some(message@),
        None => None,
    }
}

impl WebSocketMessage {
    /// Writes the envelope as a term.
    pub fn to_term(&self) -> (r: Term)
        ensures
            r@ == encoded(self@),
    {
        let mut entries = blank();
        put(&mut entries, Field::Ident, Term::Int(self.id as i128));
        put(&mut entries, Field::Opcode, Term::Int(self.opcode.to_number() as i128));
        if let Some(event) = &self.event {
            let mut inner = blank();
            put(&mut inner, Field::EventName, Term::Text(String::from_str(event.family_text())));
            put(&mut entries, Field::Event, record(inner));
        }
        if let Some(method) = &self.method {
            put(&mut entries, Field::Method, Term::Text(String::from_str(method.name())));
        }
        if let Some(request) = &self.request {
            put(&mut entries, Field::Request, Term::Text(request.clone()));
        }
        if !self.data.is_none() {
            put(&mut entries, Field::Body, record(encode_data(&self.data)));
        }
        record(entries)
    }

    /// Reads an envelope from a term. The envelope names no connection
    /// yet.
    pub fn from_term(term: &Term) -> (r: Option<WebSocketMessage>)
        ensures
            message_view(r) == decoded(term@),
    {
        proof {
            crate::wire::lemma_views(*term);
        }
        let entries = match term {
            Term::Record(entries) => entries,
            _ => {
                return None;
            },
        };
        let key = if find(entries, Field::Ident).is_some() {
            Field::Ident
        } else {
            Field::Id
        };
        let id = match read_int(entries, key, i64::MIN as i128, i64::MAX as i128) {
            Some(id) => id as i64,
            None => {
                return None;
            },
        };
        let opcode = match read_int(entries, Field::Opcode, 0, 6) {
            Some(opcode) => opcode_from(opcode),
            None => {
                return None;
            },
        };
        let event = match find(entries, Field::Event) {
            None => None,
            Some(found) => {
                proof {
                    crate::wire::lemma_views(*found);
                }
                match found {
                    Term::Nil => None,
                    Term::Record(inner) => {
                        let name = match read_text(inner, Field::EventName) {
                            Some(name) => name,
                            None => {
                                return None;
                            },
                        };
                        match event_from_name(name.as_str()) {
                            Some(event) => Some(event),
                            None => {
                                return None;
                            },
                        }
                    },
                    _ => {
                        return None;
                    },
                }
            },
        };
        let method = match find(entries, Field::Method) {
            None => None,
            Some(Term::Nil) => None,
            Some(Term::Text(word)) => match Method::parse(word.as_str()) {
                Some(method) => Some(method),
                None => {
                    return None;
                },
            },
            Some(_) => {
                return None;
            },
        };
        let request = match read_optional_text(entries, Field::Request) {
            Some(request) => request,
            None => {
                return None;
            },
        };
        let data = match find(entries, Field::Body) {
            None => WebSocketMessageData::Empty,
            Some(found) => {
                proof {
                    crate::wire::lemma_views(*found);
                }
                match found {
                    Term::Record(body) => match decode_data(body) {
                        Some(data) => data,
                        None => {
                            return None;
                        },
                    },
                    _ => {
                        return None;
                    },
                }
            },
        };
        Some(WebSocketMessage { id, connection_id: 0, opcode, event, method, request, data })
    }
}

/// The fields of a request for readings, as a record.
pub open spec fn encoded_request_data(device_id: Option<i64>, greenhouse_id: Option<i64>) -> TermView {
    TermView::Record(
        Seq::empty().push((Field::DeviceId, i64_or_nil(device_id))).push(
            (Field::GreenhouseId, i64_or_nil(greenhouse_id)),
        ),
    )
}

/// The term that a bus payload is written as: a record of one entry, the
/// payload's kind and under it the payload's fields; a ping is the word
/// alone.
pub open spec fn encoded_payload(payload: AmqpPayload) -> TermView {
    match payload {
        AmqpPayload::DispatchData { device_id } => TermView::Record(
            Seq::empty().push(
                (
                    Field::DispatchData,
                    TermView::Record(
                        Seq::empty().push((Field::DeviceId, TermView::Int(device_id as i128))),
                    ),
                ),
            ),
        ),
        AmqpPayload::RequestData { device_id, greenhouse_id } => TermView::Record(
            Seq::empty().push((Field::RequestData, encoded_request_data(device_id, greenhouse_id))),
        ),
        AmqpPayload::ChangeControllerState { device_id, state } => TermView::Record(
            Seq::empty().push(
                (
                    Field::ChangeControllerState,
                    TermView::Record(
                        Seq::empty().push((Field::DeviceId, TermView::Int(device_id as i128))).push(
                            (Field::State, TermView::Int(state as i128)),
                        ),
                    ),
                ),
            ),
        ),
        AmqpPayload::DispatchDevice { id } => TermView::Record(
            Seq::empty().push(
                (
                    Field::DispatchDevice,
                    TermView::Record(Seq::empty().push((Field::Id, TermView::Int(id as i128)))),
                ),
            ),
        ),
        AmqpPayload::Ping => TermView::Text("ping"@),
    }
}

/// The payload of the kind `kind` that a record of fields holds.
pub open spec fn decoded_payload_fields(kind: Field, fields: Seq<(Field, TermView)>) -> Option<
    AmqpPayload,
> {
    match kind {
        Field::DispatchData => match int_in(
            fields,
            Field::DeviceId,
            i64::MIN as int,
            i64::MAX as int,
        ) {
            Some(device_id) => Some(AmqpPayload::DispatchData { device_id: device_id as i64 }),
            None => None,
        },
        Field::RequestData => match optional_int_in(
            fields,
            Field::DeviceId,
            i64::MIN as int,
            i64::MAX as int,
        ) {
            None => None,
            Some(device_id) => match optional_int_in(
                fields,
                Field::GreenhouseId,
                i64::MIN as int,
                i64::MAX as int,
            ) {
                None => None,
                Some(greenhouse_id) => Some(
                    AmqpPayload::RequestData {
                        device_id: narrowed_i64(device_id),
                        greenhouse_id: narrowed_i64(greenhouse_id),
                    },
                ),
            },
        },
        Field::ChangeControllerState => match int_in(
            fields,
            Field::DeviceId,
            i64::MIN as int,
            i64::MAX as int,
        ) {
            None => None,
            Some(device_id) => match int_in(fields, Field::State, 0, u8::MAX as int) {
                None => None,
                Some(state) => Some(
                    AmqpPayload::ChangeControllerState {
                        device_id: device_id as i64,
                        state: state as u8,
                    },
                ),
            },
        },
        Field::DispatchDevice => match int_in(fields, Field::Id, i64::MIN as int, i64::MAX as int) {
            Some(id) => Some(AmqpPayload::DispatchDevice { id: id as i64 }),
            None => None,
        },
        _ => None,
    }
}

/// The bus payload that a term holds, if it holds one. Anything else is
/// of no concern and is dropped by whoever reads it.
pub open spec fn decoded_payload(term: TermView) -> Option<AmqpPayload> {
    match term {
        TermView::Text(word) => if word == "ping"@ {
            Some(AmqpPayload::Ping)
        } else {
            None
        },
        TermView::Record(entries) => if entries.len() != 1 {
            None
        } else {
            match entries[0].1 {
                TermView::Record(fields) => decoded_payload_fields(entries[0].0, fields),
                _ => None,
            }
        },
        _ => None,
    }
}

/// A bus payload that is written and read again is the payload it was.
pub proof fn lemma_payload_round_trip(payload: AmqpPayload)
    ensures
        decoded_payload(encoded_payload(payload)) == Some(payload),
{
    reveal_with_fuel(lookup_from, 4);
    match payload {
        AmqpPayload::RequestData { device_id, greenhouse_id } => {
            let fields = encoded_request_data(device_id, greenhouse_id)->Record_0;
            assert(lookup(fields, Field::DeviceId) == Some(i64_or_nil(device_id)));
            assert(lookup(fields, Field::GreenhouseId) == Some(i64_or_nil(greenhouse_id)));
        },
        AmqpPayload::ChangeControllerState { device_id, state } => {
            let fields = encoded_payload(payload)->Record_0[0].1->Record_0;
            assert(lookup(fields, Field::DeviceId) == Some(TermView::Int(device_id as i128)));
            assert(lookup(fields, Field::State) == Some(TermView::Int(state as i128)));
        },
        _ => {},
    }
}

impl AmqpPayload {
    /// Writes the payload as a term.
    pub fn to_term(&self) -> (r: Term)
        ensures
            r@ == encoded_payload(*self),
    {
        let mut fields = blank();
        let kind = match self {
            AmqpPayload::DispatchData { device_id } => {
                put(&mut fields, Field::DeviceId, Term::Int(*device_id as i128));
                Field::DispatchData
            },
            AmqpPayload::RequestData { device_id, greenhouse_id } => {
                put(&mut fields, Field::DeviceId, optional_i64_term(device_id));
                put(&mut fields, Field::GreenhouseId, optional_i64_term(greenhouse_id));
                Field::RequestData
            },
            AmqpPayload::ChangeControllerState { device_id, state } => {
                put(&mut fields, Field::DeviceId, Term::Int(*device_id as i128));
                put(&mut fields, Field::State, Term::Int(*state as i128));
                Field::ChangeControllerState
            },
            AmqpPayload::DispatchDevice { id } => {
                put(&mut fields, Field::Id, Term::Int(*id as i128));
                Field::DispatchDevice
            },
            AmqpPayload::Ping => {
                return Term::Text(String::from_str("ping"));
            },
        };
        let mut entries = blank();
        put(&mut entries, kind, record(fields));
        record(entries)
    }

    /// Reads a payload from a term.
    pub fn from_term(term: &Term) -> (r: Option<AmqpPayload>)
        ensures
            r == decoded_payload(term@),
    {
        proof {
            crate::wire::lemma_views(*term);
        }
        let entries = match term {
            Term::Text(word) => {
                if same_text(word.as_str(), "ping") {
                    return Some(AmqpPayload::Ping);
                }
                return None;
            },
            Term::Record(entries) => entries,
            _ => {
                return None;
            },
        };
        if entries.len() != 1 {
            return None;
        }
        let kind = entries[0].0;
        proof {
            crate::wire::lemma_views(entries[0].1);
            assert(entry_views(entries@)[0] == (entries@[0].0, entries@[0].1@));
        }
        let fields = match &entries[0].1 {
            Term::Record(fields) => fields,
            _ => {
                return None;
            },
        };
        match kind {
            Field::DispatchData => match read_int(
                fields,
                Field::DeviceId,
                i64::MIN as i128,
                i64::MAX as i128,
            ) {
                Some(device_id) => Some(AmqpPayload::DispatchData { device_id: device_id as i64 }),
                None => None,
            },
            Field::RequestData => {
                let device_id = match read_optional_int(
                    fields,
                    Field::DeviceId,
                    i64::MIN as i128,
                    i64::MAX as i128,
                ) {
                    Some(device_id) => narrow_i64(device_id),
                    None => {
                        return None;
                    },
                };
                let greenhouse_id = match read_optional_int(
                    fields,
                    Field::GreenhouseId,
                    i64::MIN as i128,
                    i64::MAX as i128,
                ) {
                    Some(greenhouse_id) => narrow_i64(greenhouse_id),
                    None => {
                        return None;
                    },
                };
                Some(AmqpPayload::RequestData { device_id, greenhouse_id })
            },
            Field::ChangeControllerState => {
                let device_id = match read_int(
                    fields,
                    Field::DeviceId,
                    i64::MIN as i128,
                    i64::MAX as i128,
                ) {
                    Some(device_id) => device_id as i64,
                    None => {
                        return None;
                    },
                };
                let state = match read_int(fields, Field::State, 0, u8::MAX as i128) {
                    Some(state) => state as u8,
                    None => {
                        return None;
                    },
                };
                Some(AmqpPayload::ChangeControllerState { device_id, state })
            },
            Field::DispatchDevice => match read_int(
                fields,
                Field::Id,
                i64::MIN as i128,
                i64::MAX as i128,
            ) {
                Some(id) => Some(AmqpPayload::DispatchDevice { id: id as i64 }),
                None => None,
            },
            _ => None,
        }
    }
}

} // verus!
