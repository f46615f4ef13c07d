//! Terms: values as they stand on the wire, and readers of records.

use vstd::prelude::*;
use vstd::string::*;
use crate::numbers::F64Bits;
use crate::text::same_text;

verus! {

/// The keys that the wire schema knows. A key that is not among them is
/// of no concern to any reader.
#[derive(Clone, Copy, Debug, PartialEq, Eq, Structural)]
pub enum Field {
    Ident,
    Opcode,
    Event,
    Method,
    Request,
    Body,
    EventName,
    Action,
    Email,
    Username,
    Locale,
    Theme,
    NewPassword,
    CurrentPassword,
    Name,
    Token,
    Id,
    MaximumAverageHumidity,
    MinimumAverageTemperature,
    GreenhouseId,
    MaximumDataValue,
    State,
    Data,
    Time,
    DeviceId,
    Range,
    CreatedAt,
    Greenhouses,
    OwnerId,
    ExternalId,
    Status,
    Kind,
    LatestData,
    Quantity,
    Records,
    Code,
    Message,
    DispatchData,
    RequestData,
    ChangeControllerState,
    DispatchDevice,
}

impl Field {
    /// The key as it is written on the wire.
    pub open spec fn label(self) -> Seq<char> {
        match self {
            Field::Ident => "i"@,
            Field::Opcode => "o"@,
            Field::Event => "e"@,
            Field::Method => "m"@,
            Field::Request => "r"@,
            Field::Body => "d"@,
            Field::EventName => "n"@,
            Field::Action => "a"@,
            Field::Email => "email"@,
            Field::Username => "username"@,
            Field::Locale => "locale"@,
            Field::Theme => "theme"@,
            Field::NewPassword => "new_password"@,
            Field::CurrentPassword => "current_password"@,
            Field::Name => "name"@,
            Field::Token => "token"@,
            Field::Id => "id"@,
            Field::MaximumAverageHumidity => "maximum_average_humidity"@,
            Field::MinimumAverageTemperature => "minimum_average_temperature"@,
            Field::GreenhouseId => "greenhouse_id"@,
            Field::MaximumDataValue => "maximum_data_value"@,
            Field::State => "state"@,
            Field::Data => "data"@,
            Field::Time => "time"@,
            Field::DeviceId => "device_id"@,
            Field::Range => "range"@,
            Field::CreatedAt => "created_at"@,
            Field::Greenhouses => "greenhouses"@,
            Field::OwnerId => "owner_id"@,
            Field::ExternalId => "external_id"@,
            Field::Status => "status"@,
            Field::Kind => "kind"@,
            Field::LatestData => "latest_data"@,
            Field::Quantity => "quantity"@,
            Field::Records => "records"@,
            Field::Code => "code"@,
            Field::Message => "message"@,
            Field::DispatchData => "dispatch_data"@,
            Field::RequestData => "request_data"@,
            Field::ChangeControllerState => "change_controller_state"@,
            Field::DispatchDevice => "dispatch_device"@,
        }
    }

    /// The field that a key on the wire names, if it names one.
    pub open spec fn of_label(label: Seq<char>) -> Option<Field> {
        if label == "i"@ {
            Some(Field::Ident)
        } else if label == "o"@ {
            Some(Field::Opcode)
        } else if label == "e"@ {
            Some(Field::Event)
        } else if label == "m"@ {
            Some(Field::Method)
        } else if label == "r"@ {
            Some(Field::Request)
        } else if label == "d"@ {
            Some(Field::Body)
        } else if label == "n"@ {
            Some(Field::EventName)
        } else if label == "a"@ {
            Some(Field::Action)
        } else if label == "email"@ {
            Some(Field::Email)
        } else if label == "username"@ {
            Some(Field::Username)
        } else if label == "locale"@ {
            Some(Field::Locale)
        } else if label == "theme"@ {
            Some(Field::Theme)
        } else if label == "new_password"@ {
            Some(Field::NewPassword)
        } else if label == "current_password"@ {
            Some(Field::CurrentPassword)
        } else if label == "name"@ {
            Some(Field::Name)
        } else if label == "token"@ {
            Some(Field::Token)
        } else if label == "id"@ {
            Some(Field::Id)
        } else if label == "maximum_average_humidity"@ {
            Some(Field::MaximumAverageHumidity)
        } else if label == "minimum_average_temperature"@ {
            Some(Field::MinimumAverageTemperature)
        } else if label == "greenhouse_id"@ {
            Some(Field::GreenhouseId)
        } else if label == "maximum_data_value"@ {
            Some(Field::MaximumDataValue)
        } else if label == "state"@ {
            Some(Field::State)
        } else if label == "data"@ {
            Some(Field::Data)
        } else if label == "time"@ {
            Some(Field::Time)
        } else if label == "device_id"@ {
            Some(Field::DeviceId)
        } else if label == "range"@ {
            Some(Field::Range)
        } else if label == "created_at"@ {
            Some(Field::CreatedAt)
        } else if label == "greenhouses"@ {
            Some(Field::Greenhouses)
        } else if label == "owner_id"@ {
            Some(Field::OwnerId)
        } else if label == "external_id"@ {
            Some(Field::ExternalId)
        } else if label == "status"@ {
            Some(Field::Status)
        } else if label == "kind"@ {
            Some(Field::Kind)
        } else if label == "latest_data"@ {
            Some(Field::LatestData)
        } else if label == "quantity"@ {
            Some(Field::Quantity)
        } else if label == "records"@ {
            Some(Field::Records)
        } else if label == "code"@ {
            Some(Field::Code)
        } else if label == "message"@ {
            Some(Field::Message)
        } else if label == "dispatch_data"@ {
            Some(Field::DispatchData)
        } else if label == "request_data"@ {
            Some(Field::RequestData)
        } else if label == "change_controller_state"@ {
            Some(Field::ChangeControllerState)
        } else if label == "dispatch_device"@ {
            Some(Field::DispatchDevice)
        } else {
            None
        }
    }

    pub fn name(&self) -> (r: &'static str)
        ensures
            r@ == self.label(),
    {
        match self {
            Field::Ident => "i",
            Field::Opcode => "o",
            Field::Event => "e",
            Field::Method => "m",
            Field::Request => "r",
            Field::Body => "d",
            Field::EventName => "n",
            Field::Action => "a",
            Field::Email => "email",
            Field::Username => "username",
            Field::Locale => "locale",
            Field::Theme => "theme",
            Field::NewPassword => "new_password",
            Field::CurrentPassword => "current_password",
            Field::Name => "name",
            Field::Token => "token",
            Field::Id => "id",
            Field::MaximumAverageHumidity => "maximum_average_humidity",
            Field::MinimumAverageTemperature => "minimum_average_temperature",
            Field::GreenhouseId => "greenhouse_id",
            Field::MaximumDataValue => "maximum_data_value",
            Field::State => "state",
            Field::Data => "data",
            Field::Time => "time",
            Field::DeviceId => "device_id",
            Field::Range => "range",
            Field::CreatedAt => "created_at",
            Field::Greenhouses => "greenhouses",
            Field::OwnerId => "owner_id",
            Field::ExternalId => "external_id",
            Field::Status => "status",
            Field::Kind => "kind",
            Field::LatestData => "latest_data",
            Field::Quantity => "quantity",
            Field::Records => "records",
            Field::Code => "code",
            Field::Message => "message",
            Field::DispatchData => "dispatch_data",
            Field::RequestData => "request_data",
            Field::ChangeControllerState => "change_controller_state",
            Field::DispatchDevice => "dispatch_device",
        }
    }

    pub fn parse(label: &str) -> (r: Option<Field>)
        ensures
            r == Self::of_label(label@),
    {
        if same_text(label, "i") {
            Some(Field::Ident)
        } else if same_text(label, "o") {
            Some(Field::Opcode)
        } else if same_text(label, "e") {
            Some(Field::Event)
        } else if same_text(label, "m") {
            Some(Field::Method)
        } else if same_text(label, "r") {
            Some(Field::Request)
        } else if same_text(label, "d") {
            Some(Field::Body)
        } else if same_text(label, "n") {
            Some(Field::EventName)
        } else if same_text(label, "a") {
            Some(Field::Action)
        } else if same_text(label, "email") {
            Some(Field::Email)
        } else if same_text(label, "username") {
            Some(Field::Username)
        } else if same_text(label, "locale") {
            Some(Field::Locale)
        } else if same_text(label, "theme") {
            Some(Field::Theme)
        } else if same_text(label, "new_password") {
            Some(Field::NewPassword)
        } else if same_text(label, "current_password") {
            Some(Field::CurrentPassword)
        } else if same_text(label, "name") {
            Some(Field::Name)
        } else if same_text(label, "token") {
            Some(Field::Token)
        } else if same_text(label, "id") {
            Some(Field::Id)
        } else if same_text(label, "maximum_average_humidity") {
            Some(Field::MaximumAverageHumidity)
        } else if same_text(label, "minimum_average_temperature") {
            Some(Field::MinimumAverageTemperature)
        } else if same_text(label, "greenhouse_id") {
            Some(Field::GreenhouseId)
        } else if same_text(label, "maximum_data_value") {
            Some(Field::MaximumDataValue)
        } else if same_text(label, "state") {
            Some(Field::State)
        } else if same_text(label, "data") {
            Some(Field::Data)
        } else if same_text(label, "time") {
            Some(Field::Time)
        } else if same_text(label, "device_id") {
            Some(Field::DeviceId)
        } else if same_text(label, "range") {
            Some(Field::Range)
        } else if same_text(label, "created_at") {
            Some(Field::CreatedAt)
        } else if same_text(label, "greenhouses") {
            Some(Field::Greenhouses)
        } else if same_text(label, "owner_id") {
            Some(Field::OwnerId)
        } else if same_text(label, "external_id") {
            Some(Field::ExternalId)
        } else if same_text(label, "status") {
            Some(Field::Status)
        } else if same_text(label, "kind") {
            Some(Field::Kind)
        } else if same_text(label, "latest_data") {
            Some(Field::LatestData)
        } else if same_text(label, "quantity") {
            Some(Field::Quantity)
        } else if same_text(label, "records") {
            Some(Field::Records)
        } else if same_text(label, "code") {
            Some(Field::Code)
        } else if same_text(label, "message") {
            Some(Field::Message)
        } else if same_text(label, "dispatch_data") {
            Some(Field::DispatchData)
        } else if same_text(label, "request_data") {
            Some(Field::RequestData)
        } else if same_text(label, "change_controller_state") {
            Some(Field::ChangeControllerState)
        } else if same_text(label, "dispatch_device") {
            Some(Field::DispatchDevice)
        } else {
            None
        }
    }
}

/// A value as it stands on the wire, whichever encoding wrote it. Text
/// stands for itself, a record is a list of keyed values.
#[derive(Debug)]
pub enum Term {
    Nil,
    Bool(bool),
    /// A whole number.
    Int(i128),
    /// A whole number as a reader of text hands it over: together with the
    /// double that a reader of doubles would have made of the same digits.
    Number { value: i128, float: F64Bits },
    /// A double.
    Float(F64Bits),
    Text(String),
    List(Vec<Term>),
    Record(Vec<(Field, Term)>),
}

/// Mathematical value of a [`Term`].
pub enum TermView {
    Nil,
    Bool(bool),
    Int(i128),
    Number { value: i128, float: F64Bits },
    Float(F64Bits),
    Text(Seq<char>),
    List(Seq<TermView>),
    Record(Seq<(Field, TermView)>),
}

/// The mathematical value of a term.
pub open spec fn term_view(term: Term) -> TermView
    decreases term,
{
    match term {
        Term::Nil => TermView::Nil,
        Term::Bool(b) => TermView::Bool(b),
        Term::Int(n) => TermView::Int(n),
        Term::Number { value, float } => TermView::Number { value, float },
        Term::Float(f) => TermView::Float(f),
        Term::Text(s) => TermView::Text(s@),
        Term::List(items) => TermView::List(
            Seq::new(
                items@.len(),
                |i: int|
                    if 0 <= i < items@.len() {
                        term_view(items[i])
                    } else {
                        TermView::Nil
                    },
            ),
        ),
        Term::Record(entries) => TermView::Record(
            Seq::new(
                entries@.len(),
                |i: int|
                    if 0 <= i < entries@.len() {
                        (entries[i].0, term_view(entries[i].1))
                    } else {
                        (Field::Ident, TermView::Nil)
                    },
            ),
        ),
    }
}

impl View for Term {
    type V = TermView;

    open spec fn view(&self) -> TermView {
        term_view(*self)
    }
}

/// The views of the entries of a record, in order.
pub open spec fn entry_views(entries: Seq<(Field, Term)>) -> Seq<(Field, TermView)> {
    Seq::new(entries.len(), |i: int| (entries[i].0, entries[i].1@))
}

/// The views of the items of a list, in order.
pub open spec fn item_views(items: Seq<Term>) -> Seq<TermView> {
    Seq::new(items.len(), |i: int| items[i]@)
}

/// The view of a record is the record of the views of its entries, and the
/// view of a list the list of the views of its items.
pub proof fn lemma_views(term: Term)
    ensures
        term matches Term::Record(entries) ==> term@ == TermView::Record(entry_views(entries@)),
        term matches Term::List(items) ==> term@ == TermView::List(item_views(items@)),
{
    match term {
        Term::Record(entries) => {
            assert(term@->Record_0 =~= entry_views(entries@));
        },
        Term::List(items) => {
            assert(term@->List_0 =~= item_views(items@));
        },
        _ => {},
    }
}

/// Makes a record of its entries.
pub fn record(entries: Vec<(Field, Term)>) -> (r: Term)
    ensures
        r@ == TermView::Record(entry_views(entries@)),
{
    let r = Term::Record(entries);
    proof {
        lemma_views(r);
    }
    r
}

/// Makes a list of its items.
pub fn list(items: Vec<Term>) -> (r: Term)
    ensures
        r@ == TermView::List(item_views(items@)),
{
    let r = Term::List(items);
    proof {
        lemma_views(r);
    }
    r
}

/// Adds an entry to a record in the making.
pub fn put(entries: &mut Vec<(Field, Term)>, key: Field, value: Term)
    ensures
        entry_views(final(entries)@) == entry_views(old(entries)@).push((key, value@)),
{
    entries.push((key, value));
    assert(entry_views(entries@) =~= entry_views(old(entries)@).push((key, value@)));
}

/// Adds an item to a list in the making.
pub fn add_item(items: &mut Vec<Term>, value: Term)
    ensures
        item_views(final(items)@) == item_views(old(items)@).push(value@),
{
    items.push(value);
    assert(item_views(items@) =~= item_views(old(items)@).push(value@));
}

/// A record in the making, with nothing in it yet.
pub fn blank() -> (r: Vec<(Field, Term)>)
    ensures
        entry_views(r@) == Seq::<(Field, TermView)>::empty(),
{
    let r: Vec<(Field, Term)> = Vec::new();
    assert(entry_views(r@) =~= Seq::<(Field, TermView)>::empty());
    r
}

/// The value of the first entry from `from` on that stands under `key`.
pub open spec fn lookup_from(entries: Seq<(Field, TermView)>, key: Field, from: int) -> Option<
    TermView,
>
    decreases entries.len() - from,
{
    if from < 0 || from >= entries.len() {
        None
    } else if entries[from].0 == key {
        Some(entries[from].1)
    } else {
        lookup_from(entries, key, from + 1)
    }
}

/// The value that a record holds under `key`: that of the first entry
/// with the key.
pub open spec fn lookup(entries: Seq<(Field, TermView)>, key: Field) -> Option<TermView> {
    lookup_from(entries, key, 0)
}

/// Finds the value that a record holds under `key`.
pub fn find<'a>(entries: &'a Vec<(Field, Term)>, key: Field) -> (r: Option<&'a Term>)
    ensures
        match r {
            Some(term) => lookup(entry_views(entries@), key) == Some(term@),
            None => lookup(entry_views(entries@), key) is None,
        },
{
    let mut i: usize = 0;
    while i < entries.len()
        invariant
            i <= entries.len(),
            lookup(entry_views(entries@), key) == lookup_from(entry_views(entries@), key, i as int),
        decreases entries.len() - i,
    {
        if entries[i].0 == key {
            return Some(&entries[i].1);
        }
        i += 1;
    }
    None
}

/// The whole number that a term holds, if it holds one.
pub open spec fn whole(term: TermView) -> Option<int> {
    match term {
        TermView::Int(n) => Some(n as int),
        TermView::Number { value, float } => Some(value as int),
        _ => None,
    }
}

/// The whole number between `least` and `most` that a term holds, if it
/// holds one.
pub open spec fn within(term: TermView, least: int, most: int) -> Option<int> {
    match whole(term) {
        Some(n) => if least <= n <= most {
            Some(n)
        } else {
            None
        },
        None => None,
    }
}

/// The double that a term holds, if it holds one. A whole number counts
/// where its reader made a double of it.
pub open spec fn double(term: TermView) -> Option<F64Bits> {
    match term {
        TermView::Float(f) => Some(f),
        TermView::Number { value, float } => Some(float),
        _ => None,
    }
}

/// The text that a term holds, if it holds text.
pub open spec fn text(term: TermView) -> Option<Seq<char>> {
    match term {
        TermView::Text(s) => Some(s),
        _ => None,
    }
}

/// The whole number between `least` and `most` that a record holds under
/// `key`. The key must be there.
pub open spec fn int_in(entries: Seq<(Field, TermView)>, key: Field, least: int, most: int)
    -> Option<int> {
    match lookup(entries, key) {
        Some(term) => within(term, least, most),
        None => None,
    }
}

/// The whole number that a record may hold under `key`: none where the key
/// is missing or stands for nothing.
pub open spec fn optional_int_in(
    entries: Seq<(Field, TermView)>,
    key: Field,
    least: int,
    most: int,
) -> Option<Option<int>> {
    match lookup(entries, key) {
        None => Some(None),
        Some(TermView::Nil) => Some(None),
        Some(term) => match within(term, least, most) {
            Some(n) => Some(Some(n)),
            None => None,
        },
    }
}

/// The double that a record holds under `key`. The key must be there.
pub open spec fn real_in(entries: Seq<(Field, TermView)>, key: Field) -> Option<F64Bits> {
    match lookup(entries, key) {
        Some(term) => double(term),
        None => None,
    }
}

/// The double that a record may hold under `key`.
pub open spec fn optional_real_in(entries: Seq<(Field, TermView)>, key: Field) -> Option<
    Option<F64Bits>,
> {
    match lookup(entries, key) {
        None => Some(None),
        Some(TermView::Nil) => Some(None),
        Some(term) => match double(term) {
            Some(f) => Some(Some(f)),
            None => None,
        },
    }
}

/// The text that a record holds under `key`. The key must be there.
pub open spec fn text_in(entries: Seq<(Field, TermView)>, key: Field) -> Option<Seq<char>> {
    match lookup(entries, key) {
        Some(term) => text(term),
        None => None,
    }
}

/// The text that a record may hold under `key`.
pub open spec fn optional_text_in(entries: Seq<(Field, TermView)>, key: Field) -> Option<
    Option<Seq<char>>,
> {
    match lookup(entries, key) {
        None => Some(None),
        Some(TermView::Nil) => Some(None),
        Some(term) => match text(term) {
            Some(s) => Some(Some(s)),
            None => None,
        },
    }
}

fn read_whole(term: &Term, least: i128, most: i128) -> (r: Option<i128>)
    ensures
        match r {
            Some(n) => within(term@, least as int, most as int) == Some(n as int),
            None => within(term@, least as int, most as int) is None,
        },
{
    let n = match term {
        Term::Int(n) => *n,
        Term::Number { value, float } => *value,
        _ => {
            return None;
        },
    };
    if least <= n && n <= most {
        Some(n)
    } else {
        None
    }
}

fn read_real(term: &Term) -> (r: Option<F64Bits>)
    ensures
        r == double(term@),
{
    match term {
        Term::Float(f) => Some(*f),
        Term::Number { value, float } => Some(*float),
        _ => None,
    }
}

/// Reads the whole number that a record holds under `key`.
pub fn read_int(entries: &Vec<(Field, Term)>, key: Field, least: i128, most: i128) -> (r: Option<
    i128,
>)
    ensures
        match r {
            Some(n) => int_in(entry_views(entries@), key, least as int, most as int) == Some(
                n as int,
            ) && least <= n <= most,
            None => int_in(entry_views(entries@), key, least as int, most as int) is None,
        },
{
    match find(entries, key) {
        Some(term) => read_whole(term, least, most),
        None => None,
    }
}

/// Reads the whole number that a record may hold under `key`.
pub fn read_optional_int(entries: &Vec<(Field, Term)>, key: Field, least: i128, most: i128) -> (r:
    Option<Option<i128>>)
    ensures
        match r {
            Some(Some(n)) => optional_int_in(
                entry_views(entries@),
                key,
                least as int,
                most as int,
            ) == Some(Some(n as int)) && least <= n <= most,
            Some(None) => optional_int_in(entry_views(entries@), key, least as int, most as int)
                == Some(None::<int>),
            None => optional_int_in(entry_views(entries@), key, least as int, most as int)
                is None,
        },
{
    match find(entries, key) {
        None => Some(None),
        Some(Term::Nil) => Some(None),
        Some(term) => match read_whole(term, least, most) {
            Some(n) => Some(Some(n)),
            None => None,
        },
    }
}

/// Reads the double that a record holds under `key`.
pub fn read_float(entries: &Vec<(Field, Term)>, key: Field) -> (r: Option<F64Bits>)
    ensures
        r == real_in(entry_views(entries@), key),
{
    match find(entries, key) {
        Some(term) => read_real(term),
        None => None,
    }
}

/// Reads the double that a record may hold under `key`.
pub fn read_optional_float(entries: &Vec<(Field, Term)>, key: Field) -> (r: Option<
    Option<F64Bits>,
>)
    ensures
        r == optional_real_in(entry_views(entries@), key),
{
    match find(entries, key) {
        None => Some(None),
        Some(Term::Nil) => Some(None),
        Some(term) => match read_real(term) {
            Some(f) => Some(Some(f)),
            None => None,
        },
    }
}

/// Reads the text that a record holds under `key`.
pub fn read_text(entries: &Vec<(Field, Term)>, key: Field) -> (r: Option<String>)
    ensures
        crate::text::optional_text(r) == text_in(entry_views(entries@), key),
{
    match find(entries, key) {
        Some(Term::Text(s)) => Some(s.clone()),
        _ => None,
    }
}

/// The text in an optional optional text.
pub open spec fn nested_text(text: Option<Option<String>>) -> Option<Option<Seq<char>>> {
    match text {
        Some(inner) => Some(crate::text::optional_text(inner)),
        None => None,
    }
}

/// Reads the text that a record may hold under `key`.
pub fn read_optional_text(entries: &Vec<(Field, Term)>, key: Field) -> (r: Option<Option<String>>)
    ensures
        nested_text(r) == optional_text_in(entry_views(entries@), key),
{
    match find(entries, key) {
        None => Some(None),
        Some(Term::Nil) => Some(None),
        Some(Term::Text(s)) => Some(Some(s.clone())),
        Some(_) => None,
    }
}

} // verus!

verus! {

proof fn lemma_key_i()
    ensures
        "i"@.len() == 1,
        "i"@[0] == 'i',
{
    reveal_strlit("i");
}

proof fn lemma_key_o()
    ensures
        "o"@.len() == 1,
        "o"@[0] == 'o',
{
    reveal_strlit("o");
}

proof fn lemma_key_e()
    ensures
        "e"@.len() == 1,
        "e"@[0] == 'e',
{
    reveal_strlit("e");
}

proof fn lemma_key_m()
    ensures
        "m"@.len() == 1,
        "m"@[0] == 'm',
{
    reveal_strlit("m");
}

proof fn lemma_key_r()
    ensures
        "r"@.len() == 1,
        "r"@[0] == 'r',
{
    reveal_strlit("r");
}

proof fn lemma_key_d()
    ensures
        "d"@.len() == 1,
        "d"@[0] == 'd',
{
    reveal_strlit("d");
}

proof fn lemma_key_n()
    ensures
        "n"@.len() == 1,
        "n"@[0] == 'n',
{
    reveal_strlit("n");
}

proof fn lemma_key_a()
    ensures
        "a"@.len() == 1,
        "a"@[0] == 'a',
{
    reveal_strlit("a");
}

proof fn lemma_key_email()
    ensures
        "email"@.len() == 5,
        "email"@[0] == 'e',
        "email"@[1] == 'm',
        "email"@[2] == 'a',
        "email"@[3] == 'i',
        "email"@[4] == 'l',
{
    reveal_strlit("email");
}

proof fn lemma_key_username()
    ensures
        "username"@.len() == 8,
        "username"@[0] == 'u',
        "username"@[1] == 's',
        "username"@[2] == 'e',
        "username"@[3] == 'r',
        "username"@[4] == 'n',
        "username"@[5] == 'a',
        "username"@[6] == 'm',
        "username"@[7] == 'e',
{
    reveal_strlit("username");
}

proof fn lemma_key_locale()
    ensures
        "locale"@.len() == 6,
        "locale"@[0] == 'l',
        "locale"@[1] == 'o',
        "locale"@[2] == 'c',
        "locale"@[3] == 'a',
        "locale"@[4] == 'l',
        "locale"@[5] == 'e',
{
    reveal_strlit("locale");
}

proof fn lemma_key_theme()
    ensures
        "theme"@.len() == 5,
        "theme"@[0] == 't',
        "theme"@[1] == 'h',
        "theme"@[2] == 'e',
        "theme"@[3] == 'm',
        "theme"@[4] == 'e',
{
    reveal_strlit("theme");
}

proof fn lemma_key_new_password()
    ensures
        "new_password"@.len() == 12,
        "new_password"@[0] == 'n',
        "new_password"@[1] == 'e',
        "new_password"@[2] == 'w',
        "new_password"@[3] == '_',
        "new_password"@[4] == 'p',
        "new_password"@[5] == 'a',
        "new_password"@[6] == 's',
        "new_password"@[7] == 's',
        "new_password"@[8] == 'w',
        "new_password"@[9] == 'o',
        "new_password"@[10] == 'r',
        "new_password"@[11] == 'd',
{
    reveal_strlit("new_password");
}

proof fn lemma_key_current_password()
    ensures
        "current_password"@.len() == 16,
        "current_password"@[0] == 'c',
        "current_password"@[1] == 'u',
        "current_password"@[2] == 'r',
        "current_password"@[3] == 'r',
        "current_password"@[4] == 'e',
        "current_password"@[5] == 'n',
        "current_password"@[6] == 't',
        "current_password"@[7] == '_',
        "current_password"@[8] == 'p',
        "current_password"@[9] == 'a',
        "current_password"@[10] == 's',
        "current_password"@[11] == 's',
        "current_password"@[12] == 'w',
        "current_password"@[13] == 'o',
        "current_password"@[14] == 'r',
        "current_password"@[15] == 'd',
{
    reveal_strlit("current_password");
}

proof fn lemma_key_name()
    ensures
        "name"@.len() == 4,
        "name"@[0] == 'n',
        "name"@[1] == 'a',
        "name"@[2] == 'm',
        "name"@[3] == 'e',
{
    reveal_strlit("name");
}

proof fn lemma_key_token()
    ensures
        "token"@.len() == 5,
        "token"@[0] == 't',
        "token"@[1] == 'o',
        "token"@[2] == 'k',
        "token"@[3] == 'e',
        "token"@[4] == 'n',
{
    reveal_strlit("token");
}

proof fn lemma_key_id()
    ensures
        "id"@.len() == 2,
        "id"@[0] == 'i',
        "id"@[1] == 'd',
{
    reveal_strlit("id");
}

proof fn lemma_key_maximum_average_humidity()
    ensures
        "maximum_average_humidity"@.len() == 24,
        "maximum_average_humidity"@[0] == 'm',
        "maximum_average_humidity"@[1] == 'a',
        "maximum_average_humidity"@[2] == 'x',
        "maximum_average_humidity"@[3] == 'i',
        "maximum_average_humidity"@[4] == 'm',
        "maximum_average_humidity"@[5] == 'u',
        "maximum_average_humidity"@[6] == 'm',
        "maximum_average_humidity"@[7] == '_',
        "maximum_average_humidity"@[8] == 'a',
        "maximum_average_humidity"@[9] == 'v',
        "maximum_average_humidity"@[10] == 'e',
        "maximum_average_humidity"@[11] == 'r',
        "maximum_average_humidity"@[12] == 'a',
        "maximum_average_humidity"@[13] == 'g',
        "maximum_average_humidity"@[14] == 'e',
        "maximum_average_humidity"@[15] == '_',
        "maximum_average_humidity"@[16] == 'h',
        "maximum_average_humidity"@[17] == 'u',
        "maximum_average_humidity"@[18] == 'm',
        "maximum_average_humidity"@[19] == 'i',
        "maximum_average_humidity"@[20] == 'd',
        "maximum_average_humidity"@[21] == 'i',
        "maximum_average_humidity"@[22] == 't',
        "maximum_average_humidity"@[23] == 'y',
{
    reveal_strlit("maximum_average_humidity");
}

proof fn lemma_key_minimum_average_temperature()
    ensures
        "minimum_average_temperature"@.len() == 27,
        "minimum_average_temperature"@[0] == 'm',
        "minimum_average_temperature"@[1] == 'i',
        "minimum_average_temperature"@[2] == 'n',
        "minimum_average_temperature"@[3] == 'i',
        "minimum_average_temperature"@[4] == 'm',
        "minimum_average_temperature"@[5] == 'u',
        "minimum_average_temperature"@[6] == 'm',
        "minimum_average_temperature"@[7] == '_',
        "minimum_average_temperature"@[8] == 'a',
        "minimum_average_temperature"@[9] == 'v',
        "minimum_average_temperature"@[10] == 'e',
        "minimum_average_temperature"@[11] == 'r',
        "minimum_average_temperature"@[12] == 'a',
        "minimum_average_temperature"@[13] == 'g',
        "minimum_average_temperature"@[14] == 'e',
        "minimum_average_temperature"@[15] == '_',
        "minimum_average_temperature"@[16] == 't',
        "minimum_average_temperature"@[17] == 'e',
        "minimum_average_temperature"@[18] == 'm',
        "minimum_average_temperature"@[19] == 'p',
        "minimum_average_temperature"@[20] == 'e',
        "minimum_average_temperature"@[21] == 'r',
        "minimum_average_temperature"@[22] == 'a',
        "minimum_average_temperature"@[23] == 't',
        "minimum_average_temperature"@[24] == 'u',
        "minimum_average_temperature"@[25] == 'r',
        "minimum_average_temperature"@[26] == 'e',
{
    reveal_strlit("minimum_average_temperature");
}

proof fn lemma_key_greenhouse_id()
    ensures
        "greenhouse_id"@.len() == 13,
        "greenhouse_id"@[0] == 'g',
        "greenhouse_id"@[1] == 'r',
        "greenhouse_id"@[2] == 'e',
        "greenhouse_id"@[3] == 'e',
        "greenhouse_id"@[4] == 'n',
        "greenhouse_id"@[5] == 'h',
        "greenhouse_id"@[6] == 'o',
        "greenhouse_id"@[7] == 'u',
        "greenhouse_id"@[8] == 's',
        "greenhouse_id"@[9] == 'e',
        "greenhouse_id"@[10] == '_',
        "greenhouse_id"@[11] == 'i',
        "greenhouse_id"@[12] == 'd',
{
    reveal_strlit("greenhouse_id");
}

proof fn lemma_key_maximum_data_value()
    ensures
        "maximum_data_value"@.len() == 18,
        "maximum_data_value"@[0] == 'm',
        "maximum_data_value"@[1] == 'a',
        "maximum_data_value"@[2] == 'x',
        "maximum_data_value"@[3] == 'i',
        "maximum_data_value"@[4] == 'm',
        "maximum_data_value"@[5] == 'u',
        "maximum_data_value"@[6] == 'm',
        "maximum_data_value"@[7] == '_',
        "maximum_data_value"@[8] == 'd',
        "maximum_data_value"@[9] == 'a',
        "maximum_data_value"@[10] == 't',
        "maximum_data_value"@[11] == 'a',
        "maximum_data_value"@[12] == '_',
        "maximum_data_value"@[13] == 'v',
        "maximum_data_value"@[14] == 'a',
        "maximum_data_value"@[15] == 'l',
        "maximum_data_value"@[16] == 'u',
        "maximum_data_value"@[17] == 'e',
{
    reveal_strlit("maximum_data_value");
}

proof fn lemma_key_state()
    ensures
        "state"@.len() == 5,
        "state"@[0] == 's',
        "state"@[1] == 't',
        "state"@[2] == 'a',
        "state"@[3] == 't',
        "state"@[4] == 'e',
{
    reveal_strlit("state");
}

proof fn lemma_key_data()
    ensures
        "data"@.len() == 4,
        "data"@[0] == 'd',
        "data"@[1] == 'a',
        "data"@[2] == 't',
        "data"@[3] == 'a',
{
    reveal_strlit("data");
}

proof fn lemma_key_time()
    ensures
        "time"@.len() == 4,
        "time"@[0] == 't',
        "time"@[1] == 'i',
        "time"@[2] == 'm',
        "time"@[3] == 'e',
{
    reveal_strlit("time");
}

proof fn lemma_key_device_id()
    ensures
        "device_id"@.len() == 9,
        "device_id"@[0] == 'd',
        "device_id"@[1] == 'e',
        "device_id"@[2] == 'v',
        "device_id"@[3] == 'i',
        "device_id"@[4] == 'c',
        "device_id"@[5] == 'e',
        "device_id"@[6] == '_',
        "device_id"@[7] == 'i',
        "device_id"@[8] == 'd',
{
    reveal_strlit("device_id");
}

proof fn lemma_key_range()
    ensures
        "range"@.len() == 5,
        "range"@[0] == 'r',
        "range"@[1] == 'a',
        "range"@[2] == 'n',
        "range"@[3] == 'g',
        "range"@[4] == 'e',
{
    reveal_strlit("range");
}

proof fn lemma_key_created_at()
    ensures
        "created_at"@.len() == 10,
        "created_at"@[0] == 'c',
        "created_at"@[1] == 'r',
        "created_at"@[2] == 'e',
        "created_at"@[3] == 'a',
        "created_at"@[4] == 't',
        "created_at"@[5] == 'e',
        "created_at"@[6] == 'd',
        "created_at"@[7] == '_',
        "created_at"@[8] == 'a',
        "created_at"@[9] == 't',
{
    reveal_strlit("created_at");
}

proof fn lemma_key_greenhouses()
    ensures
        "greenhouses"@.len() == 11,
        "greenhouses"@[0] == 'g',
        "greenhouses"@[1] == 'r',
        "greenhouses"@[2] == 'e',
        "greenhouses"@[3] == 'e',
        "greenhouses"@[4] == 'n',
        "greenhouses"@[5] == 'h',
        "greenhouses"@[6] == 'o',
        "greenhouses"@[7] == 'u',
        "greenhouses"@[8] == 's',
        "greenhouses"@[9] == 'e',
        "greenhouses"@[10] == 's',
{
    reveal_strlit("greenhouses");
}

proof fn lemma_key_owner_id()
    ensures
        "owner_id"@.len() == 8,
        "owner_id"@[0] == 'o',
        "owner_id"@[1] == 'w',
        "owner_id"@[2] == 'n',
        "owner_id"@[3] == 'e',
        "owner_id"@[4] == 'r',
        "owner_id"@[5] == '_',
        "owner_id"@[6] == 'i',
        "owner_id"@[7] == 'd',
{
    reveal_strlit("owner_id");
}

proof fn lemma_key_external_id()
    ensures
        "external_id"@.len() == 11,
        "external_id"@[0] == 'e',
        "external_id"@[1] == 'x',
        "external_id"@[2] == 't',
        "external_id"@[3] == 'e',
        "external_id"@[4] == 'r',
        "external_id"@[5] == 'n',
        "external_id"@[6] == 'a',
        "external_id"@[7] == 'l',
        "external_id"@[8] == '_',
        "external_id"@[9] == 'i',
        "external_id"@[10] == 'd',
{
    reveal_strlit("external_id");
}

proof fn lemma_key_status()
    ensures
        "status"@.len() == 6,
        "status"@[0] == 's',
        "status"@[1] == 't',
        "status"@[2] == 'a',
        "status"@[3] == 't',
        "status"@[4] == 'u',
        "status"@[5] == 's',
{
    reveal_strlit("status");
}

proof fn lemma_key_kind()
    ensures
        "kind"@.len() == 4,
        "kind"@[0] == 'k',
        "kind"@[1] == 'i',
        "kind"@[2] == 'n',
        "kind"@[3] == 'd',
{
    reveal_strlit("kind");
}

proof fn lemma_key_latest_data()
    ensures
        "latest_data"@.len() == 11,
        "latest_data"@[0] == 'l',
        "latest_data"@[1] == 'a',
        "latest_data"@[2] == 't',
        "latest_data"@[3] == 'e',
        "latest_data"@[4] == 's',
        "latest_data"@[5] == 't',
        "latest_data"@[6] == '_',
        "latest_data"@[7] == 'd',
        "latest_data"@[8] == 'a',
        "latest_data"@[9] == 't',
        "latest_data"@[10] == 'a',
{
    reveal_strlit("latest_data");
}

proof fn lemma_key_quantity()
    ensures
        "quantity"@.len() == 8,
        "quantity"@[0] == 'q',
        "quantity"@[1] == 'u',
        "quantity"@[2] == 'a',
        "quantity"@[3] == 'n',
        "quantity"@[4] == 't',
        "quantity"@[5] == 'i',
        "quantity"@[6] == 't',
        "quantity"@[7] == 'y',
{
    reveal_strlit("quantity");
}

proof fn lemma_key_records()
    ensures
        "records"@.len() == 7,
        "records"@[0] == 'r',
        "records"@[1] == 'e',
        "records"@[2] == 'c',
        "records"@[3] == 'o',
        "records"@[4] == 'r',
        "records"@[5] == 'd',
        "records"@[6] == 's',
{
    reveal_strlit("records");
}

proof fn lemma_key_code()
    ensures
        "code"@.len() == 4,
        "code"@[0] == 'c',
        "code"@[1] == 'o',
        "code"@[2] == 'd',
        "code"@[3] == 'e',
{
    reveal_strlit("code");
}

proof fn lemma_key_message()
    ensures
        "message"@.len() == 7,
        "message"@[0] == 'm',
        "message"@[1] == 'e',
        "message"@[2] == 's',
        "message"@[3] == 's',
        "message"@[4] == 'a',
        "message"@[5] == 'g',
        "message"@[6] == 'e',
{
    reveal_strlit("message");
}

proof fn lemma_key_dispatch_data()
    ensures
        "dispatch_data"@.len() == 13,
        "dispatch_data"@[0] == 'd',
        "dispatch_data"@[1] == 'i',
        "dispatch_data"@[2] == 's',
        "dispatch_data"@[3] == 'p',
        "dispatch_data"@[4] == 'a',
        "dispatch_data"@[5] == 't',
        "dispatch_data"@[6] == 'c',
        "dispatch_data"@[7] == 'h',
        "dispatch_data"@[8] == '_',
        "dispatch_data"@[9] == 'd',
        "dispatch_data"@[10] == 'a',
        "dispatch_data"@[11] == 't',
        "dispatch_data"@[12] == 'a',
{
    reveal_strlit("dispatch_data");
}

proof fn lemma_key_request_data()
    ensures
        "request_data"@.len() == 12,
        "request_data"@[0] == 'r',
        "request_data"@[1] == 'e',
        "request_data"@[2] == 'q',
        "request_data"@[3] == 'u',
        "request_data"@[4] == 'e',
        "request_data"@[5] == 's',
        "request_data"@[6] == 't',
        "request_data"@[7] == '_',
        "request_data"@[8] == 'd',
        "request_data"@[9] == 'a',
        "request_data"@[10] == 't',
        "request_data"@[11] == 'a',
{
    reveal_strlit("request_data");
}

proof fn lemma_key_change_controller_state()
    ensures
        "change_controller_state"@.len() == 23,
        "change_controller_state"@[0] == 'c',
        "change_controller_state"@[1] == 'h',
        "change_controller_state"@[2] == 'a',
        "change_controller_state"@[3] == 'n',
        "change_controller_state"@[4] == 'g',
        "change_controller_state"@[5] == 'e',
        "change_controller_state"@[6] == '_',
        "change_controller_state"@[7] == 'c',
        "change_controller_state"@[8] == 'o',
        "change_controller_state"@[9] == 'n',
        "change_controller_state"@[10] == 't',
        "change_controller_state"@[11] == 'r',
        "change_controller_state"@[12] == 'o',
        "change_controller_state"@[13] == 'l',
        "change_controller_state"@[14] == 'l',
        "change_controller_state"@[15] == 'e',
        "change_controller_state"@[16] == 'r',
        "change_controller_state"@[17] == '_',
        "change_controller_state"@[18] == 's',
        "change_controller_state"@[19] == 't',
        "change_controller_state"@[20] == 'a',
        "change_controller_state"@[21] == 't',
        "change_controller_state"@[22] == 'e',
{
    reveal_strlit("change_controller_state");
}

proof fn lemma_key_dispatch_device()
    ensures
        "dispatch_device"@.len() == 15,
        "dispatch_device"@[0] == 'd',
        "dispatch_device"@[1] == 'i',
        "dispatch_device"@[2] == 's',
        "dispatch_device"@[3] == 'p',
        "dispatch_device"@[4] == 'a',
        "dispatch_device"@[5] == 't',
        "dispatch_device"@[6] == 'c',
        "dispatch_device"@[7] == 'h',
        "dispatch_device"@[8] == '_',
        "dispatch_device"@[9] == 'd',
        "dispatch_device"@[10] == 'e',
        "dispatch_device"@[11] == 'v',
        "dispatch_device"@[12] == 'i',
        "dispatch_device"@[13] == 'c',
        "dispatch_device"@[14] == 'e',
{
    reveal_strlit("dispatch_device");
}

impl Field {
    /// The key that a field is written as names that field.
    pub proof fn lemma_label_round_trip(self)
        ensures
            Self::of_label(self.label()) == Some(self),
    {
        lemma_key_i();
        lemma_key_o();
        lemma_key_e();
        lemma_key_m();
        lemma_key_r();
        lemma_key_d();
        lemma_key_n();
        lemma_key_a();
        lemma_key_email();
        lemma_key_username();
        lemma_key_locale();
        lemma_key_theme();
        lemma_key_new_password();
        lemma_key_current_password();
        lemma_key_name();
        lemma_key_token();
        lemma_key_id();
        lemma_key_maximum_average_humidity();
        lemma_key_minimum_average_temperature();
        lemma_key_greenhouse_id();
        lemma_key_maximum_data_value();
        lemma_key_state();
        lemma_key_data();
        lemma_key_time();
        lemma_key_device_id();
        lemma_key_range();
        lemma_key_created_at();
        lemma_key_greenhouses();
        lemma_key_owner_id();
        lemma_key_external_id();
        lemma_key_status();
        lemma_key_kind();
        lemma_key_latest_data();
        lemma_key_quantity();
        lemma_key_records();
        lemma_key_code();
        lemma_key_message();
        lemma_key_dispatch_data();
        lemma_key_request_data();
        lemma_key_change_controller_state();
        lemma_key_dispatch_device();
    }
}

} // verus!
