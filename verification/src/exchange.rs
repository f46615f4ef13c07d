//! The vocabulary between the library and whoever drives it: queries and
//! answers, effects and steps.

use vstd::prelude::*;
use vstd::string::*;
use crate::error::{error_of, WebSocketError, WebSocketErrorView};
use crate::messages::{
    reply_envelope, AmqpPayload, AuthorizationMessage, DispatchEvent, DispatchMessage,
    DispatchMessageView, WebSocketMessage, WebSocketMessageView,
};
use crate::model::{
    Device, DeviceRecord, DeviceStatus, Greenhouse, Session, User, UserLocale, UserMe,
    UserPublic, UserTheme,
};
use crate::numbers::F64Bits;
use crate::templates::{WebSocketCloseError, WebSocketErrorTemplate};
use crate::text::optional_text;

verus! {

/// What the library asks of its collaborators: the datastore, the resolver
/// of mail domains, the password hasher and the clock. The caller performs
/// the query and hands back an [`Answer`].
#[derive(Debug)]
pub enum Query {
    /// The session with this id.
    SessionById { id: i64 },
    /// The session that this token opens.
    SessionByToken { token: String },
    /// The user with this id.
    UserById { id: i64 },
    /// The user with this email address.
    UserByEmail { email: String },
    /// The user with this name.
    UserByUsername { username: String },
    /// What everybody may see of the user, with the number of their greenhouses.
    UserPublicById { id: i64 },
    /// What the user may see of themselves, with the number of their greenhouses.
    UserMeById { id: i64 },
    /// Store new credentials and preferences; answers with the user as stored.
    UserHardUpdate {
        id: i64,
        email: String,
        password_hash: String,
        username: String,
        locale: UserLocale,
        theme: UserTheme,
    },
    /// Store new preferences; answers with the user as stored.
    UserSoftUpdate {
        id: i64,
        locale: UserLocale,
        theme: UserTheme,
    },
    /// The greenhouse with this id.
    GreenhouseById { id: i64 },
    /// The greenhouse with this id, if this user owns it.
    GreenhouseByIdAndOwner { id: i64, owner_id: i64 },
    /// The greenhouse with this token.
    GreenhouseByToken { token: String },
    /// All greenhouses of this user.
    GreenhousesByOwner { owner_id: i64 },
    /// The number of greenhouses of this user.
    GreenhouseCountByOwner { owner_id: i64 },
    /// Store a new greenhouse; answers with it as stored.
    GreenhouseCreate {
        name: String,
        token: String,
        owner_id: i64,
    },
    /// Store new settings of a greenhouse; answers with it as stored.
    GreenhouseUpdate {
        id: i64,
        name: String,
        token: String,
        maximum_average_humidity: Option<F64Bits>,
        minimum_average_temperature: Option<F64Bits>,
    },
    /// Delete a greenhouse; answers with the number of rows deleted.
    GreenhouseDelete { id: i64 },
    /// The device with this id.
    DeviceById { id: i64 },
    /// The device with this id, if it stands in this greenhouse.
    DeviceByIdAndGreenhouse { id: i64, greenhouse_id: i64 },
    /// All devices of this greenhouse.
    DevicesByGreenhouse { greenhouse_id: i64 },
    /// Store a new name and limit of a device; answers with it as stored.
    DeviceUpdate {
        id: i64,
        name: Option<String>,
        maximum_data_value: Option<F64Bits>,
    },
    /// Clear the names of all devices of a greenhouse.
    DeviceNamesReset { greenhouse_id: i64 },
    /// Store a new status of a device; answers with it as stored.
    DeviceStatusUpdate { id: i64, status: DeviceStatus },
    /// Store a reading taken at the given second; answers with it as stored.
    DeviceRecordCreate {
        device_id: i64,
        data: F64Bits,
        time: u64,
    },
    /// The latest reading of this device.
    DeviceRecordLatest { device_id: i64 },
    /// The number of readings of this device.
    DeviceRecordCount { device_id: i64 },
    /// The average reading of this device between two seconds, both included, cut to hundredths.
    DeviceRecordAverage {
        device_id: i64,
        from: u64,
        until: u64,
    },
    /// The number of mail exchangers that this domain names.
    MxRecords { domain: String },
    /// Whether the password matches the hash.
    PasswordVerify { password: String, password_hash: String },
    /// The hash of a password under a fresh salt.
    PasswordHash { password: String },
    /// The current time, in seconds since the Unix epoch.
    Clock,
}

/// Mathematical value of a [`Query`].
pub enum QueryView {
    SessionById { id: i64 },
    SessionByToken { token: Seq<char> },
    UserById { id: i64 },
    UserByEmail { email: Seq<char> },
    UserByUsername { username: Seq<char> },
    UserPublicById { id: i64 },
    UserMeById { id: i64 },
    UserHardUpdate {
        id: i64,
        email: Seq<char>,
        password_hash: Seq<char>,
        username: Seq<char>,
        locale: UserLocale,
        theme: UserTheme,
    },
    UserSoftUpdate {
        id: i64,
        locale: UserLocale,
        theme: UserTheme,
    },
    GreenhouseById { id: i64 },
    GreenhouseByIdAndOwner { id: i64, owner_id: i64 },
    GreenhouseByToken { token: Seq<char> },
    GreenhousesByOwner { owner_id: i64 },
    GreenhouseCountByOwner { owner_id: i64 },
    GreenhouseCreate {
        name: Seq<char>,
        token: Seq<char>,
        owner_id: i64,
    },
    GreenhouseUpdate {
        id: i64,
        name: Seq<char>,
        token: Seq<char>,
        maximum_average_humidity: Option<F64Bits>,
        minimum_average_temperature: Option<F64Bits>,
    },
    GreenhouseDelete { id: i64 },
    DeviceById { id: i64 },
    DeviceByIdAndGreenhouse { id: i64, greenhouse_id: i64 },
    DevicesByGreenhouse { greenhouse_id: i64 },
    DeviceUpdate {
        id: i64,
        name: Option<Seq<char>>,
        maximum_data_value: Option<F64Bits>,
    },
    DeviceNamesReset { greenhouse_id: i64 },
    DeviceStatusUpdate { id: i64, status: DeviceStatus },
    DeviceRecordCreate {
        device_id: i64,
        data: F64Bits,
        time: u64,
    },
    DeviceRecordLatest { device_id: i64 },
    DeviceRecordCount { device_id: i64 },
    DeviceRecordAverage {
        device_id: i64,
        from: u64,
        until: u64,
    },
    MxRecords { domain: Seq<char> },
    PasswordVerify { password: Seq<char>, password_hash: Seq<char> },
    PasswordHash { password: Seq<char> },
    Clock,
}

impl View for Query {
    type V = QueryView;

    open spec fn view(&self) -> QueryView {
        match *self {
            Query::SessionById { id } => QueryView::SessionById { id },
            Query::SessionByToken { token } => QueryView::SessionByToken { token: token@ },
            Query::UserById { id } => QueryView::UserById { id },
            Query::UserByEmail { email } => QueryView::UserByEmail { email: email@ },
            Query::UserByUsername { username } => QueryView::UserByUsername {
                username: username@,
            },
            Query::UserPublicById { id } => QueryView::UserPublicById { id },
            Query::UserMeById { id } => QueryView::UserMeById { id },
            Query::UserHardUpdate { id, email, password_hash, username, locale, theme } => QueryView::UserHardUpdate {
                id,
                email: email@,
                password_hash: password_hash@,
                username: username@,
                locale,
                theme,
            },
            Query::UserSoftUpdate { id, locale, theme } => QueryView::UserSoftUpdate {
                id,
                locale,
                theme,
            },
            Query::GreenhouseById { id } => QueryView::GreenhouseById { id },
            Query::GreenhouseByIdAndOwner { id, owner_id } => QueryView::GreenhouseByIdAndOwner {
                id,
                owner_id,
            },
            Query::GreenhouseByToken { token } => QueryView::GreenhouseByToken { token: token@ },
            Query::GreenhousesByOwner { owner_id } => QueryView::GreenhousesByOwner { owner_id },
            Query::GreenhouseCountByOwner { owner_id } => QueryView::GreenhouseCountByOwner {
                owner_id,
            },
            Query::GreenhouseCreate { name, token, owner_id } => QueryView::GreenhouseCreate {
                name: name@,
                token: token@,
                owner_id,
            },
            Query::GreenhouseUpdate { id, name, token, maximum_average_humidity, minimum_average_temperature } => QueryView::GreenhouseUpdate {
                id,
                name: name@,
                token: token@,
                maximum_average_humidity,
                minimum_average_temperature,
            },
            Query::GreenhouseDelete { id } => QueryView::GreenhouseDelete { id },
            Query::DeviceById { id } => QueryView::DeviceById { id },
            Query::DeviceByIdAndGreenhouse { id, greenhouse_id } => QueryView::DeviceByIdAndGreenhouse {
                id,
                greenhouse_id,
            },
            Query::DevicesByGreenhouse { greenhouse_id } => QueryView::DevicesByGreenhouse {
                greenhouse_id,
            },
            Query::DeviceUpdate { id, name, maximum_data_value } => QueryView::DeviceUpdate {
                id,
                name: optional_text(name),
                maximum_data_value,
            },
            Query::DeviceNamesReset { greenhouse_id } => QueryView::DeviceNamesReset {
                greenhouse_id,
            },
            Query::DeviceStatusUpdate { id, status } => QueryView::DeviceStatusUpdate {
                id,
                status,
            },
            Query::DeviceRecordCreate { device_id, data, time } => QueryView::DeviceRecordCreate {
                device_id,
                data,
                time,
            },
            Query::DeviceRecordLatest { device_id } => QueryView::DeviceRecordLatest { device_id },
            Query::DeviceRecordCount { device_id } => QueryView::DeviceRecordCount { device_id },
            Query::DeviceRecordAverage { device_id, from, until } => QueryView::DeviceRecordAverage {
                device_id,
                from,
                until,
            },
            Query::MxRecords { domain } => QueryView::MxRecords { domain: domain@ },
            Query::PasswordVerify { password, password_hash } => QueryView::PasswordVerify {
                password: password@,
                password_hash: password_hash@,
            },
            Query::PasswordHash { password } => QueryView::PasswordHash { password: password@ },
            Query::Clock => QueryView::Clock,
        }
    }
}

/// What a collaborator handed back.
#[derive(Debug)]
pub enum Answer {
    Session(Session),
    User(User),
    UserPublic(UserPublic),
    UserMe(UserMe),
    Greenhouse(Greenhouse),
    Greenhouses(Vec<Greenhouse>),
    Device(Device),
    Devices(Vec<Device>),
    DeviceRecord(DeviceRecord),
    Count(i64),
    Average(Option<F64Bits>),
    Verdict(bool),
    Text(String),
    Time(u64),
    /// The collaborator could not do what was asked.
    Failed(WebSocketError),
}

/// What a handler wants done once it has decided.
#[derive(Debug)]
pub enum Effect {
    /// Hand an envelope to the registry, to be routed to its connection.
    Send(WebSocketMessage),
    /// Hand a dispatch to the registry.
    Dispatch(DispatchMessage),
    /// Tell the registry that the connection has authenticated.
    Authorize(AuthorizationMessage),
    /// Publish a payload on the bus.
    Publish { exchange: &'static str, routing_key: &'static str, payload: AmqpPayload },
    /// Close the socket with one of the application's close codes.
    Close(WebSocketCloseError),
    /// Close the socket in the ordinary way, without a reason.
    CloseNormal,
    /// Close the socket with the reason that the peer gave for closing.
    CloseEcho,
    /// Drop the connection without a closing handshake.
    Hangup,
    /// Push an envelope straight to the peer of the connection at hand.
    Reply(WebSocketMessage),
    /// Report an error to the peer, after what was done before it.
    Fail(WebSocketError),
}

/// Mathematical value of an [`Effect`].
pub enum EffectView {
    Send(WebSocketMessageView),
    Dispatch(DispatchMessageView),
    Authorize { id: i64, connection_id: i64, token: Seq<char> },
    Publish { exchange: Seq<char>, routing_key: Seq<char>, payload: AmqpPayload },
    Close(WebSocketCloseError),
    CloseNormal,
    CloseEcho,
    Hangup,
    Reply(WebSocketMessageView),
    Fail(WebSocketErrorView),
}

impl View for Effect {
    type V = EffectView;

    open spec fn view(&self) -> EffectView {
        match *self {
            Effect::Send(message) => EffectView::Send(message@),
            Effect::Dispatch(message) => EffectView::Dispatch(message@),
            Effect::Authorize(message) => EffectView::Authorize {
                id: message.id,
                connection_id: message.connection_id,
                token: message.token@,
            },
            Effect::Publish { exchange, routing_key, payload } => EffectView::Publish {
                exchange: exchange@,
                routing_key: routing_key@,
                payload,
            },
            Effect::Close(error) => EffectView::Close(error),
            Effect::CloseNormal => EffectView::CloseNormal,
            Effect::CloseEcho => EffectView::CloseEcho,
            Effect::Hangup => EffectView::Hangup,
            Effect::Reply(message) => EffectView::Reply(message@),
            Effect::Fail(error) => EffectView::Fail(error@),
        }
    }
}

/// The views of a list of effects, in order.
pub open spec fn effect_views(effects: Seq<Effect>) -> Seq<EffectView> {
    Seq::new(effects.len(), |i: int| effects[i]@)
}

/// Where a handler stands: it needs something, it has decided, or it gave
/// up with an error that the connection reports to its peer.
#[derive(Debug)]
pub enum Step {
    Ask(Query),
    Done(Vec<Effect>),
    Failed(WebSocketError),
}

/// Mathematical value of a [`Step`].
pub enum StepView {
    Ask(QueryView),
    Done(Seq<EffectView>),
    Failed(WebSocketErrorView),
}

impl View for Step {
    type V = StepView;

    open spec fn view(&self) -> StepView {
        match *self {
            Step::Ask(query) => StepView::Ask(query@),
            Step::Done(effects) => StepView::Done(effect_views(effects@)),
            Step::Failed(error) => StepView::Failed(error@),
        }
    }
}

} // verus!

verus! {

/// The error for an answer of another kind than the query called for.
pub open spec fn unexpected_answer() -> WebSocketErrorView {
    error_of(500, None, "Unexpected answer"@, None)
}

/// Builds the error for an answer of another kind than the query called
/// for.
pub fn unexpected() -> (r: WebSocketError)
    ensures
        r@ == unexpected_answer(),
{
    WebSocketError::new(500, None, String::from_str("Unexpected answer"), None)
}

/// Either the step at which a handler stops, or the value it goes on
/// with.
pub enum Progress<T> {
    Stop(Step),
    Go(T),
}

/// Mathematical value of a [`Progress`].
pub enum ProgressView<T> {
    Stop(StepView),
    Go(T),
}

/// The step that stops a handler on an answer that is no value: the
/// collaborator's own error, or the error for an answer of the wrong kind.
pub open spec fn refusal(answer: Answer) -> StepView {
    match answer {
        Answer::Failed(error) => StepView::Failed(error@),
        _ => StepView::Failed(unexpected_answer()),
    }
}

/// Builds the step that stops a handler on an answer that is no value.
pub fn refuse(answer: &Answer) -> (r: Step)
    ensures
        r@ == refusal(*answer),
{
    match answer {
        Answer::Failed(error) => Step::Failed(error.clone()),
        _ => Step::Failed(unexpected()),
    }
}

/// The session that answer `at` holds, or the step that stops the handler: the
/// query, where the answer is not there yet; an error, where it holds
/// something else.
pub open spec fn asked_session(query: QueryView, answers: Seq<Answer>, at: int) -> ProgressView<Session> {
    if answers.len() <= at {
        ProgressView::Stop(StepView::Ask(query))
    } else {
        match answers[at] {
            Answer::Session(value) => ProgressView::Go(value),
            other => ProgressView::Stop(refusal(other)),
        }
    }
}

pub fn ask_session<'a>(query: Query, answers: &'a Vec<Answer>, at: usize) -> (r: Progress<&'a Session>)
    ensures
        match r {
            Progress::Stop(step) => asked_session(query@, answers@, at as int) == ProgressView::<
                Session,
            >::Stop(step@),
            Progress::Go(v) => asked_session(query@, answers@, at as int) == ProgressView::Go(*v),
        },
{
    if answers.len() <= at {
        Progress::Stop(Step::Ask(query))
    } else {
        match &answers[at] {
            Answer::Session(value) => Progress::Go(value),
            other => Progress::Stop(refuse(other)),
        }
    }
}

/// The user that answer `at` holds, or the step that stops the handler: the
/// query, where the answer is not there yet; an error, where it holds
/// something else.
pub open spec fn asked_user(query: QueryView, answers: Seq<Answer>, at: int) -> ProgressView<User> {
    if answers.len() <= at {
        ProgressView::Stop(StepView::Ask(query))
    } else {
        match answers[at] {
            Answer::User(value) => ProgressView::Go(value),
            other => ProgressView::Stop(refusal(other)),
        }
    }
}

pub fn ask_user<'a>(query: Query, answers: &'a Vec<Answer>, at: usize) -> (r: Progress<&'a User>)
    ensures
        match r {
            Progress::Stop(step) => asked_user(query@, answers@, at as int) == ProgressView::<
                User,
            >::Stop(step@),
            Progress::Go(v) => asked_user(query@, answers@, at as int) == ProgressView::Go(*v),
        },
{
    if answers.len() <= at {
        Progress::Stop(Step::Ask(query))
    } else {
        match &answers[at] {
            Answer::User(value) => Progress::Go(value),
            other => Progress::Stop(refuse(other)),
        }
    }
}

/// The user public that answer `at` holds, or the step that stops the handler: the
/// query, where the answer is not there yet; an error, where it holds
/// something else.
pub open spec fn asked_user_public(query: QueryView, answers: Seq<Answer>, at: int) -> ProgressView<UserPublic> {
    if answers.len() <= at {
        ProgressView::Stop(StepView::Ask(query))
    } else {
        match answers[at] {
            Answer::UserPublic(value) => ProgressView::Go(value),
            other => ProgressView::Stop(refusal(other)),
        }
    }
}

pub fn ask_user_public<'a>(query: Query, answers: &'a Vec<Answer>, at: usize) -> (r: Progress<&'a UserPublic>)
    ensures
        match r {
            Progress::Stop(step) => asked_user_public(query@, answers@, at as int) == ProgressView::<
                UserPublic,
            >::Stop(step@),
            Progress::Go(v) => asked_user_public(query@, answers@, at as int) == ProgressView::Go(*v),
        },
{
    if answers.len() <= at {
        Progress::Stop(Step::Ask(query))
    } else {
        match &answers[at] {
            Answer::UserPublic(value) => Progress::Go(value),
            other => Progress::Stop(refuse(other)),
        }
    }
}

/// The user me that answer `at` holds, or the step that stops the handler: the
/// query, where the answer is not there yet; an error, where it holds
/// something else.
pub open spec fn asked_user_me(query: QueryView, answers: Seq<Answer>, at: int) -> ProgressView<UserMe> {
    if answers.len() <= at {
        ProgressView::Stop(StepView::Ask(query))
    } else {
        match answers[at] {
            Answer::UserMe(value) => ProgressView::Go(value),
            other => ProgressView::Stop(refusal(other)),
        }
    }
}

pub fn ask_user_me<'a>(query: Query, answers: &'a Vec<Answer>, at: usize) -> (r: Progress<&'a UserMe>)
    ensures
        match r {
            Progress::Stop(step) => asked_user_me(query@, answers@, at as int) == ProgressView::<
                UserMe,
            >::Stop(step@),
            Progress::Go(v) => asked_user_me(query@, answers@, at as int) == ProgressView::Go(*v),
        },
{
    if answers.len() <= at {
        Progress::Stop(Step::Ask(query))
    } else {
        match &answers[at] {
            Answer::UserMe(value) => Progress::Go(value),
            other => Progress::Stop(refuse(other)),
        }
    }
}

/// The greenhouse that answer `at` holds, or the step that stops the handler: the
/// query, where the answer is not there yet; an error, where it holds
/// something else.
pub open spec fn asked_greenhouse(query: QueryView, answers: Seq<Answer>, at: int) -> ProgressView<Greenhouse> {
    if answers.len() <= at {
        ProgressView::Stop(StepView::Ask(query))
    } else {
        match answers[at] {
            Answer::Greenhouse(value) => ProgressView::Go(value),
            other => ProgressView::Stop(refusal(other)),
        }
    }
}

pub fn ask_greenhouse<'a>(query: Query, answers: &'a Vec<Answer>, at: usize) -> (r: Progress<&'a Greenhouse>)
    ensures
        match r {
            Progress::Stop(step) => asked_greenhouse(query@, answers@, at as int) == ProgressView::<
                Greenhouse,
            >::Stop(step@),
            Progress::Go(v) => asked_greenhouse(query@, answers@, at as int) == ProgressView::Go(*v),
        },
{
    if answers.len() <= at {
        Progress::Stop(Step::Ask(query))
    } else {
        match &answers[at] {
            Answer::Greenhouse(value) => Progress::Go(value),
            other => Progress::Stop(refuse(other)),
        }
    }
}

/// The greenhouses that answer `at` holds, or the step that stops the handler: the
/// query, where the answer is not there yet; an error, where it holds
/// something else.
pub open spec fn asked_greenhouses(query: QueryView, answers: Seq<Answer>, at: int) -> ProgressView<Vec<Greenhouse>> {
    if answers.len() <= at {
        ProgressView::Stop(StepView::Ask(query))
    } else {
        match answers[at] {
            Answer::Greenhouses(value) => ProgressView::Go(value),
            other => ProgressView::Stop(refusal(other)),
        }
    }
}

pub fn ask_greenhouses<'a>(query: Query, answers: &'a Vec<Answer>, at: usize) -> (r: Progress<&'a Vec<Greenhouse>>)
    ensures
        match r {
            Progress::Stop(step) => asked_greenhouses(query@, answers@, at as int) == ProgressView::<
                Vec<Greenhouse>,
            >::Stop(step@),
            Progress::Go(v) => asked_greenhouses(query@, answers@, at as int) == ProgressView::Go(*v),
        },
{
    if answers.len() <= at {
        Progress::Stop(Step::Ask(query))
    } else {
        match &answers[at] {
            Answer::Greenhouses(value) => Progress::Go(value),
            other => Progress::Stop(refuse(other)),
        }
    }
}

/// The device that answer `at` holds, or the step that stops the handler: the
/// query, where the answer is not there yet; an error, where it holds
/// something else.
pub open spec fn asked_device(query: QueryView, answers: Seq<Answer>, at: int) -> ProgressView<Device> {
    if answers.len() <= at {
        ProgressView::Stop(StepView::Ask(query))
    } else {
        match answers[at] {
            Answer::Device(value) => ProgressView::Go(value),
            other => ProgressView::Stop(refusal(other)),
        }
    }
}

pub fn ask_device<'a>(query: Query, answers: &'a Vec<Answer>, at: usize) -> (r: Progress<&'a Device>)
    ensures
        match r {
            Progress::Stop(step) => asked_device(query@, answers@, at as int) == ProgressView::<
                Device,
            >::Stop(step@),
            Progress::Go(v) => asked_device(query@, answers@, at as int) == ProgressView::Go(*v),
        },
{
    if answers.len() <= at {
        Progress::Stop(Step::Ask(query))
    } else {
        match &answers[at] {
            Answer::Device(value) => Progress::Go(value),
            other => Progress::Stop(refuse(other)),
        }
    }
}

/// The devices that answer `at` holds, or the step that stops the handler: the
/// query, where the answer is not there yet; an error, where it holds
/// something else.
pub open spec fn asked_devices(query: QueryView, answers: Seq<Answer>, at: int) -> ProgressView<Vec<Device>> {
    if answers.len() <= at {
        ProgressView::Stop(StepView::Ask(query))
    } else {
        match answers[at] {
            Answer::Devices(value) => ProgressView::Go(value),
            other => ProgressView::Stop(refusal(other)),
        }
    }
}

pub fn ask_devices<'a>(query: Query, answers: &'a Vec<Answer>, at: usize) -> (r: Progress<&'a Vec<Device>>)
    ensures
        match r {
            Progress::Stop(step) => asked_devices(query@, answers@, at as int) == ProgressView::<
                Vec<Device>,
            >::Stop(step@),
            Progress::Go(v) => asked_devices(query@, answers@, at as int) == ProgressView::Go(*v),
        },
{
    if answers.len() <= at {
        Progress::Stop(Step::Ask(query))
    } else {
        match &answers[at] {
            Answer::Devices(value) => Progress::Go(value),
            other => Progress::Stop(refuse(other)),
        }
    }
}

/// The device record that answer `at` holds, or the step that stops the handler: the
/// query, where the answer is not there yet; an error, where it holds
/// something else.
pub open spec fn asked_device_record(query: QueryView, answers: Seq<Answer>, at: int) -> ProgressView<DeviceRecord> {
    if answers.len() <= at {
        ProgressView::Stop(StepView::Ask(query))
    } else {
        match answers[at] {
            Answer::DeviceRecord(value) => ProgressView::Go(value),
            other => ProgressView::Stop(refusal(other)),
        }
    }
}

pub fn ask_device_record<'a>(query: Query, answers: &'a Vec<Answer>, at: usize) -> (r: Progress<DeviceRecord>)
    ensures
        match r {
            Progress::Stop(step) => asked_device_record(query@, answers@, at as int) == ProgressView::<
                DeviceRecord,
            >::Stop(step@),
            Progress::Go(v) => asked_device_record(query@, answers@, at as int) == ProgressView::Go(v),
        },
{
    if answers.len() <= at {
        Progress::Stop(Step::Ask(query))
    } else {
        match &answers[at] {
            Answer::DeviceRecord(value) => Progress::Go(*value),
            other => Progress::Stop(refuse(other)),
        }
    }
}

/// The count that answer `at` holds, or the step that stops the handler: the
/// query, where the answer is not there yet; an error, where it holds
/// something else.
pub open spec fn asked_count(query: QueryView, answers: Seq<Answer>, at: int) -> ProgressView<i64> {
    if answers.len() <= at {
        ProgressView::Stop(StepView::Ask(query))
    } else {
        match answers[at] {
            Answer::Count(value) => ProgressView::Go(value),
            other => ProgressView::Stop(refusal(other)),
        }
    }
}

pub fn ask_count<'a>(query: Query, answers: &'a Vec<Answer>, at: usize) -> (r: Progress<i64>)
    ensures
        match r {
            Progress::Stop(step) => asked_count(query@, answers@, at as int) == ProgressView::<
                i64,
            >::Stop(step@),
            Progress::Go(v) => asked_count(query@, answers@, at as int) == ProgressView::Go(v),
        },
{
    if answers.len() <= at {
        Progress::Stop(Step::Ask(query))
    } else {
        match &answers[at] {
            Answer::Count(value) => Progress::Go(*value),
            other => Progress::Stop(refuse(other)),
        }
    }
}

/// The average that answer `at` holds, or the step that stops the handler: the
/// query, where the answer is not there yet; an error, where it holds
/// something else.
pub open spec fn asked_average(query: QueryView, answers: Seq<Answer>, at: int) -> ProgressView<Option<F64Bits>> {
    if answers.len() <= at {
        ProgressView::Stop(StepView::Ask(query))
    } else {
        match answers[at] {
            Answer::Average(value) => ProgressView::Go(value),
            other => ProgressView::Stop(refusal(other)),
        }
    }
}

pub fn ask_average<'a>(query: Query, answers: &'a Vec<Answer>, at: usize) -> (r: Progress<Option<F64Bits>>)
    ensures
        match r {
            Progress::Stop(step) => asked_average(query@, answers@, at as int) == ProgressView::<
                Option<F64Bits>,
            >::Stop(step@),
            Progress::Go(v) => asked_average(query@, answers@, at as int) == ProgressView::Go(v),
        },
{
    if answers.len() <= at {
        Progress::Stop(Step::Ask(query))
    } else {
        match &answers[at] {
            Answer::Average(value) => Progress::Go(*value),
            other => Progress::Stop(refuse(other)),
        }
    }
}

/// The verdict that answer `at` holds, or the step that stops the handler: the
/// query, where the answer is not there yet; an error, where it holds
/// something else.
pub open spec fn asked_verdict(query: QueryView, answers: Seq<Answer>, at: int) -> ProgressView<bool> {
    if answers.len() <= at {
        ProgressView::Stop(StepView::Ask(query))
    } else {
        match answers[at] {
            Answer::Verdict(value) => ProgressView::Go(value),
            other => ProgressView::Stop(refusal(other)),
        }
    }
}

pub fn ask_verdict<'a>(query: Query, answers: &'a Vec<Answer>, at: usize) -> (r: Progress<bool>)
    ensures
        match r {
            Progress::Stop(step) => asked_verdict(query@, answers@, at as int) == ProgressView::<
                bool,
            >::Stop(step@),
            Progress::Go(v) => asked_verdict(query@, answers@, at as int) == ProgressView::Go(v),
        },
{
    if answers.len() <= at {
        Progress::Stop(Step::Ask(query))
    } else {
        match &answers[at] {
            Answer::Verdict(value) => Progress::Go(*value),
            other => Progress::Stop(refuse(other)),
        }
    }
}

/// The text that answer `at` holds, or the step that stops the handler: the
/// query, where the answer is not there yet; an error, where it holds
/// something else.
pub open spec fn asked_text(query: QueryView, answers: Seq<Answer>, at: int) -> ProgressView<String> {
    if answers.len() <= at {
        ProgressView::Stop(StepView::Ask(query))
    } else {
        match answers[at] {
            Answer::Text(value) => ProgressView::Go(value),
            other => ProgressView::Stop(refusal(other)),
        }
    }
}

pub fn ask_text<'a>(query: Query, answers: &'a Vec<Answer>, at: usize) -> (r: Progress<&'a String>)
    ensures
        match r {
            Progress::Stop(step) => asked_text(query@, answers@, at as int) == ProgressView::<
                String,
            >::Stop(step@),
            Progress::Go(v) => asked_text(query@, answers@, at as int) == ProgressView::Go(*v),
        },
{
    if answers.len() <= at {
        Progress::Stop(Step::Ask(query))
    } else {
        match &answers[at] {
            Answer::Text(value) => Progress::Go(value),
            other => Progress::Stop(refuse(other)),
        }
    }
}

/// The time that answer `at` holds, or the step that stops the handler: the
/// query, where the answer is not there yet; an error, where it holds
/// something else.
pub open spec fn asked_time(query: QueryView, answers: Seq<Answer>, at: int) -> ProgressView<u64> {
    if answers.len() <= at {
        ProgressView::Stop(StepView::Ask(query))
    } else {
        match answers[at] {
            Answer::Time(value) => ProgressView::Go(value),
            other => ProgressView::Stop(refusal(other)),
        }
    }
}

pub fn ask_time<'a>(query: Query, answers: &'a Vec<Answer>, at: usize) -> (r: Progress<u64>)
    ensures
        match r {
            Progress::Stop(step) => asked_time(query@, answers@, at as int) == ProgressView::<
                u64,
            >::Stop(step@),
            Progress::Go(v) => asked_time(query@, answers@, at as int) == ProgressView::Go(v),
        },
{
    if answers.len() <= at {
        Progress::Stop(Step::Ask(query))
    } else {
        match &answers[at] {
            Answer::Time(value) => Progress::Go(*value),
            other => Progress::Stop(refuse(other)),
        }
    }
}

} // verus!

verus! {

/// The step that is done with nothing to do.
pub fn done0() -> (r: Step)
    ensures
        r@ == StepView::Done(Seq::empty()),
{
    let effects: Vec<Effect> = Vec::new();
    let r = Step::Done(effects);
    assert(r@->Done_0 =~= Seq::empty());
    r
}

/// The step that is done with one effect.
pub fn done1(first: Effect) -> (r: Step)
    ensures
        r@ == StepView::Done(seq![first@]),
{
    let mut effects: Vec<Effect> = Vec::new();
    effects.push(first);
    let r = Step::Done(effects);
    assert(r@->Done_0 =~= seq![first@]);
    r
}

/// The step that is done with two effects.
pub fn done2(first: Effect, second: Effect) -> (r: Step)
    ensures
        r@ == StepView::Done(seq![first@, second@]),
{
    let mut effects: Vec<Effect> = Vec::new();
    effects.push(first);
    effects.push(second);
    let r = Step::Done(effects);
    assert(r@->Done_0 =~= seq![first@, second@]);
    r
}

/// The step that is done with the effects of a list.
pub fn done(effects: Vec<Effect>) -> (r: Step)
    ensures
        r@ == StepView::Done(effect_views(effects@)),
{
    Step::Done(effects)
}

/// Adds an effect to a list.
pub fn add_effect(effects: &mut Vec<Effect>, next: Effect)
    ensures
        effect_views(final(effects)@) == effect_views(old(effects)@).push(next@),
{
    effects.push(next);
    assert(effect_views(effects@) =~= effect_views(old(effects)@).push(next@));
}

/// The effect that files `connection_id` under `event` and sends it the
/// state behind the event.
pub open spec fn first_delivery(event: DispatchEvent, connection_id: i64) -> EffectView {
    EffectView::Dispatch(DispatchMessageView { event, new_subscribers: Some(seq![connection_id]) })
}

/// The effect that sends the state behind `event` to all who hear of it.
pub open spec fn broadcast(event: DispatchEvent) -> EffectView {
    EffectView::Dispatch(DispatchMessageView { event, new_subscribers: None })
}

/// The effect that routes the reply to request `id` to its connection.
pub open spec fn reply(id: i64, connection_id: i64, message: Seq<char>) -> EffectView {
    EffectView::Send(reply_envelope(id, connection_id, 200, message))
}

pub fn to_one(event: DispatchEvent, connection_id: i64) -> (r: Effect)
    ensures
        r@ == first_delivery(event, connection_id),
{
    Effect::Dispatch(DispatchMessage::to_one(event, connection_id))
}

pub fn to_all(event: DispatchEvent) -> (r: Effect)
    ensures
        r@ == broadcast(event),
{
    Effect::Dispatch(DispatchMessage::to_all(event))
}

pub fn replying(id: i64, connection_id: i64, message: &str) -> (r: Effect)
    ensures
        r@ == reply(id, connection_id, message@),
{
    Effect::Send(WebSocketMessage::reply(id, connection_id, 200, message))
}

/// The step that fails with the error of a template.
pub fn fail(template: WebSocketErrorTemplate) -> (r: Step)
    ensures
        r@ == StepView::Failed(template.error()),
{
    Step::Failed(template.into_error())
}

} // verus!
