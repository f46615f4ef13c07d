//! Requests about greenhouses and subscriptions to them.

use vstd::prelude::*;
use vstd::string::*;
use crate::connection::{session_owner, session_user, WebSocketConnection};
use crate::exchange::{
    add_effect, ask_count, ask_greenhouse, ask_greenhouses, ask_user, asked_count,
    asked_greenhouse, asked_greenhouses, asked_user, broadcast, done, done1, done2,
    effect_views, fail, first_delivery, reply, replying, to_all, to_one,
    unexpected, unexpected_answer, Answer, Effect, EffectView, Progress, ProgressView, Query,
    QueryView, Step, StepView,
};
use crate::messages::{DispatchEvent, Method, WebSocketMessage};
use crate::model::{data_size_fault, DeviceRecord, Greenhouse, User};
use crate::numbers::{is_same_optional_number, or_zero, same_optional_number, F64Bits};
use crate::payload::WebSocketMessageData;
use crate::services::device::{find_owned_greenhouse, owned_greenhouse};
use crate::templates::WebSocketErrorTemplate;
use crate::text::same_text;

verus! {

/// The most greenhouses that one user may own.
pub const GREENHOUSES_PER_USER: i64 = 15;

/// Whether a token is still free, as answer `at` tells: it is where the
/// lookup found nothing, and taken where it found a greenhouse. A lookup
/// that failed otherwise fails the request.
pub open spec fn token_free(token: Seq<char>, answers: Seq<Answer>, at: int) -> ProgressView<()> {
    if answers.len() <= at {
        ProgressView::Stop(StepView::Ask(QueryView::GreenhouseByToken { token }))
    } else {
        match answers[at] {
            Answer::Greenhouse(_) => ProgressView::Stop(
                StepView::Failed(WebSocketErrorTemplate::GreenhouseTokenTaken(None).error()),
            ),
            Answer::Failed(error) => if error.http_code == 404 {
                ProgressView::Go(())
            } else {
                ProgressView::Stop(StepView::Failed(error@))
            },
            _ => ProgressView::Stop(StepView::Failed(unexpected_answer())),
        }
    }
}

fn check_token_free(token: &String, answers: &Vec<Answer>, at: usize) -> (r: Option<Step>)
    ensures
        match r {
            Some(step) => token_free(token@, answers@, at as int) == ProgressView::<()>::Stop(step@),
            None => token_free(token@, answers@, at as int) == ProgressView::Go(()),
        },
{
    if answers.len() <= at {
        return Some(Step::Ask(Query::GreenhouseByToken { token: token.clone() }));
    }
    match &answers[at] {
        Answer::Greenhouse(_) => Some(fail(WebSocketErrorTemplate::GreenhouseTokenTaken(None))),
        Answer::Failed(error) => {
            if error.http_code == 404 {
                None
            } else {
                Some(Step::Failed(error.clone()))
            }
        },
        _ => Some(Step::Failed(unexpected())),
    }
}

/// The three broadcasts that follow the creation or the deletion of a
/// greenhouse: the event itself, with the greenhouse's id for this once,
/// and the owner as others and as they themselves see them, since the
/// number of their greenhouses changed.
pub open spec fn owner_news(event: DispatchEvent, owner_id: i64) -> Seq<EffectView> {
    seq![
        broadcast(event),
        broadcast(DispatchEvent::UserUpdate { id: owner_id }),
        broadcast(DispatchEvent::UserMeUpdate { id: owner_id }),
    ]
}

fn tell_owner_news(response: Effect, event: DispatchEvent, owner_id: i64) -> (r: Step)
    ensures
        r@ == StepView::Done(seq![response@] + owner_news(event, owner_id)),
{
    let mut effects: Vec<Effect> = Vec::new();
    assert(effect_views(effects@) =~= Seq::empty());
    add_effect(&mut effects, response);
    add_effect(&mut effects, to_all(event));
    add_effect(&mut effects, to_all(DispatchEvent::UserUpdate { id: owner_id }));
    add_effect(&mut effects, to_all(DispatchEvent::UserMeUpdate { id: owner_id }));
    let r = done(effects);
    assert(r@->Done_0 =~= seq![response@] + owner_news(event, owner_id));
    r
}

/// Creating a greenhouse. Name and token must be of the right length, the
/// token free, and the user below the limit of greenhouses.
pub open spec fn create_greenhouse_plan(
    message: WebSocketMessage,
    connection: WebSocketConnection,
    answers: Seq<Answer>,
) -> StepView {
    match message.data {
        WebSocketMessageData::RequestPostGreenhouse { name, token } => if Greenhouse::name_fault(
            name@,
        ) is Some {
            StepView::Failed(Greenhouse::name_fault(name@)->Some_0)
        } else if Greenhouse::token_fault(token@) is Some {
            StepView::Failed(Greenhouse::token_fault(token@)->Some_0)
        } else {
            match session_owner(connection, answers, 0) {
                ProgressView::Stop(step) => step,
                ProgressView::Go(user_id) => match token_free(token@, answers, 1) {
                    ProgressView::Stop(step) => step,
                    ProgressView::Go(_) => match asked_count(
                        QueryView::GreenhouseCountByOwner { owner_id: user_id },
                        answers,
                        2,
                    ) {
                        ProgressView::Stop(step) => step,
                        ProgressView::Go(count) => if count >= GREENHOUSES_PER_USER {
                            StepView::Failed(
                                WebSocketErrorTemplate::GreenhousesTooMany(None).error(),
                            )
                        } else {
                            match asked_greenhouse(
                                QueryView::GreenhouseCreate {
                                    name: name@,
                                    token: token@,
                                    owner_id: user_id,
                                },
                                answers,
                                3,
                            ) {
                                ProgressView::Stop(step) => step,
                                ProgressView::Go(greenhouse) => StepView::Done(
                                    seq![
                                        reply(message.id, connection.id, "Successfully created"@),
                                    ] + owner_news(
                                        DispatchEvent::GreenhouseCreate {
                                            id: Some(greenhouse.id),
                                            owner_id: user_id,
                                        },
                                        user_id,
                                    ),
                                ),
                            }
                        },
                    },
                },
            }
        },
        _ => StepView::Failed(WebSocketErrorTemplate::BadRequest(None).error()),
    }
}

fn create_greenhouse(
    message: &WebSocketMessage,
    connection: &WebSocketConnection,
    answers: &Vec<Answer>,
) -> (r: Step)
    requires
        connection.authenticated(),
    ensures
        r@ == create_greenhouse_plan(*message, *connection, answers@),
{
    let (name, token) = match &message.data {
        WebSocketMessageData::RequestPostGreenhouse { name, token } => (name, token),
        _ => {
            return fail(WebSocketErrorTemplate::BadRequest(None));
        },
    };
    if let Err(error) = Greenhouse::check_name_length(name.as_str()) {
        return Step::Failed(error);
    }
    if let Err(error) = Greenhouse::check_token_length(token.as_str()) {
        return Step::Failed(error);
    }
    let user_id = match session_user(connection, answers, 0) {
        Progress::Stop(step) => {
            return step;
        },
        Progress::Go(user_id) => user_id,
    };
    if let Some(step) = check_token_free(token, answers, 1) {
        return step;
    }
    let count = match ask_count(Query::GreenhouseCountByOwner { owner_id: user_id }, answers, 2) {
        Progress::Stop(step) => {
            return step;
        },
        Progress::Go(count) => count,
    };
    if count >= GREENHOUSES_PER_USER {
        return fail(WebSocketErrorTemplate::GreenhousesTooMany(None));
    }
    let greenhouse = match ask_greenhouse(
        Query::GreenhouseCreate { name: name.clone(), token: token.clone(), owner_id: user_id },
        answers,
        3,
    ) {
        Progress::Stop(step) => {
            return step;
        },
        Progress::Go(greenhouse) => greenhouse,
    };
    tell_owner_news(
        replying(message.id, connection.id, "Successfully created"),
        DispatchEvent::GreenhouseCreate { id: Some(greenhouse.id), owner_id: user_id },
        user_id,
    )
}

/// True when a request to change a greenhouse asks for what it already
/// is.
pub open spec fn greenhouse_unchanged(
    greenhouse: Greenhouse,
    name: Seq<char>,
    token: Seq<char>,
    maximum_average_humidity: Option<F64Bits>,
    minimum_average_temperature: Option<F64Bits>,
) -> bool {
    &&& name == greenhouse.name@
    &&& token == greenhouse.token@
    &&& same_optional_number(maximum_average_humidity, greenhouse.maximum_average_humidity)
    &&& same_optional_number(minimum_average_temperature, greenhouse.minimum_average_temperature)
}

/// A number, or zero where there is none.
pub open spec fn number_or_zero(value: Option<F64Bits>) -> F64Bits {
    match value {
        Some(v) => v,
        None => F64Bits { bits: 0 },
    }
}

/// What is wrong with the new settings of a greenhouse, if anything: the
/// name, then the token, then the two thresholds.
pub open spec fn settings_fault(
    name: Seq<char>,
    token: Seq<char>,
    maximum_average_humidity: Option<F64Bits>,
    minimum_average_temperature: Option<F64Bits>,
) -> Option<crate::error::WebSocketErrorView> {
    if Greenhouse::name_fault(name) is Some {
        Greenhouse::name_fault(name)
    } else if Greenhouse::token_fault(token) is Some {
        Greenhouse::token_fault(token)
    } else if data_size_fault(number_or_zero(maximum_average_humidity)) is Some {
        data_size_fault(number_or_zero(maximum_average_humidity))
    } else {
        data_size_fault(number_or_zero(minimum_average_temperature))
    }
}

/// Changing the settings of a greenhouse that the user owns. A new token
/// must be free. Nothing is stored where nothing changes; what is stored
/// is told to all who hear of the greenhouse, before the reply.
pub open spec fn patch_greenhouse_plan(
    message: WebSocketMessage,
    connection: WebSocketConnection,
    answers: Seq<Answer>,
) -> StepView {
    match message.data {
        WebSocketMessageData::RequestPatchGreenhouse {
            id,
            name,
            token,
            maximum_average_humidity,
            minimum_average_temperature,
        } => match owned_greenhouse(id, connection, answers, 0) {
            ProgressView::Stop(step) => step,
            ProgressView::Go(greenhouse) => {
                let renamed = token@ != greenhouse.token@;
                let free = if renamed {
                    token_free(token@, answers, 2)
                } else {
                    ProgressView::Go(())
                };
                let next: int = if renamed {
                    3
                } else {
                    2
                };
                let response = reply(message.id, connection.id, "Successfully deleted"@);
                match free {
                    ProgressView::Stop(step) => step,
                    ProgressView::Go(_) => if greenhouse_unchanged(
                        greenhouse,
                        name@,
                        token@,
                        maximum_average_humidity,
                        minimum_average_temperature,
                    ) {
                        StepView::Done(seq![response])
                    } else {
                        match settings_fault(
                            name@,
                            token@,
                            maximum_average_humidity,
                            minimum_average_temperature,
                        ) {
                            Some(fault) => StepView::Failed(fault),
                            None => match asked_greenhouse(
                                QueryView::GreenhouseUpdate {
                                    id: greenhouse.id,
                                    name: name@,
                                    token: token@,
                                    maximum_average_humidity,
                                    minimum_average_temperature,
                                },
                                answers,
                                next,
                            ) {
                                ProgressView::Stop(step) => step,
                                ProgressView::Go(updated) => StepView::Done(
                                    seq![
                                        broadcast(
                                            DispatchEvent::GreenhouseUpdate { id: updated.id },
                                        ),
                                        response,
                                    ],
                                ),
                            },
                        }
                    },
                }
            },
        },
        _ => StepView::Failed(WebSocketErrorTemplate::BadRequest(None).error()),
    }
}

fn patch_greenhouse(
    message: &WebSocketMessage,
    connection: &WebSocketConnection,
    answers: &Vec<Answer>,
) -> (r: Step)
    requires
        connection.authenticated(),
    ensures
        r@ == patch_greenhouse_plan(*message, *connection, answers@),
{
    let (id, name, token, humidity, temperature) = match &message.data {
        WebSocketMessageData::RequestPatchGreenhouse {
            id,
            name,
            token,
            maximum_average_humidity,
            minimum_average_temperature,
        } => (*id, name, token, maximum_average_humidity, minimum_average_temperature),
        _ => {
            return fail(WebSocketErrorTemplate::BadRequest(None));
        },
    };
    let greenhouse = match find_owned_greenhouse(id, connection, answers, 0) {
        Progress::Stop(step) => {
            return step;
        },
        Progress::Go(greenhouse) => greenhouse,
    };
    let renamed = !same_text(token.as_str(), greenhouse.token.as_str());
    let mut next: usize = 2;
    if renamed {
        if let Some(step) = check_token_free(token, answers, 2) {
            return step;
        }
        next = 3;
    }
    let response = replying(message.id, connection.id, "Successfully deleted");
    if same_text(name.as_str(), greenhouse.name.as_str()) && !renamed && is_same_optional_number(
        humidity,
        &greenhouse.maximum_average_humidity,
    ) && is_same_optional_number(temperature, &greenhouse.minimum_average_temperature) {
        return done1(response);
    }
    if let Err(error) = Greenhouse::check_name_length(name.as_str()) {
        return Step::Failed(error);
    }
    if let Err(error) = Greenhouse::check_token_length(token.as_str()) {
        return Step::Failed(error);
    }
    if let Err(error) = DeviceRecord::check_data_size(&or_zero(humidity)) {
        return Step::Failed(error);
    }
    if let Err(error) = DeviceRecord::check_data_size(&or_zero(temperature)) {
        return Step::Failed(error);
    }
    let query = Query::GreenhouseUpdate {
        id: greenhouse.id,
        name: name.clone(),
        token: token.clone(),
        maximum_average_humidity: *humidity,
        minimum_average_temperature: *temperature,
    };
    let updated = match ask_greenhouse(query, answers, next) {
        Progress::Stop(step) => {
            return step;
        },
        Progress::Go(updated) => updated,
    };
    done2(to_all(DispatchEvent::GreenhouseUpdate { id: updated.id }), response)
}

/// Whether the user gave their password, as answer `at` tells. Only a
/// verdict that the password matches counts.
pub open spec fn password_confirmed(
    password: Seq<char>,
    password_hash: Seq<char>,
    answers: Seq<Answer>,
    at: int,
) -> ProgressView<()> {
    if answers.len() <= at {
        ProgressView::Stop(StepView::Ask(QueryView::PasswordVerify { password, password_hash }))
    } else {
        match answers[at] {
            Answer::Verdict(true) => ProgressView::Go(()),
            _ => ProgressView::Stop(
                StepView::Failed(WebSocketErrorTemplate::IncorrectPassword(None).error()),
            ),
        }
    }
}

/// Checks through answer `at` that the user gave their password.
pub fn confirm_password(password: &String, password_hash: &String, answers: &Vec<Answer>, at: usize)
    -> (r: Option<Step>)
    ensures
        match r {
            Some(step) => password_confirmed(password@, password_hash@, answers@, at as int)
                == ProgressView::<()>::Stop(step@),
            None => password_confirmed(password@, password_hash@, answers@, at as int)
                == ProgressView::Go(()),
        },
{
    if answers.len() <= at {
        return Some(
            Step::Ask(
                Query::PasswordVerify {
                    password: password.clone(),
                    password_hash: password_hash.clone(),
                },
            ),
        );
    }
    match &answers[at] {
        Answer::Verdict(true) => None,
        _ => Some(fail(WebSocketErrorTemplate::IncorrectPassword(None))),
    }
}

/// Deleting a greenhouse. The user must give their password and own the
/// greenhouse.
pub open spec fn delete_greenhouse_plan(
    message: WebSocketMessage,
    connection: WebSocketConnection,
    answers: Seq<Answer>,
) -> StepView {
    match message.data {
        WebSocketMessageData::RequestDeleteGreenhouse { id, current_password } =>
            if User::password_fault(current_password@) is Some {
            StepView::Failed(User::password_fault(current_password@)->Some_0)
        } else {
            match session_owner(connection, answers, 0) {
                ProgressView::Stop(step) => step,
                ProgressView::Go(user_id) => match asked_user(
                    QueryView::UserById { id: user_id },
                    answers,
                    1,
                ) {
                    ProgressView::Stop(step) => step,
                    ProgressView::Go(user) => match password_confirmed(
                        current_password@,
                        user.password_hash@,
                        answers,
                        2,
                    ) {
                        ProgressView::Stop(step) => step,
                        ProgressView::Go(_) => match asked_greenhouse(
                            QueryView::GreenhouseByIdAndOwner { id, owner_id: user_id },
                            answers,
                            3,
                        ) {
                            ProgressView::Stop(step) => step,
                            ProgressView::Go(greenhouse) => match asked_count(
                                QueryView::GreenhouseDelete { id: greenhouse.id },
                                answers,
                                4,
                            ) {
                                ProgressView::Stop(step) => step,
                                ProgressView::Go(_) => StepView::Done(
                                    seq![
                                        reply(message.id, connection.id, "Successfully deleted"@),
                                    ] + owner_news(
                                        DispatchEvent::GreenhouseDelete {
                                            id: Some(greenhouse.id),
                                            owner_id: user_id,
                                        },
                                        user_id,
                                    ),
                                ),
                            },
                        },
                    },
                },
            }
        },
        _ => StepView::Failed(WebSocketErrorTemplate::BadRequest(None).error()),
    }
}

fn delete_greenhouse(
    message: &WebSocketMessage,
    connection: &WebSocketConnection,
    answers: &Vec<Answer>,
) -> (r: Step)
    requires
        connection.authenticated(),
    ensures
        r@ == delete_greenhouse_plan(*message, *connection, answers@),
{
    let (id, current_password) = match &message.data {
        WebSocketMessageData::RequestDeleteGreenhouse { id, current_password } => (
            *id,
            current_password,
        ),
        _ => {
            return fail(WebSocketErrorTemplate::BadRequest(None));
        },
    };
    if let Err(error) = User::check_password_length(current_password.as_str()) {
        return Step::Failed(error);
    }
    let user_id = match session_user(connection, answers, 0) {
        Progress::Stop(step) => {
            return step;
        },
        Progress::Go(user_id) => user_id,
    };
    let user = match ask_user(Query::UserById { id: user_id }, answers, 1) {
        Progress::Stop(step) => {
            return step;
        },
        Progress::Go(user) => user,
    };
    if let Some(step) = confirm_password(current_password, &user.password_hash, answers, 2) {
        return step;
    }
    let greenhouse = match ask_greenhouse(
        Query::GreenhouseByIdAndOwner { id, owner_id: user_id },
        answers,
        3,
    ) {
        Progress::Stop(step) => {
            return step;
        },
        Progress::Go(greenhouse) => greenhouse,
    };
    match ask_count(Query::GreenhouseDelete { id: greenhouse.id }, answers, 4) {
        Progress::Stop(step) => {
            return step;
        },
        Progress::Go(_) => {},
    }
    tell_owner_news(
        replying(message.id, connection.id, "Successfully deleted"),
        DispatchEvent::GreenhouseDelete { id: Some(greenhouse.id), owner_id: user_id },
        user_id,
    )
}

/// What a request about greenhouses comes to, by its method and the path
/// it names.
pub open spec fn handled(
    request: Seq<char>,
    method: Method,
    message: WebSocketMessage,
    connection: WebSocketConnection,
    answers: Seq<Answer>,
) -> StepView {
    if method is Get {
        StepView::Failed(WebSocketErrorTemplate::MethodNotAllowed(None).error())
    } else if request != "greenhouse"@ {
        StepView::Failed(WebSocketErrorTemplate::InvalidRequestField(None).error())
    } else {
        match method {
            Method::Post => create_greenhouse_plan(message, connection, answers),
            Method::Patch => patch_greenhouse_plan(message, connection, answers),
            _ => delete_greenhouse_plan(message, connection, answers),
        }
    }
}

/// Handles a request about greenhouses.
pub fn handle(
    request: &str,
    method: Method,
    message: &WebSocketMessage,
    connection: &WebSocketConnection,
    answers: &Vec<Answer>,
) -> (r: Step)
    requires
        connection.authenticated(),
    ensures
        r@ == handled(request@, method, *message, *connection, answers@),
{
    match method {
        Method::Get => fail(WebSocketErrorTemplate::MethodNotAllowed(None)),
        Method::Post => {
            if same_text(request, "greenhouse") {
                create_greenhouse(message, connection, answers)
            } else {
                fail(WebSocketErrorTemplate::InvalidRequestField(None))
            }
        },
        Method::Patch => {
            if same_text(request, "greenhouse") {
                patch_greenhouse(message, connection, answers)
            } else {
                fail(WebSocketErrorTemplate::InvalidRequestField(None))
            }
        },
        Method::Delete => {
            if same_text(request, "greenhouse") {
                delete_greenhouse(message, connection, answers)
            } else {
                fail(WebSocketErrorTemplate::InvalidRequestField(None))
            }
        },
    }
}

/// One first delivery for each greenhouse of a list, in order.
pub open spec fn greenhouse_effects(greenhouses: Seq<Greenhouse>, connection_id: i64) -> Seq<
    EffectView,
> {
    Seq::new(
        greenhouses.len(),
        |i: int|
            first_delivery(DispatchEvent::GreenhouseUpdate { id: greenhouses[i].id }, connection_id),
    )
}

/// What a subscription to greenhouses comes to, by the path it names: one
/// greenhouse that the user owns, all of the user's greenhouses, or the
/// creations or deletions of greenhouses of the user.
pub open spec fn subscribed(
    to: Seq<char>,
    message: WebSocketMessage,
    connection: WebSocketConnection,
    answers: Seq<Answer>,
) -> StepView {
    if to == "greenhouse"@ {
        match message.data {
            WebSocketMessageData::SubscribeToGreenhouseUpdate { id } => match owned_greenhouse(
                id,
                connection,
                answers,
                0,
            ) {
                ProgressView::Stop(step) => step,
                ProgressView::Go(greenhouse) => StepView::Done(
                    seq![
                        first_delivery(
                            DispatchEvent::GreenhouseUpdate { id: greenhouse.id },
                            connection.id,
                        ),
                    ],
                ),
            },
            _ => StepView::Failed(WebSocketErrorTemplate::BadRequest(None).error()),
        }
    } else if to == "greenhouses/mine"@ {
        match session_owner(connection, answers, 0) {
            ProgressView::Stop(step) => step,
            ProgressView::Go(user_id) => match asked_greenhouses(
                QueryView::GreenhousesByOwner { owner_id: user_id },
                answers,
                1,
            ) {
                ProgressView::Stop(step) => step,
                ProgressView::Go(greenhouses) => StepView::Done(
                    greenhouse_effects(greenhouses@, connection.id),
                ),
            },
        }
    } else if to == "greenhouse-create"@ {
        match session_owner(connection, answers, 0) {
            ProgressView::Stop(step) => step,
            ProgressView::Go(user_id) => StepView::Done(
                seq![
                    first_delivery(
                        DispatchEvent::GreenhouseCreate { id: None, owner_id: user_id },
                        connection.id,
                    ),
                ],
            ),
        }
    } else if to == "greenhouse-delete"@ {
        match session_owner(connection, answers, 0) {
            ProgressView::Stop(step) => step,
            ProgressView::Go(user_id) => StepView::Done(
                seq![
                    first_delivery(
                        DispatchEvent::GreenhouseDelete { id: None, owner_id: user_id },
                        connection.id,
                    ),
                ],
            ),
        }
    } else {
        StepView::Failed(WebSocketErrorTemplate::InvalidRequestField(None).error())
    }
}

fn greenhouse_update(
    message: &WebSocketMessage,
    connection: &WebSocketConnection,
    answers: &Vec<Answer>,
) -> (r: Step)
    requires
        connection.authenticated(),
    ensures
        r@ == subscribed("greenhouse"@, *message, *connection, answers@),
{
    let id = match &message.data {
        WebSocketMessageData::SubscribeToGreenhouseUpdate { id } => *id,
        _ => {
            return fail(WebSocketErrorTemplate::BadRequest(None));
        },
    };
    let greenhouse = match find_owned_greenhouse(id, connection, answers, 0) {
        Progress::Stop(step) => {
            return step;
        },
        Progress::Go(greenhouse) => greenhouse,
    };
    done1(to_one(DispatchEvent::GreenhouseUpdate { id: greenhouse.id }, connection.id))
}

fn greenhouses_mine_update(connection: &WebSocketConnection, answers: &Vec<Answer>) -> (r: Step)
    requires
        connection.authenticated(),
    ensures
        match session_owner(*connection, answers@, 0) {
            ProgressView::Stop(step) => r@ == step,
            ProgressView::Go(user_id) => match asked_greenhouses(
                QueryView::GreenhousesByOwner { owner_id: user_id },
                answers@,
                1,
            ) {
                ProgressView::Stop(step) => r@ == step,
                ProgressView::Go(greenhouses) => r@ == StepView::Done(
                    greenhouse_effects(greenhouses@, connection.id),
                ),
            },
        },
{
    let user_id = match session_user(connection, answers, 0) {
        Progress::Stop(step) => {
            return step;
        },
        Progress::Go(user_id) => user_id,
    };
    let greenhouses = match ask_greenhouses(
        Query::GreenhousesByOwner { owner_id: user_id },
        answers,
        1,
    ) {
        Progress::Stop(step) => {
            return step;
        },
        Progress::Go(greenhouses) => greenhouses,
    };
    let mut effects: Vec<Effect> = Vec::new();
    let mut i: usize = 0;
    while i < greenhouses.len()
        invariant
            i <= greenhouses.len(),
            effect_views(effects@) =~= greenhouse_effects(
                greenhouses@.subrange(0, i as int),
                connection.id,
            ),
        decreases greenhouses.len() - i,
    {
        add_effect(
            &mut effects,
            to_one(DispatchEvent::GreenhouseUpdate { id: greenhouses[i].id }, connection.id),
        );
        i += 1;
    }
    assert(greenhouses@.subrange(0, greenhouses@.len() as int) =~= greenhouses@);
    done(effects)
}

fn owner_subscription(connection: &WebSocketConnection, answers: &Vec<Answer>, deletion: bool) -> (r:
    Step)
    requires
        connection.authenticated(),
    ensures
        match session_owner(*connection, answers@, 0) {
            ProgressView::Stop(step) => r@ == step,
            ProgressView::Go(user_id) => r@ == StepView::Done(
                seq![
                    first_delivery(
                        if deletion {
                            DispatchEvent::GreenhouseDelete { id: None, owner_id: user_id }
                        } else {
                            DispatchEvent::GreenhouseCreate { id: None, owner_id: user_id }
                        },
                        connection.id,
                    ),
                ],
            ),
        },
{
    let user_id = match session_user(connection, answers, 0) {
        Progress::Stop(step) => {
            return step;
        },
        Progress::Go(user_id) => user_id,
    };
    let event = if deletion {
        DispatchEvent::GreenhouseDelete { id: None, owner_id: user_id }
    } else {
        DispatchEvent::GreenhouseCreate { id: None, owner_id: user_id }
    };
    done1(to_one(event, connection.id))
}

/// Subscribes the connection to greenhouses of its user.
pub fn subscribe(
    to: &str,
    message: &WebSocketMessage,
    connection: &WebSocketConnection,
    answers: &Vec<Answer>,
) -> (r: Step)
    requires
        connection.authenticated(),
    ensures
        r@ == subscribed(to@, *message, *connection, answers@),
{
    if same_text(to, "greenhouse") {
        greenhouse_update(message, connection, answers)
    } else if same_text(to, "greenhouses/mine") {
        greenhouses_mine_update(connection, answers)
    } else if same_text(to, "greenhouse-create") {
        owner_subscription(connection, answers, false)
    } else if same_text(to, "greenhouse-delete") {
        owner_subscription(connection, answers, true)
    } else {
        fail(WebSocketErrorTemplate::InvalidRequestField(None))
    }
}

} // verus!
