//! Requests about users and subscriptions to them.

use vstd::prelude::*;
use vstd::string::*;
use crate::connection::{session_owner, session_user, WebSocketConnection};
use crate::error::{IoFailure, WebSocketErrorKind, WebSocketErrorView};
use crate::exchange::{
    add_effect, ask_text, ask_user, asked_text, asked_user, broadcast, done, done1, effect_views,
    fail, first_delivery, reply, replying, to_all, to_one, unexpected,
    unexpected_answer, Answer, Effect, EffectView, Progress, ProgressView, Query, QueryView, Step,
    StepView,
};
use crate::messages::{DispatchEvent, Method, WebSocketMessage};
use crate::model::{User, UserLocale, UserTheme};
use crate::payload::WebSocketMessageData;
use crate::services::greenhouse::{confirm_password, password_confirmed};
use crate::templates::WebSocketErrorTemplate;
use crate::text::{domain_of, mail_domain, optional_text, same_text};

verus! {

/// True when two stored users are the same in every field.
pub open spec fn same_user(a: User, b: User) -> bool {
    &&& a.id == b.id
    &&& a.email@ == b.email@
    &&& a.password_hash@ == b.password_hash@
    &&& a.username@ == b.username@
    &&& a.created_at == b.created_at
    &&& a.locale == b.locale
    &&& a.theme == b.theme
}

fn is_same_user(a: &User, b: &User) -> (r: bool)
    ensures
        r == same_user(*a, *b),
{
    a.id == b.id && same_text(a.email.as_str(), b.email.as_str()) && same_text(
        a.password_hash.as_str(),
        b.password_hash.as_str(),
    ) && same_text(a.username.as_str(), b.username.as_str()) && a.created_at == b.created_at
        && a.locale == b.locale && a.theme == b.theme
}

/// True when what everybody may see of two users is the same, given the
/// numbers of their greenhouses.
pub open spec fn same_public(a: User, a_greenhouses: i64, b: User, b_greenhouses: i64) -> bool {
    &&& a.id == b.id
    &&& a.username@ == b.username@
    &&& a.created_at == b.created_at
    &&& a_greenhouses == b_greenhouses
}

/// True when what two users may see of themselves is the same, given the
/// numbers of their greenhouses.
pub open spec fn same_me(a: User, a_greenhouses: i64, b: User, b_greenhouses: i64) -> bool {
    &&& same_public(a, a_greenhouses, b, b_greenhouses)
    &&& a.email@ == b.email@
    &&& a.locale == b.locale
    &&& a.theme == b.theme
}

/// The number of greenhouses that answer `at` holds. By now the reply is
/// on its way, so a failure is reported after it.
pub open spec fn counted(
    response: EffectView,
    owner_id: i64,
    answers: Seq<Answer>,
    at: int,
) -> ProgressView<i64> {
    if answers.len() <= at {
        ProgressView::Stop(StepView::Ask(QueryView::GreenhouseCountByOwner { owner_id }))
    } else {
        match answers[at] {
            Answer::Count(count) => ProgressView::Go(count),
            Answer::Failed(error) => ProgressView::Stop(
                StepView::Done(seq![response, EffectView::Fail(error@)]),
            ),
            _ => ProgressView::Stop(
                StepView::Done(seq![response, EffectView::Fail(unexpected_answer())]),
            ),
        }
    }
}

fn count_greenhouses(
    id: i64,
    connection_id: i64,
    owner_id: i64,
    answers: &Vec<Answer>,
    at: usize,
) -> (r: Progress<i64>)
    ensures
        match r {
            Progress::Stop(step) => counted(
                reply(id, connection_id, "Successfully updated"@),
                owner_id,
                answers@,
                at as int,
            ) == ProgressView::<i64>::Stop(step@),
            Progress::Go(count) => counted(
                reply(id, connection_id, "Successfully updated"@),
                owner_id,
                answers@,
                at as int,
            ) == ProgressView::Go(count),
        },
{
    if answers.len() <= at {
        return Progress::Stop(Step::Ask(Query::GreenhouseCountByOwner { owner_id }));
    }
    let error = match &answers[at] {
        Answer::Count(count) => {
            return Progress::Go(*count);
        },
        Answer::Failed(error) => error.clone(),
        _ => unexpected(),
    };
    let mut effects: Vec<Effect> = Vec::new();
    assert(effect_views(effects@) =~= Seq::empty());
    add_effect(&mut effects, replying(id, connection_id, "Successfully updated"));
    add_effect(&mut effects, Effect::Fail(error));
    let step = done(effects);
    assert(step@->Done_0 =~= seq![
        reply(id, connection_id, "Successfully updated"@),
        EffectView::Fail(error@),
    ]);
    Progress::Stop(step)
}

/// What follows the storing of a user: the reply, and, where the user
/// changed, a broadcast to their own sessions if what they see of
/// themselves changed, and one to everybody else if what everybody sees
/// changed too. The numbers of greenhouses are read through the answers
/// `at` and `at + 1`.
pub open spec fn news_plan(
    id: i64,
    connection_id: i64,
    user_id: i64,
    current: User,
    updated: User,
    answers: Seq<Answer>,
    at: int,
) -> StepView {
    let response = reply(id, connection_id, "Successfully updated"@);
    if same_user(updated, current) {
        StepView::Done(seq![response])
    } else {
        match counted(response, current.id, answers, at) {
            ProgressView::Stop(step) => step,
            ProgressView::Go(before) => match counted(response, updated.id, answers, at + 1) {
                ProgressView::Stop(step) => step,
                ProgressView::Go(after) => if same_me(current, before, updated, after) {
                    StepView::Done(seq![response])
                } else if same_public(updated, after, current, before) {
                    StepView::Done(
                        seq![response, broadcast(DispatchEvent::UserMeUpdate { id: user_id })],
                    )
                } else {
                    StepView::Done(
                        seq![
                            response,
                            broadcast(DispatchEvent::UserMeUpdate { id: user_id }),
                            broadcast(DispatchEvent::UserUpdate { id: user_id }),
                        ],
                    )
                },
            },
        }
    }
}

fn tell_news(
    id: i64,
    connection_id: i64,
    user_id: i64,
    current: &User,
    updated: &User,
    answers: &Vec<Answer>,
    at: usize,
) -> (r: Step)
    requires
        at < 100,
    ensures
        r@ == news_plan(id, connection_id, user_id, *current, *updated, answers@, at as int),
{
    if is_same_user(updated, current) {
        return done1(replying(id, connection_id, "Successfully updated"));
    }
    let before = match count_greenhouses(id, connection_id, current.id, answers, at) {
        Progress::Stop(step) => {
            return step;
        },
        Progress::Go(count) => count,
    };
    let after = match count_greenhouses(id, connection_id, updated.id, answers, at + 1) {
        Progress::Stop(step) => {
            return step;
        },
        Progress::Go(count) => count,
    };
    let public = current.id == updated.id && same_text(
        current.username.as_str(),
        updated.username.as_str(),
    ) && current.created_at == updated.created_at && before == after;
    let me = public && same_text(current.email.as_str(), updated.email.as_str()) && current.locale
        == updated.locale && current.theme == updated.theme;
    let mut effects: Vec<Effect> = Vec::new();
    assert(effect_views(effects@) =~= Seq::empty());
    add_effect(&mut effects, replying(id, connection_id, "Successfully updated"));
    if !me {
        add_effect(&mut effects, to_all(DispatchEvent::UserMeUpdate { id: user_id }));
        if !public {
            add_effect(&mut effects, to_all(DispatchEvent::UserUpdate { id: user_id }));
        }
    }
    let r = done(effects);
    proof {
        let plan = news_plan(id, connection_id, user_id, *current, *updated, answers@, at as int);
        assert(plan is Done);
        assert(r@->Done_0 =~= plan->Done_0);
    }
    r
}

/// Whether a new email address can be used, as the answers `at` and
/// `at + 1` tell: its domain must name at least one mail exchanger, and
/// no user may have the address yet. A resolver that could not make sense
/// of the domain's answer makes the address invalid; any other failure of
/// the resolver fails the request.
pub open spec fn email_usable(email: Seq<char>, answers: Seq<Answer>, at: int) -> ProgressView<()> {
    let invalid = ProgressView::<()>::Stop(
        StepView::Failed(WebSocketErrorTemplate::EmailInvalid(None).error()),
    );
    match mail_domain(email) {
        None => invalid,
        Some(domain) => if answers.len() <= at {
            ProgressView::Stop(StepView::Ask(QueryView::MxRecords { domain }))
        } else {
            match answers[at] {
                Answer::Count(records) => if records == 0 {
                    invalid
                } else if answers.len() <= at + 1 {
                    ProgressView::Stop(StepView::Ask(QueryView::UserByEmail { email }))
                } else {
                    match answers[at + 1] {
                        Answer::User(_) => invalid,
                        _ => ProgressView::Go(()),
                    }
                },
                Answer::Failed(error) => if error.kind@ == garbled_answer() {
                    invalid
                } else {
                    ProgressView::Stop(StepView::Failed(error@))
                },
                _ => ProgressView::Stop(StepView::Failed(unexpected_answer())),
            }
        },
    }
}

/// The kind of a failure to understand what a peer sent.
pub open spec fn garbled_answer() -> crate::error::WebSocketErrorKindView {
    crate::error::WebSocketErrorKindView::StdError(IoFailure::InvalidData)
}

fn check_email_usable(email: &String, answers: &Vec<Answer>, at: usize) -> (r: Option<Step>)
    requires
        at < 100,
    ensures
        match r {
            Some(step) => email_usable(email@, answers@, at as int) == ProgressView::<()>::Stop(
                step@,
            ),
            None => email_usable(email@, answers@, at as int) == ProgressView::Go(()),
        },
{
    let domain = match domain_of(email.as_str()) {
        Some(domain) => domain,
        None => {
            return Some(fail(WebSocketErrorTemplate::EmailInvalid(None)));
        },
    };
    if answers.len() <= at {
        return Some(Step::Ask(Query::MxRecords { domain }));
    }
    match &answers[at] {
        Answer::Count(records) => {
            if *records == 0 {
                return Some(fail(WebSocketErrorTemplate::EmailInvalid(None)));
            }
        },
        Answer::Failed(error) => {
            let garbled = match &error.kind {
                WebSocketErrorKind::StdError(IoFailure::InvalidData) => true,
                _ => false,
            };
            if garbled {
                return Some(fail(WebSocketErrorTemplate::EmailInvalid(None)));
            }
            return Some(Step::Failed(error.clone()));
        },
        _ => {
            return Some(Step::Failed(unexpected()));
        },
    }
    if answers.len() <= at + 1 {
        return Some(Step::Ask(Query::UserByEmail { email: email.clone() }));
    }
    match &answers[at + 1] {
        Answer::User(_) => Some(fail(WebSocketErrorTemplate::EmailInvalid(None))),
        _ => None,
    }
}

/// A piece of text, or the empty text where there is none.
pub open spec fn text_or_empty(text: Option<Seq<char>>) -> Seq<char> {
    match text {
        Some(t) => t,
        None => Seq::empty(),
    }
}

/// A piece of text, or another where there is none.
pub open spec fn text_or(text: Option<Seq<char>>, other: Seq<char>) -> Seq<char> {
    match text {
        Some(t) => t,
        None => other,
    }
}

/// What is wrong with new credentials, if anything: the email address,
/// then the password given, then the new password, then the username.
pub open spec fn credentials_fault(
    email: Seq<char>,
    current_password: Seq<char>,
    new_password: Seq<char>,
    username: Seq<char>,
) -> Option<WebSocketErrorView> {
    if User::email_fault(email) is Some {
        User::email_fault(email)
    } else if User::password_fault(current_password) is Some {
        User::password_fault(current_password)
    } else if User::password_fault(new_password) is Some {
        User::password_fault(new_password)
    } else {
        User::username_fault(username)
    }
}

/// How many answers the check of a new email address takes.
pub open spec fn email_answers(email: Seq<char>, current: User) -> int {
    if email == current.email@ {
        0
    } else {
        2
    }
}

/// How many answers the hashing of a new password takes.
pub open spec fn password_answers(new_password: Seq<char>, current_password: Seq<char>) -> int {
    if new_password == current_password {
        0
    } else {
        1
    }
}

/// How many answers the check of a new username takes.
pub open spec fn username_answers(username: Seq<char>, current: User) -> int {
    if username == current.username@ {
        0
    } else {
        1
    }
}

/// Changing credentials: email address, username or password. The user
/// must give their password. A new email address must be usable, a new
/// username free. A new password is hashed afresh; the same password keeps
/// its hash. The answers are taken in that order, from the third on.
pub open spec fn hard_update_plan(
    id: i64,
    connection_id: i64,
    user_id: i64,
    current: User,
    email: Seq<char>,
    username: Seq<char>,
    locale: UserLocale,
    theme: UserTheme,
    new_password: Option<Seq<char>>,
    current_password: Option<Seq<char>>,
    answers: Seq<Answer>,
) -> StepView {
    let given = text_or_empty(current_password);
    let wanted = text_or(new_password, given);
    match credentials_fault(email, given, wanted, username) {
        Some(fault) => StepView::Failed(fault),
        None => match password_confirmed(given, current.password_hash@, answers, 2) {
            ProgressView::Stop(step) => step,
            ProgressView::Go(_) => {
                let usable = if email == current.email@ {
                    ProgressView::Go(())
                } else {
                    email_usable(email, answers, 3)
                };
                let at_password = 3 + email_answers(email, current);
                let at_username = at_password + password_answers(wanted, given);
                let at_update = at_username + username_answers(username, current);
                match usable {
                    ProgressView::Stop(step) => step,
                    ProgressView::Go(_) => {
                        let hashed = if wanted == given {
                            ProgressView::Go(current.password_hash)
                        } else {
                            asked_text(
                                QueryView::PasswordHash { password: wanted },
                                answers,
                                at_password,
                            )
                        };
                        match hashed {
                            ProgressView::Stop(step) => step,
                            ProgressView::Go(password_hash) => {
                                if username != current.username@ && answers.len() <= at_username {
                                    StepView::Ask(QueryView::UserByUsername { username })
                                } else if username != current.username@
                                    && answers[at_username] is User {
                                    StepView::Failed(
                                        WebSocketErrorTemplate::UsernameInvalidOrTaken(
                                            None,
                                        ).error(),
                                    )
                                } else {
                                    match asked_user(
                                        QueryView::UserHardUpdate {
                                            id: user_id,
                                            email,
                                            password_hash: password_hash@,
                                            username,
                                            locale,
                                            theme,
                                        },
                                        answers,
                                        at_update,
                                    ) {
                                        ProgressView::Stop(step) => step,
                                        ProgressView::Go(updated) => news_plan(
                                            id,
                                            connection_id,
                                            user_id,
                                            current,
                                            updated,
                                            answers,
                                            at_update + 1,
                                        ),
                                    }
                                }
                            },
                        }
                    },
                }
            },
        },
    }
}

fn hard_update(
    id: i64,
    connection_id: i64,
    user_id: i64,
    current: &User,
    email: &String,
    username: &String,
    locale: UserLocale,
    theme: UserTheme,
    new_password: &Option<String>,
    current_password: &Option<String>,
    answers: &Vec<Answer>,
) -> (r: Step)
    ensures
        r@ == hard_update_plan(
            id,
            connection_id,
            user_id,
            *current,
            email@,
            username@,
            locale,
            theme,
            optional_text(*new_password),
            optional_text(*current_password),
            answers@,
        ),
{
    let given = match current_password {
        Some(password) => password.clone(),
        None => String::new(),
    };
    let wanted = match new_password {
        Some(password) => password.clone(),
        None => given.clone(),
    };
    if let Err(error) = User::check_email_length(email.as_str()) {
        return Step::Failed(error);
    }
    if let Err(error) = User::check_password_length(given.as_str()) {
        return Step::Failed(error);
    }
    if let Err(error) = User::check_password_length(wanted.as_str()) {
        return Step::Failed(error);
    }
    if let Err(error) = User::check_username_length(username.as_str()) {
        return Step::Failed(error);
    }
    if let Some(step) = confirm_password(&given, &current.password_hash, answers, 2) {
        return step;
    }
    let mut at: usize = 3;
    if !same_text(email.as_str(), current.email.as_str()) {
        if let Some(step) = check_email_usable(email, answers, 3) {
            return step;
        }
        at = 5;
    }
    let password_hash = if same_text(wanted.as_str(), given.as_str()) {
        current.password_hash.clone()
    } else {
        let hashed = match ask_text(Query::PasswordHash { password: wanted }, answers, at) {
            Progress::Stop(step) => {
                return step;
            },
            Progress::Go(hashed) => hashed.clone(),
        };
        at = at + 1;
        hashed
    };
    if !same_text(username.as_str(), current.username.as_str()) {
        if answers.len() <= at {
            return Step::Ask(Query::UserByUsername { username: username.clone() });
        }
        match &answers[at] {
            Answer::User(_) => {
                return fail(WebSocketErrorTemplate::UsernameInvalidOrTaken(None));
            },
            _ => {},
        }
        at = at + 1;
    }
    let query = Query::UserHardUpdate {
        id: user_id,
        email: email.clone(),
        password_hash,
        username: username.clone(),
        locale,
        theme,
    };
    let updated = match ask_user(query, answers, at) {
        Progress::Stop(step) => {
            return step;
        },
        Progress::Go(updated) => updated,
    };
    tell_news(id, connection_id, user_id, current, updated, answers, at + 1)
}

/// Changing one's own account. New credentials are stored after the
/// checks that [`hard_update_plan`] names; a new language or theme alone
/// is stored without them; where nothing changes nothing is stored. What
/// was stored is told as [`news_plan`] says.
pub open spec fn patch_user_plan(
    message: WebSocketMessage,
    connection: WebSocketConnection,
    answers: Seq<Answer>,
) -> StepView {
    match message.data {
        WebSocketMessageData::RequestPatchUser {
            email,
            username,
            locale,
            theme,
            new_password,
            current_password,
        } => match UserLocale::of_tag(locale@) {
            None => StepView::Failed(WebSocketErrorTemplate::BadRequest(None).error()),
            Some(new_locale) => match session_owner(connection, answers, 0) {
                ProgressView::Stop(step) => step,
                ProgressView::Go(user_id) => match asked_user(
                    QueryView::UserById { id: user_id },
                    answers,
                    1,
                ) {
                    ProgressView::Stop(step) => step,
                    ProgressView::Go(current) => if current.email@ != email@ || current.username@
                        != username@ || new_password is Some {
                        hard_update_plan(
                            message.id,
                            connection.id,
                            user_id,
                            current,
                            email@,
                            username@,
                            new_locale,
                            theme,
                            optional_text(new_password),
                            optional_text(current_password),
                            answers,
                        )
                    } else if new_locale != current.locale || theme != current.theme {
                        match asked_user(
                            QueryView::UserSoftUpdate {
                                id: user_id,
                                locale: new_locale,
                                theme,
                            },
                            answers,
                            2,
                        ) {
                            ProgressView::Stop(step) => step,
                            ProgressView::Go(updated) => news_plan(
                                message.id,
                                connection.id,
                                user_id,
                                current,
                                updated,
                                answers,
                                3,
                            ),
                        }
                    } else {
                        news_plan(
                            message.id,
                            connection.id,
                            user_id,
                            current,
                            current,
                            answers,
                            2,
                        )
                    },
                },
            },
        },
        _ => StepView::Failed(WebSocketErrorTemplate::BadRequest(None).error()),
    }
}

fn patch_user(
    message: &WebSocketMessage,
    connection: &WebSocketConnection,
    answers: &Vec<Answer>,
) -> (r: Step)
    requires
        connection.authenticated(),
    ensures
        r@ == patch_user_plan(*message, *connection, answers@),
{
    let (email, username, locale, theme, new_password, current_password) = match &message.data {
        WebSocketMessageData::RequestPatchUser {
            email,
            username,
            locale,
            theme,
            new_password,
            current_password,
        } => (email, username, locale, *theme, new_password, current_password),
        _ => {
            return fail(WebSocketErrorTemplate::BadRequest(None));
        },
    };
    let new_locale = match UserLocale::parse(locale.as_str()) {
        Some(locale) => locale,
        None => {
            return fail(WebSocketErrorTemplate::BadRequest(None));
        },
    };
    let user_id = match session_user(connection, answers, 0) {
        Progress::Stop(step) => {
            return step;
        },
        Progress::Go(user_id) => user_id,
    };
    let current = match ask_user(Query::UserById { id: user_id }, answers, 1) {
        Progress::Stop(step) => {
            return step;
        },
        Progress::Go(current) => current,
    };
    if !same_text(current.email.as_str(), email.as_str()) || !same_text(
        current.username.as_str(),
        username.as_str(),
    ) || new_password.is_some() {
        hard_update(
            message.id,
            connection.id,
            user_id,
            current,
            email,
            username,
            new_locale,
            theme,
            new_password,
            current_password,
            answers,
        )
    } else if new_locale != current.locale || theme != current.theme {
        let updated = match ask_user(
            Query::UserSoftUpdate { id: user_id, locale: new_locale, theme },
            answers,
            2,
        ) {
            Progress::Stop(step) => {
                return step;
            },
            Progress::Go(updated) => updated,
        };
        tell_news(message.id, connection.id, user_id, current, updated, answers, 3)
    } else {
        tell_news(message.id, connection.id, user_id, current, current, answers, 2)
    }
}

/// What a request about users comes to, by its method and the path it
/// names.
pub open spec fn handled(
    request: Seq<char>,
    method: Method,
    message: WebSocketMessage,
    connection: WebSocketConnection,
    answers: Seq<Answer>,
) -> StepView {
    if !(method is Patch) {
        StepView::Failed(WebSocketErrorTemplate::MethodNotAllowed(None).error())
    } else if request != "user/me"@ {
        StepView::Failed(WebSocketErrorTemplate::InvalidRequestField(None).error())
    } else {
        patch_user_plan(message, connection, answers)
    }
}

/// Handles a request about users.
pub fn handle(
    request: &str,
    method: Method,
    message: &WebSocketMessage,
    connection: &WebSocketConnection,
    answers: &Vec<Answer>,
) -> (r: Step)
    requires
        connection.authenticated(),
    ensures
        r@ == handled(request@, method, *message, *connection, answers@),
{
    match method {
        Method::Patch => {
            if same_text(request, "user/me") {
                patch_user(message, connection, answers)
            } else {
                fail(WebSocketErrorTemplate::InvalidRequestField(None))
            }
        },
        _ => fail(WebSocketErrorTemplate::MethodNotAllowed(None)),
    }
}

/// What a subscription to users comes to, by the path it names: any user
/// as everybody sees them, or the connection's own user as they see
/// themselves.
pub open spec fn subscribed(
    to: Seq<char>,
    message: WebSocketMessage,
    connection: WebSocketConnection,
    answers: Seq<Answer>,
) -> StepView {
    if to == "user"@ {
        match message.data {
            WebSocketMessageData::SubscribeToUserUpdate { id } => StepView::Done(
                seq![first_delivery(DispatchEvent::UserUpdate { id }, connection.id)],
            ),
            _ => StepView::Failed(WebSocketErrorTemplate::BadRequest(None).error()),
        }
    } else if to == "user/me"@ {
        match session_owner(connection, answers, 0) {
            ProgressView::Stop(step) => step,
            ProgressView::Go(user_id) => StepView::Done(
                seq![first_delivery(DispatchEvent::UserMeUpdate { id: user_id }, connection.id)],
            ),
        }
    } else {
        StepView::Failed(WebSocketErrorTemplate::InvalidRequestField(None).error())
    }
}

/// Subscribes the connection to a user.
pub fn subscribe(
    to: &str,
    message: &WebSocketMessage,
    connection: &WebSocketConnection,
    answers: &Vec<Answer>,
) -> (r: Step)
    requires
        connection.authenticated(),
    ensures
        r@ == subscribed(to@, *message, *connection, answers@),
{
    if same_text(to, "user") {
        match &message.data {
            WebSocketMessageData::SubscribeToUserUpdate { id } => done1(
                to_one(DispatchEvent::UserUpdate { id: *id }, connection.id),
            ),
            _ => fail(WebSocketErrorTemplate::BadRequest(None)),
        }
    } else if same_text(to, "user/me") {
        let user_id = match session_user(connection, answers, 0) {
            Progress::Stop(step) => {
                return step;
            },
            Progress::Go(user_id) => user_id,
        };
        done1(to_one(DispatchEvent::UserMeUpdate { id: user_id }, connection.id))
    } else {
        fail(WebSocketErrorTemplate::InvalidRequestField(None))
    }
}

} // verus!
