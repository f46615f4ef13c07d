//! Signing up, signing in and signing out, and the session of a request.

use vstd::prelude::*;
use vstd::string::*;
use crate::api::{ApiError, ApiErrorKindView, ApiErrorTemplate, ApiErrorView};
use crate::error::IoFailure;
use crate::model::{Session, User};
use crate::text::{domain_of, mail_domain};

verus! {

/// What signing up takes.
#[derive(Clone, Debug)]
pub struct RegistrationRequest {
    pub email: String,
    pub password: String,
    pub username: String,
}

/// What signing in takes.
#[derive(Clone, Debug)]
pub struct LoginRequest {
    pub email: String,
    pub password: String,
}

/// What the sign-up and sign-in rules ask of their collaborators.
#[derive(Debug)]
pub enum AuthQuery {
    /// The number of mail exchangers that this domain names.
    MxRecords { domain: String },
    /// The user with this name.
    UserByUsername { username: String },
    /// The user with this email address.
    UserByEmail { email: String },
    /// The hash of a password under a fresh salt.
    PasswordHash { password: String },
    /// Whether the password matches the hash.
    PasswordVerify { password: String, password_hash: String },
    /// Store a new user; answers with the user as stored.
    UserCreate { email: String, password_hash: String, username: String },
    /// Bind the session to a user, or to none.
    SessionUpdateUser { session_id: i64, user_id: Option<i64> },
    /// The session that this token opens.
    SessionByToken { token: String },
    /// Store a fresh session; answers with the session as stored.
    SessionCreate,
}

/// Mathematical value of an [`AuthQuery`].
pub enum AuthQueryView {
    MxRecords { domain: Seq<char> },
    UserByUsername { username: Seq<char> },
    UserByEmail { email: Seq<char> },
    PasswordHash { password: Seq<char> },
    PasswordVerify { password: Seq<char>, password_hash: Seq<char> },
    UserCreate { email: Seq<char>, password_hash: Seq<char>, username: Seq<char> },
    SessionUpdateUser { session_id: i64, user_id: Option<i64> },
    SessionByToken { token: Seq<char> },
    SessionCreate,
}

impl View for AuthQuery {
    type V = AuthQueryView;

    open spec fn view(&self) -> AuthQueryView {
        match *self {
            AuthQuery::MxRecords { domain } => AuthQueryView::MxRecords { domain: domain@ },
            AuthQuery::UserByUsername { username } => AuthQueryView::UserByUsername {
                username: username@,
            },
            AuthQuery::UserByEmail { email } => AuthQueryView::UserByEmail { email: email@ },
            AuthQuery::PasswordHash { password } => AuthQueryView::PasswordHash {
                password: password@,
            },
            AuthQuery::PasswordVerify { password, password_hash } => AuthQueryView::PasswordVerify {
                password: password@,
                password_hash: password_hash@,
            },
            AuthQuery::UserCreate { email, password_hash, username } => AuthQueryView::UserCreate {
                email: email@,
                password_hash: password_hash@,
                username: username@,
            },
            AuthQuery::SessionUpdateUser { session_id, user_id } =>
                AuthQueryView::SessionUpdateUser { session_id, user_id },
            AuthQuery::SessionByToken { token } => AuthQueryView::SessionByToken { token: token@ },
            AuthQuery::SessionCreate => AuthQueryView::SessionCreate,
        }
    }
}

/// What a collaborator handed back.
#[derive(Debug)]
pub enum AuthAnswer {
    User(User),
    Session(Session),
    Count(i64),
    Text(String),
    Verdict(bool),
    /// The collaborator did what was asked and has nothing to hand back.
    Stored,
    /// The collaborator could not do what was asked.
    Failed(ApiError),
}

/// Where a rule stands: it needs something, it is done, or it gave up.
#[derive(Debug)]
pub enum AuthStep {
    Ask(AuthQuery),
    Done,
    Failed(ApiError),
}

/// Mathematical value of an [`AuthStep`].
pub enum AuthStepView {
    Ask(AuthQueryView),
    Done,
    Failed(ApiErrorView),
}

impl View for AuthStep {
    type V = AuthStepView;

    open spec fn view(&self) -> AuthStepView {
        match *self {
            AuthStep::Ask(query) => AuthStepView::Ask(query@),
            AuthStep::Done => AuthStepView::Done,
            AuthStep::Failed(error) => AuthStepView::Failed(error@),
        }
    }
}

/// The error for an answer of another kind than the query called for.
pub open spec fn unexpected_answer() -> ApiErrorView {
    crate::api::api_error_of(500, None, "Unexpected answer"@, None)
}

fn unexpected() -> (r: AuthStep)
    ensures
        r@ == AuthStepView::Failed(unexpected_answer()),
{
    AuthStep::Failed(ApiError::new(500, None, String::from_str("Unexpected answer"), None))
}

fn fail(template: ApiErrorTemplate) -> (r: AuthStep)
    ensures
        r@ == AuthStepView::Failed(template.error()),
{
    AuthStep::Failed(template.into_error())
}

/// What is wrong with a length, if anything.
pub open spec fn length_fault(
    length: nat,
    least: nat,
    most: nat,
    short: ApiErrorTemplate,
    long: ApiErrorTemplate,
) -> Option<ApiErrorView> {
    if length < least {
        Some(short.error())
    } else if length > most {
        Some(long.error())
    } else {
        None
    }
}

/// What is wrong with the length of an email address, if anything: it may
/// hold 512 characters at most.
pub open spec fn email_fault(email: Seq<char>) -> Option<ApiErrorView> {
    length_fault(
        email.len(),
        0,
        512,
        ApiErrorTemplate::EmailTooLong(None),
        ApiErrorTemplate::EmailTooLong(None),
    )
}

/// What is wrong with the length of a password, if anything: it holds 8 to
/// 128 characters.
pub open spec fn password_fault(password: Seq<char>) -> Option<ApiErrorView> {
    length_fault(
        password.len(),
        8,
        128,
        ApiErrorTemplate::PasswordTooShort(None),
        ApiErrorTemplate::PasswordTooLong(None),
    )
}

/// What is wrong with the length of a username, if anything: it holds 3 to
/// 32 characters.
pub open spec fn username_fault(username: Seq<char>) -> Option<ApiErrorView> {
    length_fault(
        username.len(),
        3,
        32,
        ApiErrorTemplate::UsernameTooShort(None),
        ApiErrorTemplate::UsernameTooLong(None),
    )
}

fn check_length(
    text: &str,
    least: usize,
    most: usize,
    short: ApiErrorTemplate,
    long: ApiErrorTemplate,
) -> (r: Option<AuthStep>)
    ensures
        match r {
            Some(step) => length_fault(text@.len(), least as nat, most as nat, short, long) == Some(
                step@->Failed_0,
            ) && step is Failed,
            None => length_fault(text@.len(), least as nat, most as nat, short, long) is None,
        },
{
    let length = text.unicode_len();
    if length < least {
        Some(fail(short))
    } else if length > most {
        Some(fail(long))
    } else {
        None
    }
}

/// The rules of signing up, signing in and signing out.
pub struct Auth;

impl Auth {
    /// Signing up. The email address, the password and the username must
    /// be of the right length; the address must have exactly one `@` and a
    /// domain that names a mail exchanger; neither the username nor the
    /// address may be in use. Then the password is hashed, the user stored
    /// and the session bound to them.
    pub open spec fn registered(
        credentials: RegistrationRequest,
        session_id: i64,
        answers: Seq<AuthAnswer>,
    ) -> AuthStepView {
        let email = credentials.email@;
        let password = credentials.password@;
        let username = credentials.username@;
        let invalid = AuthStepView::Failed(ApiErrorTemplate::EmailInvalid(None).error());
        if email_fault(email) is Some {
            AuthStepView::Failed(email_fault(email)->Some_0)
        } else if password_fault(password) is Some {
            AuthStepView::Failed(password_fault(password)->Some_0)
        } else if username_fault(username) is Some {
            AuthStepView::Failed(username_fault(username)->Some_0)
        } else if mail_domain(email) is None {
            invalid
        } else if answers.len() <= 0 {
            AuthStepView::Ask(AuthQueryView::MxRecords { domain: mail_domain(email)->Some_0 })
        } else {
            match answers[0] {
                AuthAnswer::Count(records) => if records == 0 {
                    invalid
                } else if answers.len() <= 1 {
                    AuthStepView::Ask(AuthQueryView::UserByUsername { username })
                } else if answers[1] is User {
                    AuthStepView::Failed(ApiErrorTemplate::UsernameInvalidOrTaken(None).error())
                } else if answers.len() <= 2 {
                    AuthStepView::Ask(AuthQueryView::UserByEmail { email })
                } else {
                    match answers[2] {
                        AuthAnswer::User(_) => invalid,
                        AuthAnswer::Failed(error) => if error.http_code != 404 {
                            AuthStepView::Failed(error@)
                        } else if answers.len() <= 3 {
                            AuthStepView::Ask(AuthQueryView::PasswordHash { password })
                        } else {
                            match answers[3] {
                                AuthAnswer::Text(password_hash) => if answers.len() <= 4 {
                                    AuthStepView::Ask(
                                        AuthQueryView::UserCreate {
                                            email,
                                            password_hash: password_hash@,
                                            username,
                                        },
                                    )
                                } else {
                                    match answers[4] {
                                        AuthAnswer::User(user) => Self::bound(
                                            session_id,
                                            Some(user.id),
                                            answers,
                                            5,
                                        ),
                                        other => Self::refusal(other),
                                    }
                                },
                                other => Self::refusal(other),
                            }
                        },
                        _ => AuthStepView::Failed(unexpected_answer()),
                    }
                },
                AuthAnswer::Failed(error) => if error.kind@ == ApiErrorKindView::StdError(
                    IoFailure::InvalidData,
                ) {
                    invalid
                } else {
                    AuthStepView::Failed(error@)
                },
                _ => AuthStepView::Failed(unexpected_answer()),
            }
        }
    }

    /// The step that stops a rule on an answer that is no value.
    pub open spec fn refusal(answer: AuthAnswer) -> AuthStepView {
        match answer {
            AuthAnswer::Failed(error) => AuthStepView::Failed(error@),
            _ => AuthStepView::Failed(unexpected_answer()),
        }
    }

    /// Binding a session to a user, or to none, through answer `at`.
    pub open spec fn bound(
        session_id: i64,
        user_id: Option<i64>,
        answers: Seq<AuthAnswer>,
        at: int,
    ) -> AuthStepView {
        if answers.len() <= at {
            AuthStepView::Ask(AuthQueryView::SessionUpdateUser { session_id, user_id })
        } else {
            match answers[at] {
                AuthAnswer::Stored => AuthStepView::Done,
                AuthAnswer::Session(_) => AuthStepView::Done,
                other => Self::refusal(other),
            }
        }
    }

    fn refuse(answer: &AuthAnswer) -> (r: AuthStep)
        ensures
            r@ == Self::refusal(*answer),
    {
        match answer {
            AuthAnswer::Failed(error) => AuthStep::Failed(error.clone()),
            _ => unexpected(),
        }
    }

    fn bind(session_id: i64, user_id: Option<i64>, answers: &Vec<AuthAnswer>, at: usize) -> (r:
        AuthStep)
        ensures
            r@ == Self::bound(session_id, user_id, answers@, at as int),
    {
        if answers.len() <= at {
            return AuthStep::Ask(AuthQuery::SessionUpdateUser { session_id, user_id });
        }
        match &answers[at] {
            AuthAnswer::Stored => AuthStep::Done,
            AuthAnswer::Session(_) => AuthStep::Done,
            other => Self::refuse(other),
        }
    }

    /// Signs a user up and binds the session to them.
    pub fn register(credentials: &RegistrationRequest, session_id: i64, answers: &Vec<AuthAnswer>)
        -> (r: AuthStep)
        ensures
            r@ == Self::registered(*credentials, session_id, answers@),
    {
        if let Some(step) = check_length(
            credentials.email.as_str(),
            0,
            512,
            ApiErrorTemplate::EmailTooLong(None),
            ApiErrorTemplate::EmailTooLong(None),
        ) {
            return step;
        }
        if let Some(step) = check_length(
            credentials.password.as_str(),
            8,
            128,
            ApiErrorTemplate::PasswordTooShort(None),
            ApiErrorTemplate::PasswordTooLong(None),
        ) {
            return step;
        }
        if let Some(step) = check_length(
            credentials.username.as_str(),
            3,
            32,
            ApiErrorTemplate::UsernameTooShort(None),
            ApiErrorTemplate::UsernameTooLong(None),
        ) {
            return step;
        }
        let domain = match domain_of(credentials.email.as_str()) {
            Some(domain) => domain,
            None => {
                return fail(ApiErrorTemplate::EmailInvalid(None));
            },
        };
        if answers.len() <= 0 {
            return AuthStep::Ask(AuthQuery::MxRecords { domain });
        }
        match &answers[0] {
            AuthAnswer::Count(records) => {
                if *records == 0 {
                    return fail(ApiErrorTemplate::EmailInvalid(None));
                }
            },
            AuthAnswer::Failed(error) => {
                let garbled = match &error.kind {
                    crate::api::ApiErrorKind::StdError(IoFailure::InvalidData) => true,
                    _ => false,
                };
                if garbled {
                    return fail(ApiErrorTemplate::EmailInvalid(None));
                }
                return AuthStep::Failed(error.clone());
            },
            _ => {
                return unexpected();
            },
        }
        if answers.len() <= 1 {
            return AuthStep::Ask(
                AuthQuery::UserByUsername { username: credentials.username.clone() },
            );
        }
        if let AuthAnswer::User(_) = &answers[1] {
            return fail(ApiErrorTemplate::UsernameInvalidOrTaken(None));
        }
        if answers.len() <= 2 {
            return AuthStep::Ask(AuthQuery::UserByEmail { email: credentials.email.clone() });
        }
        match &answers[2] {
            AuthAnswer::User(_) => {
                return fail(ApiErrorTemplate::EmailInvalid(None));
            },
            AuthAnswer::Failed(error) => {
                if error.http_code != 404 {
                    return AuthStep::Failed(error.clone());
                }
            },
            _ => {
                return unexpected();
            },
        }
        if answers.len() <= 3 {
            return AuthStep::Ask(AuthQuery::PasswordHash { password: credentials.password.clone() });
        }
        let password_hash = match &answers[3] {
            AuthAnswer::Text(password_hash) => password_hash,
            other => {
                return Self::refuse(other);
            },
        };
        if answers.len() <= 4 {
            return AuthStep::Ask(
                AuthQuery::UserCreate {
                    email: credentials.email.clone(),
                    password_hash: password_hash.clone(),
                    username: credentials.username.clone(),
                },
            );
        }
        match &answers[4] {
            AuthAnswer::User(user) => Self::bind(session_id, Some(user.id), answers, 5),
            other => Self::refuse(other),
        }
    }

    /// Signing in. The email address and the password must be of the right
    /// length, a user must have the address, and the password must match
    /// their hash; a wrong password looks like an unknown address. Then the
    /// session is bound to the user.
    pub open spec fn logged_in(
        credentials: LoginRequest,
        session_id: i64,
        answers: Seq<AuthAnswer>,
    ) -> AuthStepView {
        let email = credentials.email@;
        let password = credentials.password@;
        if email_fault(email) is Some {
            AuthStepView::Failed(email_fault(email)->Some_0)
        } else if password_fault(password) is Some {
            AuthStepView::Failed(password_fault(password)->Some_0)
        } else if answers.len() <= 0 {
            AuthStepView::Ask(AuthQueryView::UserByEmail { email })
        } else {
            match answers[0] {
                AuthAnswer::User(user) => if answers.len() <= 1 {
                    AuthStepView::Ask(
                        AuthQueryView::PasswordVerify {
                            password,
                            password_hash: user.password_hash@,
                        },
                    )
                } else {
                    match answers[1] {
                        AuthAnswer::Verdict(true) => Self::bound(
                            session_id,
                            Some(user.id),
                            answers,
                            2,
                        ),
                        _ => AuthStepView::Failed(ApiErrorTemplate::NotFound(None).error()),
                    }
                },
                other => Self::refusal(other),
            }
        }
    }

    /// Signs a user in and binds the session to them.
    pub fn login(credentials: &LoginRequest, session_id: i64, answers: &Vec<AuthAnswer>) -> (r:
        AuthStep)
        ensures
            r@ == Self::logged_in(*credentials, session_id, answers@),
    {
        if let Some(step) = check_length(
            credentials.email.as_str(),
            0,
            512,
            ApiErrorTemplate::EmailTooLong(None),
            ApiErrorTemplate::EmailTooLong(None),
        ) {
            return step;
        }
        if let Some(step) = check_length(
            credentials.password.as_str(),
            8,
            128,
            ApiErrorTemplate::PasswordTooShort(None),
            ApiErrorTemplate::PasswordTooLong(None),
        ) {
            return step;
        }
        if answers.len() <= 0 {
            return AuthStep::Ask(AuthQuery::UserByEmail { email: credentials.email.clone() });
        }
        let user = match &answers[0] {
            AuthAnswer::User(user) => user,
            other => {
                return Self::refuse(other);
            },
        };
        if answers.len() <= 1 {
            return AuthStep::Ask(
                AuthQuery::PasswordVerify {
                    password: credentials.password.clone(),
                    password_hash: user.password_hash.clone(),
                },
            );
        }
        match &answers[1] {
            AuthAnswer::Verdict(true) => Self::bind(session_id, Some(user.id), answers, 2),
            _ => fail(ApiErrorTemplate::NotFound(None)),
        }
    }

    /// Signs out: the session is bound to nobody.
    pub fn logout(session_id: i64, answers: &Vec<AuthAnswer>) -> (r: AuthStep)
        ensures
            r@ == Self::bound(session_id, None, answers@, 0),
    {
        Self::bind(session_id, None, answers, 0)
    }
}

/// What the look at a request's session comes to.
#[derive(Debug)]
pub enum SessionStep {
    Ask(AuthQuery),
    /// The request goes on under this session. Where the session is new its
    /// token is announced to the client in a header of the response.
    Proceed { session: Session, announce: bool },
    Failed(ApiError),
}

/// The name of the header that announces the token of a new session.
pub open spec fn session_header() -> Seq<char> {
    "x-set-session-token"@
}

/// Looks at the session of every request.
pub struct CheckSession;

/// The part of [`CheckSession`] that stands in front of a service.
pub struct CheckSessionMiddleware;

impl CheckSessionMiddleware {
    /// The name of the header that announces the token of a new session.
    pub fn header_name() -> (r: &'static str)
        ensures
            r@ == session_header(),
    {
        "x-set-session-token"
    }

    /// Finds the session that the token of a request opens. A token that
    /// opens none gets a session of its own, which is announced to the
    /// client. Any other failure fails the request.
    pub fn call(token: &str, answers: &Vec<AuthAnswer>) -> (r: SessionStep)
        ensures
            answers@.len() == 0 ==> r is Ask && r->Ask_0@ == (AuthQueryView::SessionByToken {
                token: token@,
            }),
            answers@.len() > 0 ==> match answers@[0] {
                AuthAnswer::Session(session) => r is Proceed && r->session.id == session.id
                    && r->session.token@ == session.token@ && r->session.user_id == session.user_id
                    && r->session.created_at == session.created_at && !r->announce,
                AuthAnswer::Failed(error) => if error.http_code != 404 {
                    r is Failed && r->Failed_0@ == error@
                } else if answers@.len() == 1 {
                    r is Ask && r->Ask_0@ == AuthQueryView::SessionCreate
                } else {
                    match answers@[1] {
                        AuthAnswer::Session(session) => r is Proceed && r->session.id == session.id
                            && r->session.token@ == session.token@ && r->session.user_id
                            == session.user_id && r->session.created_at == session.created_at
                            && r->announce,
                        AuthAnswer::Failed(error) => r is Failed && r->Failed_0@ == error@,
                        _ => r is Failed && r->Failed_0@ == unexpected_answer(),
                    }
                },
                _ => r is Failed && r->Failed_0@ == unexpected_answer(),
            },
    {
        if answers.len() == 0 {
            return SessionStep::Ask(AuthQuery::SessionByToken { token: String::from_str(token) });
        }
        match &answers[0] {
            AuthAnswer::Session(session) => SessionStep::Proceed {
                session: copy_session(session),
                announce: false,
            },
            AuthAnswer::Failed(error) => {
                if error.http_code != 404 {
                    return SessionStep::Failed(error.clone());
                }
                if answers.len() == 1 {
                    return SessionStep::Ask(AuthQuery::SessionCreate);
                }
                match &answers[1] {
                    AuthAnswer::Session(session) => SessionStep::Proceed {
                        session: copy_session(session),
                        announce: true,
                    },
                    AuthAnswer::Failed(error) => SessionStep::Failed(error.clone()),
                    _ => SessionStep::Failed(
                        ApiError::new(500, None, String::from_str("Unexpected answer"), None),
                    ),
                }
            },
            _ => SessionStep::Failed(
                ApiError::new(500, None, String::from_str("Unexpected answer"), None),
            ),
        }
    }
}

fn copy_session(session: &Session) -> (r: Session)
    ensures
        r.id == session.id,
        r.token@ == session.token@,
        r.user_id == session.user_id,
        r.created_at == session.created_at,
{
    Session {
        id: session.id,
        token: session.token.clone(),
        user_id: session.user_id,
        created_at: session.created_at,
    }
}

} // verus!
