//! A connection and where it stands in the protocol.

use vstd::prelude::*;
use crate::exchange::{
    ask_session, asked_session, Answer, Progress, ProgressView, Query, QueryView, Step, StepView,
};
use crate::messages::DisconnectionMessage;
use crate::snowflake::{generate, IdGenerator};
use crate::templates::WebSocketErrorTemplate;

verus! {

/// Milliseconds between two looks at a connection's liveness.
pub const HEARTBEAT_INTERVAL: u64 = 15000;

/// Milliseconds of silence after which a peer counts as dead.
pub const CLIENT_TIMEOUT: u64 = 45000;

/// How a connection writes its envelopes: as a binary term or as text.
#[derive(Clone, Copy, Debug, PartialEq, Eq, Structural)]
pub enum Encoding {
    Etf,
    Json,
}

/// What a client says of itself when it opens a socket.
#[derive(Clone, Copy, Debug, PartialEq, Eq, Structural)]
pub struct QueryParams {
    pub encoding: Encoding,
}

/// Where a connection stands in the protocol.
#[derive(Clone, Copy, Debug, PartialEq, Eq, Structural)]
pub enum State {
    Unauthenticated,
    Authenticated,
    Closed,
}

/// One live socket. It is unauthenticated until it holds a session, and
/// closed for good once the server has decided to close it.
/// `last_heartbeat_at` counts milliseconds on a clock that never runs
/// backwards.
#[derive(Clone, Copy, Debug, PartialEq, Eq, Structural)]
pub struct WebSocketConnection {
    pub id: i64,
    pub session_id: Option<i64>,
    pub last_heartbeat_at: u64,
    pub encoding: Encoding,
    pub closed: bool,
}

impl WebSocketConnection {
    /// True once the connection holds a session.
    pub open spec fn authenticated(self) -> bool {
        self.session_id is Some
    }

    /// Where the connection stands in the protocol.
    pub open spec fn state(self) -> State {
        if self.closed {
            State::Closed
        } else if self.authenticated() {
            State::Authenticated
        } else {
            State::Unauthenticated
        }
    }

    /// The connection once the server has decided to close it.
    pub open spec fn shut(self) -> WebSocketConnection {
        WebSocketConnection { closed: true, ..self }
    }

    /// Tells where the connection stands in the protocol.
    pub fn position(&self) -> (r: State)
        ensures
            r == self.state(),
    {
        if self.closed {
            State::Closed
        } else if self.session_id.is_some() {
            State::Authenticated
        } else {
            State::Unauthenticated
        }
    }

    /// True when the peer has been silent for longer than the timeout.
    pub open spec fn timed_out(self, now: u64) -> bool {
        now - self.last_heartbeat_at > CLIENT_TIMEOUT
    }

    /// A fresh, unauthenticated connection with an id of its own.
    pub fn new(encoding: Encoding, generator: &mut IdGenerator, now: u64) -> (r:
        WebSocketConnection)
        ensures
            r.state() == State::Unauthenticated,
            r.encoding == encoding,
            r.last_heartbeat_at == now,
            final(generator).machine() == old(generator).machine(),
            final(generator).node() == old(generator).node(),
    {
        WebSocketConnection {
            id: generate(generator),
            session_id: None,
            last_heartbeat_at: now,
            encoding,
            closed: false,
        }
    }

    /// The periodic look at the connection: whether to close it because the
    /// peer has been silent for too long. A connection that is to be closed
    /// is closed for good.
    pub fn heartbeat(&mut self, now: u64) -> (r: bool)
        ensures
            r == (old(self).timed_out(now) && !old(self).closed),
            *final(self) == (if r {
                old(self).shut()
            } else {
                *old(self)
            }),
    {
        if !self.closed && now > self.last_heartbeat_at && now - self.last_heartbeat_at
            > CLIENT_TIMEOUT {
            self.closed = true;
            true
        } else {
            false
        }
    }

    /// What to tell the registry when the connection stops.
    pub fn stopping(&self) -> (r: DisconnectionMessage)
        ensures
            r.connection_id == self.id,
    {
        DisconnectionMessage { connection_id: self.id }
    }
}

/// The user behind an authenticated connection: the user of its session,
/// looked up through answer `at`. A session without a user is
/// unauthorized.
pub open spec fn session_owner(connection: WebSocketConnection, answers: Seq<Answer>, at: int)
    -> ProgressView<i64> {
    match asked_session(
        QueryView::SessionById { id: connection.session_id->Some_0 },
        answers,
        at,
    ) {
        ProgressView::Stop(step) => ProgressView::Stop(step),
        ProgressView::Go(session) => match session.user_id {
            Some(user_id) => ProgressView::Go(user_id),
            None => ProgressView::Stop(
                StepView::Failed(WebSocketErrorTemplate::Unauthorized(None).error()),
            ),
        },
    }
}

/// Looks up the user behind an authenticated connection.
pub fn session_user(connection: &WebSocketConnection, answers: &Vec<Answer>, at: usize) -> (r:
    Progress<i64>)
    requires
        connection.authenticated(),
    ensures
        match r {
            Progress::Stop(step) => session_owner(*connection, answers@, at as int)
                == ProgressView::<i64>::Stop(step@),
            Progress::Go(user_id) => session_owner(*connection, answers@, at as int)
                == ProgressView::Go(user_id),
        },
{
    let id = connection.session_id.unwrap();
    match ask_session(Query::SessionById { id }, answers, at) {
        Progress::Stop(step) => Progress::Stop(step),
        Progress::Go(session) => match session.user_id {
            Some(user_id) => Progress::Go(user_id),
            None => Progress::Stop(
                Step::Failed(WebSocketErrorTemplate::Unauthorized(None).into_error()),
            ),
        },
    }
}

} // verus!
