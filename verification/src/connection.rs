//! One connection: the reply to the bytes read from it, and the order in
//! which a transport is asked to shake hands, read, send and close.

use crate::http_ssl::new_server_session;
use crate::http_type::HttpVersion;
use crate::processor::{not_found_wire, process_spec, HttpProcessor, ProcessError, RouteView};
use rustls::{ServerConfig, ServerConnection};
use std::sync::Arc;
use vstd::prelude::*;

verus! {

/// The number of bytes of a request the core looks at.
pub const READ_BUFFER_SIZE: usize = 1024;

/// The request among the bytes received: at most the first
/// `READ_BUFFER_SIZE` of them.
pub open spec fn request_of(received: Seq<u8>) -> Seq<u8> {
    if received.len() <= READ_BUFFER_SIZE {
        received
    } else {
        received.take(READ_BUFFER_SIZE as int)
    }
}

/// The reply for what the processor made of a request: its response, or the
/// fallback response of the version where it has none.
pub open spec fn reply_for(processed: Result<Seq<u8>, ProcessError>, http_version: HttpVersion) -> Seq<
    u8,
> {
    match processed {
        Ok(response) => response,
        Err(_) => not_found_wire(http_version),
    }
}

/// The reply to the bytes received on a connection: none where nothing was
/// received, else the reply for what the processor makes of the request.
pub open spec fn connection_reply(
    routes: Seq<RouteView>,
    http_version: HttpVersion,
    received: Seq<u8>,
) -> Option<Seq<u8>> {
    if received.len() == 0 {
        None
    } else {
        Some(reply_for(process_spec(routes, request_of(received)), http_version))
    }
}

/// Turns what the processor made of a request into the bytes to send.
pub fn reply_to(processed: Result<Vec<u8>, ProcessError>, http_version: &HttpVersion) -> (reply: Vec<
    u8,
>)
    ensures
        reply@ == reply_for(
            match processed {
                Ok(response) => Ok(response@),
                Err(e) => Err(e),
            },
            *http_version,
        ),
{
    match processed {
        Ok(response) => response,
        Err(_) => HttpProcessor::create_404_response(http_version).as_bytes(),
    }
}

/// Computes the reply to the bytes read from a connection in one pass.
pub fn handle_connection(
    received: &[u8],
    processor: &HttpProcessor,
    http_version: &HttpVersion,
) -> (reply: Option<Vec<u8>>)
    ensures
        match reply {
            Some(bytes) => connection_reply(processor@, *http_version, received@) == Some(bytes@),
            None => connection_reply(processor@, *http_version, received@) is None,
        },
{
    if received.len() == 0 {
        return None;
    }
    let n: usize = if received.len() <= READ_BUFFER_SIZE {
        received.len()
    } else {
        READ_BUFFER_SIZE
    };
    let mut request: Vec<u8> = Vec::new();
    crate::http_type::append_bytes(&mut request, vstd::slice::slice_subrange(received, 0, n));
    proof {
        assert(request@ =~= request_of(received@));
    }
    Some(reply_to(processor.process(request), http_version))
}

/// Where a connection stands.
#[derive(Clone, Copy, Debug, PartialEq, Eq, Structural)]
pub enum ConnectionState {
    /// Accepted; no worker has taken it up yet.
    Accepted,
    /// The TLS handshake is under way.
    Handshaking,
    /// Waiting for the request.
    Reading,
    /// The reply is being sent.
    Responding,
    /// Done; the transport is to be dropped.
    Closed,
}

/// What the transport reports to a connection.
pub enum ConnectionEvent {
    /// A worker has taken the connection up.
    Started,
    /// The TLS handshake is complete.
    HandshakeDone,
    /// One read returned these bytes; none means the peer closed.
    Received(Vec<u8>),
    /// The reply was written and flushed.
    Sent,
    /// The transport failed.
    Failed,
}

/// What a connection asks of its transport.
#[derive(Debug)]
pub enum ConnectionAction {
    /// Shake hands over this new server-side TLS session, and use it from
    /// then on.
    Handshake(ServerConnection),
    /// Read once, at most `READ_BUFFER_SIZE` bytes.
    Read,
    /// Write all these bytes and flush.
    Send(Vec<u8>),
    /// Drop the transport.
    Close,
}

/// An event as contracts see it.
pub ghost enum EventView {
    Started,
    HandshakeDone,
    Received(Seq<u8>),
    Sent,
    Failed,
}

/// An action as contracts see it.
pub ghost enum ActionView {
    Handshake,
    Read,
    Send(Seq<u8>),
    Close,
}

impl View for ConnectionEvent {
    type V = EventView;

    open spec fn view(&self) -> EventView {
        match self {
            ConnectionEvent::Started => EventView::Started,
            ConnectionEvent::HandshakeDone => EventView::HandshakeDone,
            ConnectionEvent::Received(bytes) => EventView::Received(bytes@),
            ConnectionEvent::Sent => EventView::Sent,
            ConnectionEvent::Failed => EventView::Failed,
        }
    }
}

impl View for ConnectionAction {
    type V = ActionView;

    open spec fn view(&self) -> ActionView {
        match self {
            ConnectionAction::Handshake(_) => ActionView::Handshake,
            ConnectionAction::Read => ActionView::Read,
            ConnectionAction::Send(bytes) => ActionView::Send(bytes@),
            ConnectionAction::Close => ActionView::Close,
        }
    }
}

/// The next state of a connection and what it asks of its transport.
///
/// A connection goes from `Accepted` through the handshake, where TLS is
/// configured, to `Reading`; from there to `Responding` with the reply, or to
/// `Closed` where nothing was received; and from `Responding` to `Closed`.
/// A failure of the transport, or an event that the state does not await,
/// closes the connection. So does a TLS session that cannot be made:
/// `session` says whether one can.
pub open spec fn step(
    state: ConnectionState,
    tls: bool,
    session: bool,
    event: EventView,
    routes: Seq<RouteView>,
    http_version: HttpVersion,
) -> (ConnectionState, ActionView) {
    match (state, event) {
        (ConnectionState::Accepted, EventView::Started) => if !tls {
            (ConnectionState::Reading, ActionView::Read)
        } else if session {
            (ConnectionState::Handshaking, ActionView::Handshake)
        } else {
            (ConnectionState::Closed, ActionView::Close)
        },
        (ConnectionState::Handshaking, EventView::HandshakeDone) => (
            ConnectionState::Reading,
            ActionView::Read,
        ),
        (ConnectionState::Reading, EventView::Received(received)) => match connection_reply(
            routes,
            http_version,
            received,
        ) {
            Some(reply) => (ConnectionState::Responding, ActionView::Send(reply)),
            None => (ConnectionState::Closed, ActionView::Close),
        },
        _ => (ConnectionState::Closed, ActionView::Close),
    }
}

/// How a connection behind TLS begins, given the outcome of making its
/// session: with the handshake over the session, or closed where there is
/// none.
pub fn begin_handshake(session: Result<ServerConnection, rustls::Error>) -> (begun: (
    ConnectionState,
    ConnectionAction,
))
    ensures
        begun.0 == (if session is Ok {
            ConnectionState::Handshaking
        } else {
            ConnectionState::Closed
        }),
        match session {
            Ok(made) => begun.1 == ConnectionAction::Handshake(made),
            Err(_) => begun.1 == ConnectionAction::Close,
        },
{
    match session {
        Ok(made) => (ConnectionState::Handshaking, ConnectionAction::Handshake(made)),
        Err(_) => (ConnectionState::Closed, ConnectionAction::Close),
    }
}

/// One accepted connection, plain or behind TLS.
pub struct Connection {
    state: ConnectionState,
    secured: bool,
    config: Option<Arc<ServerConfig>>,
}

impl Connection {
    /// A connection behind TLS keeps the configuration until its session is
    /// made.
    #[verifier::type_invariant]
    spec fn holds_config(self) -> bool {
        self.state == ConnectionState::Accepted ==> self.secured == (self.config is Some)
    }

    /// The state of the connection.
    pub closed spec fn spec_state(&self) -> ConnectionState {
        self.state
    }

    /// Whether the connection is behind TLS.
    pub closed spec fn spec_tls(&self) -> bool {
        self.secured
    }

    /// A connection that was just accepted. It is behind TLS where the server
    /// has a TLS configuration.
    pub fn accepted(tls: Option<Arc<ServerConfig>>) -> (conn: Connection)
        ensures
            conn.spec_state() == ConnectionState::Accepted,
            conn.spec_tls() == (tls is Some),
    {
        Connection { state: ConnectionState::Accepted, secured: tls.is_some(), config: tls }
    }

    /// The state of the connection.
    #[verifier::when_used_as_spec(spec_state)]
    pub fn state(&self) -> (state: ConnectionState)
        ensures
            state == self.spec_state(),
    {
        self.state
    }

    /// Whether the connection is behind TLS.
    #[verifier::when_used_as_spec(spec_tls)]
    pub fn tls(&self) -> (tls: bool)
        ensures
            tls == self.spec_tls(),
    {
        self.secured
    }

    /// Takes an event from the transport and says what the transport is to
    /// do next.
    ///
    /// Where a connection behind TLS is started, its session is made here;
    /// whether that succeeds is the TLS library's to say, and both outcomes
    /// follow `step`.
    pub fn advance(
        &mut self,
        event: ConnectionEvent,
        processor: &HttpProcessor,
        http_version: &HttpVersion,
    ) -> (action: ConnectionAction)
        ensures
            final(self).spec_tls() == old(self).spec_tls(),
            exists|session: bool|
                (final(self).spec_state(), action@) == #[trigger] step(
                    old(self).spec_state(),
                    old(self).spec_tls(),
                    session,
                    event@,
                    processor@,
                    *http_version,
                ),
            !(old(self).spec_state() == ConnectionState::Accepted && old(self).spec_tls() && event@
                is Started) ==> (final(self).spec_state(), action@) == step(
                old(self).spec_state(),
                old(self).spec_tls(),
                true,
                event@,
                processor@,
                *http_version,
            ),
    {
        proof {
            use_type_invariant(&*self);
        }
        let from = self.state;
        self.state = ConnectionState::Closed;
        let (next, action) = match (from, event) {
            (ConnectionState::Accepted, ConnectionEvent::Started) => {
                let mut config: Option<Arc<ServerConfig>> = None;
                std::mem::swap(&mut self.config, &mut config);
                match config {
                    Some(config) => begin_handshake(new_server_session(config)),
                    None => (ConnectionState::Reading, ConnectionAction::Read),
                }
            },
            (ConnectionState::Handshaking, ConnectionEvent::HandshakeDone) => (
                ConnectionState::Reading,
                ConnectionAction::Read,
            ),
            (ConnectionState::Reading, ConnectionEvent::Received(received)) => {
                match handle_connection(received.as_slice(), processor, http_version) {
                    Some(reply) => (ConnectionState::Responding, ConnectionAction::Send(reply)),
                    None => (ConnectionState::Closed, ConnectionAction::Close),
                }
            },
            _ => (ConnectionState::Closed, ConnectionAction::Close),
        };
        self.state = next;
        proof {
            let ghost made = next == ConnectionState::Handshaking;
            assert((self.spec_state(), action@) == step(
                from,
                old(self).spec_tls(),
                made,
                event@,
                processor@,
                *http_version,
            ));
        }
        action
    }
}

/// A closed connection stays closed, and a connection that is responding
/// closes on whatever comes next: it answers one request and no more.
pub proof fn lemma_one_reply(
    tls: bool,
    session: bool,
    event: EventView,
    routes: Seq<RouteView>,
    http_version: HttpVersion,
)
    ensures
        step(ConnectionState::Closed, tls, session, event, routes, http_version) == (
            ConnectionState::Closed,
            ActionView::Close,
        ),
        step(ConnectionState::Responding, tls, session, event, routes, http_version) == (
            ConnectionState::Closed,
            ActionView::Close,
        ),
{
}

/// Whatever the transport reports, a connection is closed after four events.
pub proof fn lemma_closed_after_four_events(
    state: ConnectionState,
    tls: bool,
    session: bool,
    events: Seq<EventView>,
    routes: Seq<RouteView>,
    http_version: HttpVersion,
)
    requires
        events.len() == 4,
    ensures
        ({
            let s1 = step(state, tls, session, events[0], routes, http_version).0;
            let s2 = step(s1, tls, session, events[1], routes, http_version).0;
            let s3 = step(s2, tls, session, events[2], routes, http_version).0;
            step(s3, tls, session, events[3], routes, http_version).0
        }) == ConnectionState::Closed,
{
}

/// A failure of the transport closes the connection in every state.
pub proof fn lemma_failure_closes(
    state: ConnectionState,
    tls: bool,
    session: bool,
    routes: Seq<RouteView>,
    http_version: HttpVersion,
)
    ensures
        step(state, tls, session, EventView::Failed, routes, http_version) == (
            ConnectionState::Closed,
            ActionView::Close,
        ),
{
}

} // verus!
