use tungstenite::http::HeaderMap;
use vstd::prelude::*;

use crate::duration::{Duration, NANOS_PER_SEC};
use crate::headers::{fits, header_entries, may_fit, no_entries};
use crate::identifier::{is_random_uuid, random_identifier};
use crate::message::RealtimeMessage;
use crate::places::places;
use crate::realtime_channel::{ChannelManager, SocketTx};
use crate::realtime_client as base;
use crate::realtime_client::{at_places, naming_client, ClientAction, ClientState, Delivery};
use crate::string_map::StringMap;
use crate::sync::realtime_channel::{RealtimeChannel, RealtimeChannelBuilder};

pub use crate::realtime_client::{ConnectError, ReconnectFn};

verus! {

/// Error type for signing in
#[derive(Debug, Clone, Copy, PartialEq, Eq, Structural)]
pub enum AuthError {
    BadLogin,
    MalformedData,
}

/// Connection state of [RealtimeClient]
#[derive(Debug, Clone, Copy, PartialEq, Eq, Structural)]
pub enum ConnectionState {
    /// Client wants to reconnect
    Reconnect,
    /// Client is mid-reconnect
    Reconnecting,
    Connecting,
    Open,
    Closing,
    Closed,
}

impl Default for ConnectionState {
    fn default() -> (state: Self)
        ensures
            state == ConnectionState::Closed,
    {
        ConnectionState::Closed
    }
}

/// The connection state of a client in the given state.
pub open spec fn connection_state(state: ClientState) -> ConnectionState {
    match state {
        ClientState::Reconnect => ConnectionState::Reconnect,
        ClientState::Reconnecting => ConnectionState::Reconnecting,
        ClientState::Connecting => ConnectionState::Connecting,
        ClientState::Open => ConnectionState::Open,
        ClientState::Closing => ConnectionState::Closing,
        ClientState::Closed => ConnectionState::Closed,
    }
}

/// Why no message could be taken out of a queue
#[derive(Debug, Clone, Copy, PartialEq, Eq, Structural)]
pub enum TryRecvError {
    Empty,
    Disconnected,
}

/// Error returned by the internal monitor of [RealtimeClient]
#[derive(Debug, Clone, Copy, PartialEq, Eq, Structural)]
pub enum MonitorError {
    ReconnectError,
    MaxReconnects,
    WouldBlock,
    Disconnected,
}

/// Error type for internal socket related errors in [RealtimeClient]
#[derive(Debug, Clone, Copy, PartialEq, Eq, Structural)]
pub enum SocketError {
    NoSocket,
    NoRead,
    NoWrite,
    Disconnected,
    WouldBlock,
    TooManyRetries,
    HandshakeError,
}

/// Why there is no next message.
/// Can be WouldBlock
#[derive(Debug, Clone, Copy, PartialEq, Eq, Structural)]
pub enum NextMessageError {
    WouldBlock,
    TryRecvError(TryRecvError),
    NoChannel,
    ChannelClosed,
    ClientClosed,
    SocketError(SocketError),
    MonitorError(MonitorError),
}

impl TryRecvError {
    /// The name of the error.
    pub open spec fn name(self) -> Seq<char> {
        match self {
            TryRecvError::Empty => "Empty"@,
            TryRecvError::Disconnected => "Disconnected"@,
        }
    }
}

impl MonitorError {
    /// The name of the error.
    pub open spec fn name(self) -> Seq<char> {
        match self {
            MonitorError::ReconnectError => "ReconnectError"@,
            MonitorError::MaxReconnects => "MaxReconnects"@,
            MonitorError::WouldBlock => "WouldBlock"@,
            MonitorError::Disconnected => "Disconnected"@,
        }
    }
}

impl SocketError {
    /// The name of the error.
    pub open spec fn name(self) -> Seq<char> {
        match self {
            SocketError::NoSocket => "NoSocket"@,
            SocketError::NoRead => "NoRead"@,
            SocketError::NoWrite => "NoWrite"@,
            SocketError::Disconnected => "Disconnected"@,
            SocketError::WouldBlock => "WouldBlock"@,
            SocketError::TooManyRetries => "TooManyRetries"@,
            SocketError::HandshakeError => "HandshakeError"@,
        }
    }
}

impl NextMessageError {
    /// The error in words: its name, with the name of the error inside it in
    /// parentheses.
    pub open spec fn text(self) -> Seq<char> {
        match self {
            NextMessageError::WouldBlock => "WouldBlock"@,
            NextMessageError::TryRecvError(inner) => "TryRecvError("@ + inner.name() + ")"@,
            NextMessageError::NoChannel => "NoChannel"@,
            NextMessageError::ChannelClosed => "ChannelClosed"@,
            NextMessageError::ClientClosed => "ClientClosed"@,
            NextMessageError::SocketError(inner) => "SocketError("@ + inner.name() + ")"@,
            NextMessageError::MonitorError(inner) => "MonitorError("@ + inner.name() + ")"@,
        }
    }

    /// Writes the error in words.
    pub fn to_text(&self) -> (text: String)
        ensures
            text@ == self.text(),
    {
        let (outer, inner): (&'static str, Option<&'static str>) = match self {
            NextMessageError::WouldBlock => ("WouldBlock", None),
            NextMessageError::TryRecvError(inner) => (
                "TryRecvError(",
                Some(
                    match inner {
                        TryRecvError::Empty => "Empty",
                        TryRecvError::Disconnected => "Disconnected",
                    },
                ),
            ),
            NextMessageError::NoChannel => ("NoChannel", None),
            NextMessageError::ChannelClosed => ("ChannelClosed", None),
            NextMessageError::ClientClosed => ("ClientClosed", None),
            NextMessageError::SocketError(inner) => (
                "SocketError(",
                Some(
                    match inner {
                        SocketError::NoSocket => "NoSocket",
                        SocketError::NoRead => "NoRead",
                        SocketError::NoWrite => "NoWrite",
                        SocketError::Disconnected => "Disconnected",
                        SocketError::WouldBlock => "WouldBlock",
                        SocketError::TooManyRetries => "TooManyRetries",
                        SocketError::HandshakeError => "HandshakeError",
                    },
                ),
            ),
            NextMessageError::MonitorError(inner) => (
                "MonitorError(",
                Some(
                    match inner {
                        MonitorError::ReconnectError => "ReconnectError",
                        MonitorError::MaxReconnects => "MaxReconnects",
                        MonitorError::WouldBlock => "WouldBlock",
                        MonitorError::Disconnected => "Disconnected",
                    },
                ),
            ),
        };
        let mut text = outer.to_owned();
        if let Some(inner) = inner {
            text.append(inner);
            text.append(")");
        }
        text
    }
}

/// What a client can be asked for.
#[derive(Debug)]
pub enum ClientManagerMessage {
    Connect,
    GetWsTx,
    GetAccessToken,
    AddChannel { manager: ChannelManager },
}

/// The same, as it is put to any client.
pub open spec fn client_request(request: ClientManagerMessage) -> base::ClientManagerMessage {
    match request {
        ClientManagerMessage::Connect => base::ClientManagerMessage::Connect,
        ClientManagerMessage::GetWsTx => base::ClientManagerMessage::GetWsTx,
        ClientManagerMessage::GetAccessToken => base::ClientManagerMessage::GetAccessToken,
        ClientManagerMessage::AddChannel { manager } => base::ClientManagerMessage::AddChannel {
            manager,
        },
    }
}

/// Websocket client that interfaces with Supabase Realtime
#[derive(Debug)]
pub struct RealtimeClient<R, E, D, M> {
    pub client: base::RealtimeClient<R, E, D>,
    pub next_ref: String,
    /// What is run on each message that is received, under the identifier that
    /// it was given.
    pub middleware: Vec<(String, M)>,
    pub connection_timeout: Duration,
    pub max_events_per_second: usize,
}

/// The middleware but for that under `id`.
pub open spec fn without_middleware<M>(middleware: Seq<(String, M)>, id: Seq<char>) -> Seq<
    (String, M),
>
    decreases middleware.len(),
{
    if middleware.len() == 0 {
        Seq::empty()
    } else {
        let front = without_middleware(middleware.drop_last(), id);
        if middleware.last().0@ == id {
            front
        } else {
            front.push(middleware.last())
        }
    }
}

/// Whether each middleware takes every message.
pub open spec fn runs_on_any<M: Fn(RealtimeMessage) -> RealtimeMessage>(
    middleware: Seq<(String, M)>,
) -> bool {
    forall|i: int, message: RealtimeMessage|
        0 <= i < middleware.len() ==> #[trigger] call_requires(middleware[i].1, (message,))
}

/// Whether `after` can be what all middleware, one after the other, makes of
/// `before`.
pub open spec fn runs_to<M: Fn(RealtimeMessage) -> RealtimeMessage>(
    middleware: Seq<(String, M)>,
    before: RealtimeMessage,
    after: RealtimeMessage,
) -> bool
    decreases middleware.len(),
{
    if middleware.len() == 0 {
        after == before
    } else {
        exists|between: RealtimeMessage|
            runs_to(middleware.drop_last(), before, between) && #[trigger] call_ensures(
                middleware.last().1,
                (between,),
                after,
            )
    }
}

/// Which channels have the given topic.
pub open spec fn has_topic(topics: Seq<String>, topic: Seq<char>) -> spec_fn(int) -> bool {
    |i: int| topics[i]@ == topic
}

impl<R, E, D, M> RealtimeClient<R, E, D, M> {
    /// Returns this client's [ConnectionState]
    pub fn get_status(&self) -> (status: ConnectionState)
        ensures
            status == connection_state(self.client.state),
    {
        match self.client.state {
            ClientState::Reconnect => ConnectionState::Reconnect,
            ClientState::Reconnecting => ConnectionState::Reconnecting,
            ClientState::Connecting => ConnectionState::Connecting,
            ClientState::Open => ConnectionState::Open,
            ClientState::Closing => ConnectionState::Closing,
            ClientState::Closed => ConnectionState::Closed,
        }
    }

    /// Takes in what the client is asked for. Returns what is to be done.
    pub fn manager_recv(&mut self, request: ClientManagerMessage) -> (action: ClientAction)
        requires
            request is GetWsTx ==> old(self).client.ws_tx is Some,
        ensures
            *final(self) == (RealtimeClient { client: final(self).client, ..*old(self) }),
            base::RealtimeClient::was_asked(
                old(self).client,
                final(self).client,
                client_request(request),
                action,
            ),
    {
        let request = match request {
            ClientManagerMessage::Connect => base::ClientManagerMessage::Connect,
            ClientManagerMessage::GetWsTx => base::ClientManagerMessage::GetWsTx,
            ClientManagerMessage::GetAccessToken => base::ClientManagerMessage::GetAccessToken,
            ClientManagerMessage::AddChannel { manager } => base::ClientManagerMessage::AddChannel {
                manager,
            },
        };
        self.client.manager_recv(request)
    }

    /// Says where a message is to be sent: it goes to the socket as it is. The
    /// client must have connected before.
    pub fn send(&self, message: RealtimeMessage) -> (sending: (SocketTx, RealtimeMessage))
        requires
            self.client.ws_tx is Some,
        ensures
            Some(sending.0) == self.client.ws_tx,
            sending.1 == message,
    {
        (self.client.ws_tx.unwrap(), message)
    }

    /// Use provided JWT to authorize future requests from this client and all channels.
    /// Returns the channels that are to take it over.
    pub fn set_auth(&mut self, access_token: String) -> (channels: Vec<ChannelManager>)
        ensures
            *final(self) == (RealtimeClient { client: final(self).client, ..*old(self) }),
            final(self).client == (base::RealtimeClient { access_token, ..old(self).client }),
            channels@ == old(self).client.channels@,
    {
        self.client.access_token = access_token;
        base::copy_list(&self.client.channels)
    }

    /// Add a callback to run mutably on received [RealtimeMessage]s before any other registered
    /// callbacks. Returns the identifier by which it can be removed.
    pub fn add_middleware(&mut self, middleware: M) -> (id: String)
        ensures
            is_random_uuid(id@),
            *final(self) == (RealtimeClient { middleware: final(self).middleware, ..*old(self) }),
            final(self).middleware@ == without_middleware(old(self).middleware@, id@).push(
                (final(self).middleware@.last().0, middleware),
            ),
            final(self).middleware@.last().0@ == id@,
    {
        let id = random_identifier();
        self.put_middleware(id.clone(), middleware);
        id
    }

    /// Registers middleware under an identifier, in place of what stood there.
    pub fn put_middleware(&mut self, id: String, middleware: M)
        ensures
            *final(self) == (RealtimeClient { middleware: final(self).middleware, ..*old(self) }),
            final(self).middleware@ == without_middleware(old(self).middleware@, id@).push(
                (id, middleware),
            ),
    {
        self.forget_middleware(&id);
        self.middleware.push((id, middleware));
    }

    /// Remove middleware by its identifier
    pub fn remove_middleware(&mut self, id: String) -> (client: &mut Self)
        ensures
            *client == (RealtimeClient { middleware: client.middleware, ..*old(self) }),
            client.middleware@ == without_middleware(old(self).middleware@, id@),
            *final(self) == *final(client),
    {
        self.forget_middleware(&id);
        self
    }

    fn forget_middleware(&mut self, id: &String)
        ensures
            *final(self) == (RealtimeClient { middleware: final(self).middleware, ..*old(self) }),
            final(self).middleware@ == without_middleware(old(self).middleware@, id@),
    {
        let mut all: Vec<(String, M)> = Vec::new();
        std::mem::swap(&mut all, &mut self.middleware);
        let ghost known = all@;
        let mut kept: Vec<(String, M)> = Vec::new();
        proof {
            assert(kept@ =~= without_middleware(known.take(0), id@));
        }
        for entry in it: all
            invariant
                it.seq() == known,
                kept@ == without_middleware(known.take(it.index()), id@),
        {
            let ghost n = it.index();
            proof {
                assert(known.take(n + 1).drop_last() =~= known.take(n));
                assert(known.take(n + 1).last() == entry);
            }
            if entry.0 != *id {
                kept.push(entry);
            }
        }
        proof {
            assert(known.take(known.len() as int) =~= known);
        }
        self.middleware = kept;
    }
}

impl<R, E, D, M: Fn(RealtimeMessage) -> RealtimeMessage> RealtimeClient<R, E, D, M> {
    /// Runs all middleware on a message, in the order in which it was added.
    pub fn run_middleware(&self, message: RealtimeMessage) -> (after: RealtimeMessage)
        requires
            runs_on_any(self.middleware@),
        ensures
            runs_to(self.middleware@, message, after),
    {
        let mut current = message;
        let ghost all = self.middleware@;
        for i in 0..self.middleware.len()
            invariant
                all == self.middleware@,
                runs_on_any(all),
                runs_to(all.take(i as int), message, current),
        {
            let ghost between = current;
            let (_, run) = &self.middleware[i];
            current = run(current);
            proof {
                let next = all.take(i + 1);
                assert(next.drop_last() =~= all.take(i as int));
                assert(next.last() == all[i as int]);
                assert(call_ensures(next.last().1, (between,), current));
                assert(runs_to(next, message, current));
            }
        }
        proof {
            assert(all.take(all.len() as int) =~= all);
        }
        current
    }

    /// Takes in a message from the server. The middleware has it first, then
    /// the channels that have its topic.
    ///
    /// `topics` are the topics of the client's channels, in their order.
    pub fn receive(&self, message: RealtimeMessage, topics: &Vec<String>) -> (delivery: Delivery)
        requires
            runs_on_any(self.middleware@),
            topics@.len() == self.client.channels@.len(),
        ensures
            runs_to(self.middleware@, message, delivery.message),
            delivery.channels@ == at_places(
                self.client.channels@,
                places(topics@.len() as int, has_topic(topics@, delivery.message.topic@)),
            ),
    {
        let message = self.run_middleware(message);
        let mut addressed: Vec<ChannelManager> = Vec::new();
        let ghost known = self.client.channels@;
        let ghost gets = has_topic(topics@, message.topic@);
        proof {
            assert(addressed@ =~= at_places(known, places(0, gets)));
        }
        for i in 0..topics.len()
            invariant
                known == self.client.channels@,
                known.len() == topics@.len(),
                gets == has_topic(topics@, message.topic@),
                addressed@ == at_places(known, places(i as int, gets)),
        {
            let ghost before = addressed@;
            if topics[i] == message.topic {
                addressed.push(self.client.channels[i]);
                proof {
                    assert(at_places(known, places(i + 1, gets)) =~= before.push(known[i as int]));
                }
            }
        }
        Delivery { message, channels: addressed }
    }
}

/// Builder struct for [RealtimeClient]
#[derive(Debug)]
pub struct RealtimeClientBuilder<R, E, D> {
    pub builder: base::RealtimeClientBuilder<R, E, D>,
    pub connection_timeout: Duration,
    pub auth_url: Option<String>,
    pub max_events_per_second: usize,
}

impl RealtimeClient<(), (), (), ()> {
    /// Returns a new [RealtimeClientBuilder] with provided `endpoint` and `access_token`
    pub fn builder(endpoint: String, access_token: String) -> (made: RealtimeClientBuilder<
        impl Fn(usize) -> Duration + Copy,
        impl Fn(RealtimeMessage) -> RealtimeMessage + Copy,
        impl Fn(RealtimeMessage) -> RealtimeMessage + Copy,
    >)
        ensures
            made.is_fresh(endpoint, access_token),
            made.builder.reconnect_interval.is_stepped(),
    {
        RealtimeClientBuilder::new(endpoint, access_token)
    }
}

impl RealtimeClientBuilder<(), (), ()> {
    /// Creates a new [RealtimeClientBuilder]
    pub fn new(endpoint: String, anon_key: String) -> (made: RealtimeClientBuilder<
        impl Fn(usize) -> Duration + Copy,
        impl Fn(RealtimeMessage) -> RealtimeMessage + Copy,
        impl Fn(RealtimeMessage) -> RealtimeMessage + Copy,
    >)
        ensures
            made.is_fresh(endpoint, anon_key),
            made.builder.reconnect_interval.is_stepped(),
    {
        RealtimeClientBuilder {
            builder: base::RealtimeClientBuilder::new(endpoint, anon_key),
            connection_timeout: Duration::from_secs(10),
            auth_url: None,
            max_events_per_second: 10,
        }
    }
}

impl<R, E, D> RealtimeClientBuilder<R, E, D> {
    /// Whether nothing was said of the client but its endpoint and its access
    /// token.
    pub open spec fn is_fresh(&self, endpoint: String, access_token: String) -> bool {
        &&& self.builder.wf()
        &&& header_entries(self.builder.headers) == naming_client(no_entries())
        &&& self.builder.params is None
        &&& self.builder.heartbeat_interval == (Duration { secs: 29, nanos: 0 })
        &&& self.builder.encode is None
        &&& self.builder.decode is None
        &&& self.builder.reconnect_max_attempts == usize::MAX
        &&& self.builder.endpoint == endpoint
        &&& self.builder.access_token == access_token
        &&& self.connection_timeout == (Duration { secs: 10, nanos: 0 })
        &&& self.auth_url is None
        &&& self.max_events_per_second == 10
    }

    pub fn access_token(self, access_token: String) -> (made: Self)
        ensures
            made == (RealtimeClientBuilder {
                builder: base::RealtimeClientBuilder { access_token, ..self.builder },
                ..self
            }),
    {
        RealtimeClientBuilder {
            builder: self.builder.access_token(access_token),
            connection_timeout: self.connection_timeout,
            auth_url: self.auth_url,
            max_events_per_second: self.max_events_per_second,
        }
    }

    /// Sets the client headers. Headers always contain "X-Client-Info: realtime-rs/{version}".
    pub fn set_headers(self, set_headers: HeaderMap) -> (made: Self)
        requires
            fits(naming_client(header_entries(set_headers))),
        ensures
            made == (RealtimeClientBuilder {
                builder: base::RealtimeClientBuilder {
                    headers: made.builder.headers,
                    ..self.builder
                },
                ..self
            }),
            header_entries(made.builder.headers) == naming_client(header_entries(set_headers)),
            made.builder.wf(),
    {
        RealtimeClientBuilder {
            builder: self.builder.set_headers(set_headers),
            connection_timeout: self.connection_timeout,
            auth_url: self.auth_url,
            max_events_per_second: self.max_events_per_second,
        }
    }

    /// Sets the client headers, unless the header map does not take the header that
    /// names the client besides them. Then the builder comes back as it was.
    ///
    /// Whether it takes one more is up to how the names hash where there are many.
    pub fn checked_set_headers(self, set_headers: HeaderMap) -> (made: Result<Self, Self>)
        ensures
            fits(naming_client(header_entries(set_headers))) ==> made is Ok,
            made is Ok ==> may_fit(naming_client(header_entries(set_headers))),
            made matches Ok(new) ==> new == (RealtimeClientBuilder {
                builder: base::RealtimeClientBuilder {
                    headers: new.builder.headers,
                    ..self.builder
                },
                ..self
            }) && header_entries(new.builder.headers) == naming_client(header_entries(set_headers))
                && new.builder.wf(),
            made matches Err(same) ==> same == self,
    {
        match self.builder.checked_set_headers(set_headers) {
            Ok(builder) => Ok(
                RealtimeClientBuilder {
                    builder,
                    connection_timeout: self.connection_timeout,
                    auth_url: self.auth_url,
                    max_events_per_second: self.max_events_per_second,
                },
            ),
            Err(builder) => Err(
                RealtimeClientBuilder {
                    builder,
                    connection_timeout: self.connection_timeout,
                    auth_url: self.auth_url,
                    max_events_per_second: self.max_events_per_second,
                },
            ),
        }
    }

    /// Merges provided [HeaderMap] with currently held headers. The header that
    /// names the client is put last, whatever `headers` says of it.
    pub fn add_headers(self, headers: HeaderMap) -> (made: Self)
        requires
            fits(
                naming_client(
                    header_entries(self.builder.headers).union_prefer_right(
                        header_entries(headers),
                    ),
                ),
            ),
        ensures
            made == (RealtimeClientBuilder {
                builder: base::RealtimeClientBuilder {
                    headers: made.builder.headers,
                    ..self.builder
                },
                ..self
            }),
            header_entries(made.builder.headers) == naming_client(
                header_entries(self.builder.headers).union_prefer_right(header_entries(headers)),
            ),
            made.builder.wf(),
    {
        RealtimeClientBuilder {
            builder: self.builder.add_headers(headers),
            connection_timeout: self.connection_timeout,
            auth_url: self.auth_url,
            max_events_per_second: self.max_events_per_second,
        }
    }

    /// Merges provided [HeaderMap] with currently held headers, unless the header
    /// map does not take them all. Then the builder comes back as it was. The
    /// header that names the client is put last, whatever `headers` says of it.
    ///
    /// Whether it takes one more is up to how the names hash where there are many.
    pub fn checked_add_headers(self, headers: HeaderMap) -> (made: Result<Self, Self>)
        ensures
            fits(
                naming_client(
                    header_entries(self.builder.headers).union_prefer_right(
                        header_entries(headers),
                    ),
                ),
            ) ==> made is Ok,
            made is Ok ==> may_fit(
                naming_client(
                    header_entries(self.builder.headers).union_prefer_right(
                        header_entries(headers),
                    ),
                ),
            ),
            made matches Ok(new) ==> new == (RealtimeClientBuilder {
                builder: base::RealtimeClientBuilder {
                    headers: new.builder.headers,
                    ..self.builder
                },
                ..self
            }) && header_entries(new.builder.headers) == naming_client(
                header_entries(self.builder.headers).union_prefer_right(header_entries(headers)),
            ) && new.builder.wf(),
            made matches Err(same) ==> same == self,
    {
        match self.builder.checked_add_headers(headers) {
            Ok(builder) => Ok(
                RealtimeClientBuilder {
                    builder,
                    connection_timeout: self.connection_timeout,
                    auth_url: self.auth_url,
                    max_events_per_second: self.max_events_per_second,
                },
            ),
            Err(builder) => Err(
                RealtimeClientBuilder {
                    builder,
                    connection_timeout: self.connection_timeout,
                    auth_url: self.auth_url,
                    max_events_per_second: self.max_events_per_second,
                },
            ),
        }
    }

    /// Set endpoint URL params
    pub fn params(self, params: StringMap<String>) -> (made: Self)
        ensures
            made == (RealtimeClientBuilder {
                builder: base::RealtimeClientBuilder { params: Some(params), ..self.builder },
                ..self
            }),
    {
        RealtimeClientBuilder {
            builder: self.builder.params(params),
            connection_timeout: self.connection_timeout,
            auth_url: self.auth_url,
            max_events_per_second: self.max_events_per_second,
        }
    }

    /// Set [Duration] between heartbeat packets. Default 29 seconds.
    pub fn heartbeat_interval(self, heartbeat_interval: Duration) -> (made: Self)
        ensures
            made == (RealtimeClientBuilder {
                builder: base::RealtimeClientBuilder { heartbeat_interval, ..self.builder },
                ..self
            }),
    {
        RealtimeClientBuilder {
            builder: self.builder.heartbeat_interval(heartbeat_interval),
            connection_timeout: self.connection_timeout,
            auth_url: self.auth_url,
            max_events_per_second: self.max_events_per_second,
        }
    }

    /// Set the function to provide time between reconnection attempts
    /// The provided function should take a count of reconnect attempts and return a [Duration] to wait
    /// until the next attempt is made.
    ///
    /// Don't implement an untested timing function here in prod or you might make a few too many
    /// requests.
    ///
    /// Defaults to stepped backoff.
    pub fn reconnect_interval<F: Fn(usize) -> Duration>(self, reconnect_interval: ReconnectFn<F>) -> (made:
        RealtimeClientBuilder<F, E, D>)
        ensures
            made == (RealtimeClientBuilder {
                builder: base::RealtimeClientBuilder {
                    headers: self.builder.headers,
                    params: self.builder.params,
                    heartbeat_interval: self.builder.heartbeat_interval,
                    encode: self.builder.encode,
                    decode: self.builder.decode,
                    reconnect_interval,
                    reconnect_max_attempts: self.builder.reconnect_max_attempts,
                    endpoint: self.builder.endpoint,
                    access_token: self.builder.access_token,
                },
                connection_timeout: self.connection_timeout,
                auth_url: self.auth_url,
                max_events_per_second: self.max_events_per_second,
            }),
    {
        RealtimeClientBuilder {
            builder: self.builder.reconnect_interval(reconnect_interval),
            connection_timeout: self.connection_timeout,
            auth_url: self.auth_url,
            max_events_per_second: self.max_events_per_second,
        }
    }

    /// Configure the number of reconnect attempts to be made before erroring
    pub fn reconnect_max_attempts(self, max_attempts: usize) -> (made: Self)
        ensures
            made == (RealtimeClientBuilder {
                builder: base::RealtimeClientBuilder {
                    reconnect_max_attempts: max_attempts,
                    ..self.builder
                },
                ..self
            }),
    {
        RealtimeClientBuilder {
            builder: self.builder.reconnect_max_attempts(max_attempts),
            connection_timeout: self.connection_timeout,
            auth_url: self.auth_url,
            max_events_per_second: self.max_events_per_second,
        }
    }

    /// Configure the duration to wait for a connection to succeed.
    /// Default: 10 seconds
    /// Minimum: 1 second
    pub fn connection_timeout(self, timeout: Duration) -> (made: Self)
        ensures
            made == (RealtimeClientBuilder { connection_timeout: made.connection_timeout, ..self }),
            made.connection_timeout == (if timeout.total_nanos() < NANOS_PER_SEC {
                Duration { secs: 1, nanos: 0 }
            } else {
                timeout
            }),
    {
        let connection_timeout = if timeout.is_below_second() {
            Duration::from_secs(1)
        } else {
            timeout
        };
        RealtimeClientBuilder { connection_timeout, ..self }
    }

    /// Set the base URL for the auth server
    /// In live supabase deployments this is the same as the endpoint URL, and defaults as such.
    /// In local deployments this may need to be set manually
    pub fn auth_url(self, auth_url: String) -> (made: Self)
        ensures
            made == (RealtimeClientBuilder { auth_url: Some(auth_url), ..self }),
            made.auth_base() == auth_url@,
    {
        RealtimeClientBuilder { auth_url: Some(auth_url), ..self }
    }

    /// The base URL for the auth server: the endpoint URL unless another one was
    /// set.
    pub open spec fn auth_base(&self) -> Seq<char> {
        match self.auth_url {
            Some(auth_url) => auth_url@,
            None => self.builder.endpoint@,
        }
    }

    /// Returns the base URL for the auth server.
    pub fn get_auth_url(&self) -> (auth_url: &String)
        ensures
            auth_url@ == self.auth_base(),
    {
        match &self.auth_url {
            Some(auth_url) => auth_url,
            None => &self.builder.endpoint,
        }
    }

    /// Sets the max messages we can send in a second.
    /// Default: 10
    pub fn max_events_per_second(self, count: usize) -> (made: Self)
        ensures
            made == (RealtimeClientBuilder { max_events_per_second: count, ..self }),
    {
        RealtimeClientBuilder { max_events_per_second: count, ..self }
    }

    pub fn encode<I: Fn(RealtimeMessage) -> RealtimeMessage>(self, encode: I) -> (made:
        RealtimeClientBuilder<R, I, D>)
        ensures
            made == (RealtimeClientBuilder {
                builder: base::RealtimeClientBuilder {
                    headers: self.builder.headers,
                    params: self.builder.params,
                    heartbeat_interval: self.builder.heartbeat_interval,
                    encode: Some(encode),
                    decode: self.builder.decode,
                    reconnect_interval: self.builder.reconnect_interval,
                    reconnect_max_attempts: self.builder.reconnect_max_attempts,
                    endpoint: self.builder.endpoint,
                    access_token: self.builder.access_token,
                },
                connection_timeout: self.connection_timeout,
                auth_url: self.auth_url,
                max_events_per_second: self.max_events_per_second,
            }),
    {
        RealtimeClientBuilder {
            builder: self.builder.encode(encode),
            connection_timeout: self.connection_timeout,
            auth_url: self.auth_url,
            max_events_per_second: self.max_events_per_second,
        }
    }

    pub fn decode<I: Fn(RealtimeMessage) -> RealtimeMessage>(self, decode: I) -> (made:
        RealtimeClientBuilder<R, E, I>)
        ensures
            made == (RealtimeClientBuilder {
                builder: base::RealtimeClientBuilder {
                    headers: self.builder.headers,
                    params: self.builder.params,
                    heartbeat_interval: self.builder.heartbeat_interval,
                    encode: self.builder.encode,
                    decode: Some(decode),
                    reconnect_interval: self.builder.reconnect_interval,
                    reconnect_max_attempts: self.builder.reconnect_max_attempts,
                    endpoint: self.builder.endpoint,
                    access_token: self.builder.access_token,
                },
                connection_timeout: self.connection_timeout,
                auth_url: self.auth_url,
                max_events_per_second: self.max_events_per_second,
            }),
    {
        RealtimeClientBuilder {
            builder: self.builder.decode(decode),
            connection_timeout: self.connection_timeout,
            auth_url: self.auth_url,
            max_events_per_second: self.max_events_per_second,
        }
    }

    /// Consume the [Self] and return a configured [RealtimeClient], which has
    /// not connected yet.
    pub fn build<M>(self) -> (client: RealtimeClient<R, E, D, M>)
        ensures
            client.client.is_configured_by(self.builder),
            client.client.state == ClientState::Closed,
            client.client.ws_tx is None,
            client.client.channels@.len() == 0,
            is_random_uuid(client.next_ref@),
            client.middleware@.len() == 0,
            client.connection_timeout == self.connection_timeout,
            client.max_events_per_second == self.max_events_per_second,
    {
        RealtimeClient {
            client: self.builder.connect(),
            next_ref: random_identifier(),
            middleware: Vec::new(),
            connection_timeout: self.connection_timeout,
            max_events_per_second: self.max_events_per_second,
        }
    }
}

impl<K, B, P> RealtimeChannelBuilder<K, B, P> {
    /// Makes the channel with the client's access token, and has the client know
    /// it under the name `manager`. The client must have connected before.
    pub fn build<R, E, D, M>(
        self,
        client: &mut RealtimeClient<R, E, D, M>,
        manager: ChannelManager,
    ) -> (channel: RealtimeChannel<K, B, P>)
        requires
            old(client).client.ws_tx is Some,
        ensures
            self.builder.makes(
                channel.channel,
                old(client).client.ws_tx->Some_0,
                old(client).client.access_token@,
            ),
            self.builder.wf() ==> channel.channel.wf(),
            *final(client) == (RealtimeClient { client: final(client).client, ..*old(client) }),
            final(client).client == (base::RealtimeClient {
                channels: final(client).client.channels,
                ..old(client).client
            }),
            final(client).client.channels@ == old(client).client.channels@.push(manager),
    {
        RealtimeChannel { channel: self.builder.build(&mut client.client, manager) }
    }
}

/// Without middleware a message stays as it is.
pub proof fn no_middleware_no_change<M: Fn(RealtimeMessage) -> RealtimeMessage>(
    before: RealtimeMessage,
    after: RealtimeMessage,
)
    requires
        runs_to(Seq::<(String, M)>::empty(), before, after),
    ensures
        after == before,
{
}

/// Removing middleware undoes adding it under an identifier that was not in
/// use.
pub proof fn removing_undoes_adding<M>(middleware: Seq<(String, M)>, id: String, added: M)
    requires
        forall|i: int| 0 <= i < middleware.len() ==> (#[trigger] middleware[i]).0@ != id@,
    ensures
        without_middleware(
            without_middleware(middleware, id@).push((id, added)),
            id@,
        ) == middleware,
{
    lemma_nothing_to_remove(middleware, id@);
    let more = middleware.push((id, added));
    assert(more.drop_last() =~= middleware);
}

proof fn lemma_nothing_to_remove<M>(middleware: Seq<(String, M)>, id: Seq<char>)
    requires
        forall|i: int| 0 <= i < middleware.len() ==> (#[trigger] middleware[i]).0@ != id,
    ensures
        without_middleware(middleware, id) == middleware,
    decreases middleware.len(),
{
    if middleware.len() > 0 {
        let front = middleware.drop_last();
        assert forall|i: int| 0 <= i < front.len() implies (#[trigger] front[i]).0@ != id by {
            assert(front[i] == middleware[i]);
        }
        lemma_nothing_to_remove(front, id);
        assert(middleware[middleware.len() - 1].0@ != id);
        assert(front.push(middleware.last()) =~= middleware);
    } else {
        assert(without_middleware(middleware, id) =~= middleware);
    }
}

/// No middleware is left under an identifier that was removed.
pub proof fn removed_middleware_is_gone<M>(middleware: Seq<(String, M)>, id: Seq<char>, place: int)
    requires
        0 <= place < without_middleware(middleware, id).len(),
    ensures
        without_middleware(middleware, id)[place].0@ != id,
    decreases middleware.len(),
{
    if middleware.len() > 0 {
        let front = without_middleware(middleware.drop_last(), id);
        if place < front.len() {
            removed_middleware_is_gone(middleware.drop_last(), id, place);
        }
    }
}

} // verus!
