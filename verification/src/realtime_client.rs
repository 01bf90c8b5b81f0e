use tungstenite::http::HeaderMap;
use vstd::prelude::*;

use crate::duration::Duration;
use crate::headers::{
    copy_headers, fits, header_entries, may_fit, new_headers, no_entries, text_value,
    try_merge_headers, HeaderModel,
};
use crate::message::payload::BroadcastPayload;
use crate::message::RealtimeMessage;
use crate::places::{as_places, chosen_places, places};
use crate::realtime_channel::{
    is_rejoin, rejoin_requests, ChannelAction, ChannelManager, ChannelManagerMessage,
    ChannelReaction, ChannelState, RealtimeChannel, RealtimeChannelBuilder, SocketTx,
};
use crate::request::{
    bearer, build_request, client_info, client_info_name, extra_params, is_good_endpoint,
    is_plain_endpoint, is_simple_endpoint, is_sound_target, leaves_room, try_put_client_info,
    ClientRequest,
};
use crate::string_map::{Deep, StringMap};
use crate::uri::is_simple_text;

verus! {

/// Connection state of [RealtimeClient]
#[derive(Debug, Clone, Copy, PartialEq, Eq, Structural)]
pub enum ClientState {
    /// Client wants to reconnect
    Reconnect,
    /// Client is mid-reconnect
    Reconnecting,
    Connecting,
    Open,
    Closing,
    Closed,
}

impl Default for ClientState {
    fn default() -> (state: Self)
        ensures
            state == ClientState::Closed,
    {
        ClientState::Closed
    }
}

/// Why a client is not connected
#[derive(Debug, Clone, Copy, PartialEq, Eq, Structural)]
pub enum ConnectError {
    BadUri,
    BadHost,
    BadAddrs,
    StreamError,
    NoDelayError,
    NonblockingError,
    HandshakeError,
    MaxRetries,
    WrongProtocol,
}

/// What a client can be asked for.
#[derive(Debug)]
pub enum ClientManagerMessage {
    Connect,
    Disconnect,
    GetWsTx,
    GetAccessToken,
    GetAccessTokenArc,
    GetState,
    SetAccessToken { access_token: String },
    AddChannel { manager: ChannelManager },
}

/// The answer to what a client was asked for.
#[derive(Debug)]
pub enum ClientReply {
    WsTx(SocketTx),
    AccessToken(String),
    State(ClientState),
    Channel(ChannelManager),
}

/// What is to be done about what a client was asked for.
#[derive(Debug)]
pub enum ClientAction {
    /// Connect, and answer how that went.
    Connect,
    /// Answer with the access token in the place where it is kept.
    ShareAccessToken,
    /// Give the answer.
    Reply(ClientReply),
    /// Have each channel take over the token, and answer with it.
    ReAuth { channels: Vec<ChannelManager>, access_token: String },
    /// Have each channel leave, disconnect, and answer with the builder.
    Disconnect { channels: Vec<ChannelManager> },
}

/// What is to be done after a failed attempt to connect.
#[derive(Debug, Clone, Copy, PartialEq, Eq, Structural)]
pub enum Retry {
    GiveUp(ConnectError),
    /// Wait, and try again.
    After { failures: usize, wait: Duration },
}

/// What is to be done after an attempt to connect.
#[derive(Debug)]
pub enum ConnectStep {
    /// Wait, and try again.
    Again { failures: usize, wait: Duration },
    /// Connecting has failed.
    Failed(ConnectError),
    /// Connecting has succeeded. Ask each channel in turn for what it is to be
    /// asked for, and wait for each answer that it owes before the next request.
    Connected { rejoins: Vec<Rejoin> },
}

/// What a channel is to be asked for, one request after the other.
#[derive(Debug)]
pub struct Rejoin {
    pub manager: ChannelManager,
    pub requests: Vec<ChannelManagerMessage>,
}

/// How a channel looks from outside.
#[derive(Debug)]
pub struct ChannelLook {
    pub state: ChannelState,
    pub topic: String,
}

/// A message from the server, and the channels that it is for.
#[derive(Debug)]
pub struct Delivery {
    pub message: RealtimeMessage,
    pub channels: Vec<ChannelManager>,
}

/// The function that says how long to wait before the next attempt to connect,
/// from the count of attempts that failed.
#[derive(Debug, Clone)]
pub struct ReconnectFn<F>(pub Box<F>);

impl<F: Fn(usize) -> Duration> ReconnectFn<F> {
    pub fn new(f: F) -> (made: Self)
        ensures
            *made.0 == f,
    {
        ReconnectFn(Box::new(f))
    }

    /// Whether the function has an answer for every count.
    pub open spec fn is_total(&self) -> bool {
        forall|attempts: usize| #[trigger] call_requires(*self.0, (attempts,))
    }

    /// Whether the function is the stepped backoff.
    pub open spec fn is_stepped(&self) -> bool {
        &&& self.is_total()
        &&& forall|attempts: usize, wait: Duration| #[trigger]
            call_ensures(*self.0, (attempts,), wait) ==> wait.secs == backoff_secs(attempts as int)
                && wait.nanos == 0
    }
}

/// The reconnect function of a client that was given none: the stepped backoff.
pub fn default_reconnect() -> (made: ReconnectFn<impl Fn(usize) -> Duration + Copy>)
    ensures
        made.is_stepped(),
{
    ReconnectFn::new(backoff)
}

/// The seconds to wait after a count of failed attempts.
pub open spec fn backoff_secs(attempts: int) -> int {
    if attempts <= 0 {
        0
    } else if attempts == 1 {
        1
    } else if attempts == 2 {
        2
    } else if attempts == 3 {
        5
    } else {
        10
    }
}

/// Stepped backoff: no wait, then 1, 2, 5 and from then on 10 seconds.
pub fn backoff(attempts: usize) -> (wait: Duration)
    ensures
        wait.secs == backoff_secs(attempts as int),
        wait.nanos == 0,
{
    let times: [u64; 5] = [0, 1, 2, 5, 10];
    let step: usize = if attempts < 4 {
        attempts
    } else {
        4
    };
    Duration::from_secs(times[step])
}

/// The wait never gets shorter with more failed attempts, and never gets longer
/// than ten seconds.
pub proof fn backoff_steps_up(fewer: int, more: int)
    requires
        fewer <= more,
    ensures
        0 <= backoff_secs(fewer) <= backoff_secs(more) <= 10,
{
}

/// Whether a client that may make `max_attempts` attempts gives up after a count
/// of failures in a row.
pub open spec fn gives_up(max_attempts: int, failures: int) -> bool {
    failures >= max_attempts
}

/// A client whose attempts all fail makes as many of them as it was told to, and
/// always at least one, before it gives up.
pub proof fn attempts_before_giving_up(max_attempts: int, attempts: int)
    requires
        attempts == if max_attempts < 1 {
            1
        } else {
            max_attempts
        },
    ensures
        gives_up(max_attempts, attempts),
        forall|failures: int|
            1 <= failures < attempts ==> !#[trigger] gives_up(max_attempts, failures),
{
}

/// Hands a message back as it is.
fn unchanged(message: RealtimeMessage) -> (same: RealtimeMessage)
    ensures
        same == message,
{
    message
}

/// Whether a function on messages takes every message.
pub open spec fn takes_any<I: Fn(RealtimeMessage) -> RealtimeMessage>(intercept: Option<I>) -> bool {
    intercept matches Some(f) ==> forall|message: RealtimeMessage| #[trigger]
        call_requires(f, (message,))
}

/// Whether `after` can be what a function on messages, if there is one, makes
/// of `before`.
pub open spec fn intercepts<I: Fn(RealtimeMessage) -> RealtimeMessage>(
    intercept: Option<I>,
    before: RealtimeMessage,
    after: RealtimeMessage,
) -> bool {
    match intercept {
        Some(f) => call_ensures(f, (before,), after),
        None => after == before,
    }
}

fn run_interceptor<I: Fn(RealtimeMessage) -> RealtimeMessage>(
    intercept: &Option<I>,
    message: RealtimeMessage,
) -> (after: RealtimeMessage)
    requires
        takes_any(*intercept),
    ensures
        intercepts(*intercept, message, after),
{
    match intercept {
        Some(f) => f(message),
        None => message,
    }
}

/// Whether header entries name this client.
pub open spec fn names_client(entries: HeaderModel) -> bool {
    &&& entries.contains_key(client_info_name())
    &&& entries[client_info_name()] == client_info()
}

/// Header entries with the name of this client.
pub open spec fn naming_client(entries: HeaderModel) -> HeaderModel {
    entries.insert(client_info_name(), client_info())
}

/// Builder struct for [RealtimeClient]
#[derive(Debug)]
pub struct RealtimeClientBuilder<R, E, D> {
    pub headers: HeaderMap,
    pub params: Option<StringMap<String>>,
    pub heartbeat_interval: Duration,
    pub encode: Option<E>,
    pub decode: Option<D>,
    pub reconnect_interval: ReconnectFn<R>,
    pub reconnect_max_attempts: usize,
    pub endpoint: String,
    pub access_token: String,
}

/// No function, of the type of the given one.
fn no_function<I>(_alike: I) -> (none: Option<I>)
    ensures
        none is None,
{
    None
}

impl RealtimeClientBuilder<(), (), ()> {
    /// Creates a new [RealtimeClientBuilder]
    pub fn new(endpoint: String, anon_key: String) -> (builder: RealtimeClientBuilder<
        impl Fn(usize) -> Duration + Copy,
        impl Fn(RealtimeMessage) -> RealtimeMessage + Copy,
        impl Fn(RealtimeMessage) -> RealtimeMessage + Copy,
    >)
        ensures
            builder.wf(),
            header_entries(builder.headers) == naming_client(no_entries()),
            builder.params is None,
            builder.heartbeat_interval == (Duration { secs: 29, nanos: 0 }),
            builder.encode is None,
            builder.decode is None,
            builder.reconnect_interval.is_stepped(),
            builder.reconnect_max_attempts == usize::MAX,
            builder.endpoint == endpoint,
            builder.access_token == anon_key,
    {
        let mut headers = new_headers();
        proof {
            assert(no_entries().dom() =~= Set::<Seq<char>>::empty());
        }
        let _ = try_put_client_info(&mut headers);
        RealtimeClientBuilder {
            headers,
            params: None,
            heartbeat_interval: Duration::from_secs(29),
            encode: no_function(unchanged),
            decode: no_function(unchanged),
            reconnect_interval: default_reconnect(),
            reconnect_max_attempts: usize::MAX,
            endpoint,
            access_token: anon_key,
        }
    }
}

impl<R, E, D> RealtimeClientBuilder<R, E, D> {
    /// Whether the headers name the client.
    pub open spec fn wf(&self) -> bool {
        names_client(header_entries(self.headers))
    }

    pub fn access_token(self, access_token: String) -> (builder: Self)
        ensures
            builder == (RealtimeClientBuilder { access_token, ..self }),
    {
        RealtimeClientBuilder { access_token, ..self }
    }

    /// Sets the client headers. Headers always contain "X-Client-Info: realtime-rs/{version}".
    pub fn set_headers(self, set_headers: HeaderMap) -> (builder: Self)
        requires
            fits(naming_client(header_entries(set_headers))),
        ensures
            builder == (RealtimeClientBuilder { headers: builder.headers, ..self }),
            header_entries(builder.headers) == naming_client(header_entries(set_headers)),
            builder.wf(),
    {
        match self.checked_set_headers(set_headers) {
            Ok(builder) => builder,
            Err(builder) => builder,
        }
    }

    /// Sets the client headers, unless the header map does not take the header that
    /// names the client besides them. Then the builder comes back as it was.
    ///
    /// Whether it takes one more is up to how the names hash where there are many.
    pub fn checked_set_headers(self, set_headers: HeaderMap) -> (builder: Result<Self, Self>)
        ensures
            fits(naming_client(header_entries(set_headers))) ==> builder is Ok,
            builder is Ok ==> may_fit(naming_client(header_entries(set_headers))),
            builder matches Ok(made) ==> made == (RealtimeClientBuilder {
                headers: made.headers,
                ..self
            }) && header_entries(made.headers) == naming_client(header_entries(set_headers))
                && made.wf(),
            builder matches Err(same) ==> same == self,
    {
        let mut headers = set_headers;
        if try_put_client_info(&mut headers) {
            Ok(RealtimeClientBuilder { headers, ..self })
        } else {
            Err(self)
        }
    }

    /// Merges provided [HeaderMap] with currently held headers. The header that
    /// names the client is put last, whatever `headers` says of it.
    pub fn add_headers(self, headers: HeaderMap) -> (builder: Self)
        requires
            fits(
                naming_client(
                    header_entries(self.headers).union_prefer_right(header_entries(headers)),
                ),
            ),
        ensures
            builder == (RealtimeClientBuilder { headers: builder.headers, ..self }),
            header_entries(builder.headers) == naming_client(
                header_entries(self.headers).union_prefer_right(header_entries(headers)),
            ),
            builder.wf(),
    {
        match self.checked_add_headers(headers) {
            Ok(builder) => builder,
            Err(builder) => builder,
        }
    }

    /// Merges provided [HeaderMap] with currently held headers, unless the header
    /// map does not take them all. Then the builder comes back as it was. The
    /// header that names the client is put last, whatever `headers` says of it.
    ///
    /// Whether it takes one more is up to how the names hash where there are many.
    pub fn checked_add_headers(self, headers: HeaderMap) -> (builder: Result<Self, Self>)
        ensures
            fits(
                naming_client(
                    header_entries(self.headers).union_prefer_right(header_entries(headers)),
                ),
            ) ==> builder is Ok,
            builder is Ok ==> may_fit(
                naming_client(
                    header_entries(self.headers).union_prefer_right(header_entries(headers)),
                ),
            ),
            builder matches Ok(made) ==> made == (RealtimeClientBuilder {
                headers: made.headers,
                ..self
            }) && header_entries(made.headers) == naming_client(
                header_entries(self.headers).union_prefer_right(header_entries(headers)),
            ) && made.wf(),
            builder matches Err(same) ==> same == self,
    {
        proof {
            let merged = header_entries(self.headers).union_prefer_right(header_entries(headers));
            let all = naming_client(merged).dom();
            assert(merged.dom() =~= if merged.contains_key(client_info_name()) {
                all
            } else {
                all.remove(client_info_name())
            });
            assert(fits(naming_client(merged)) ==> fits(merged));
        }
        let mut all = copy_headers(&self.headers);
        if try_merge_headers(&mut all, &headers) && try_put_client_info(&mut all) {
            Ok(RealtimeClientBuilder { headers: all, ..self })
        } else {
            Err(self)
        }
    }

    /// Set endpoint URL params
    pub fn params(self, params: StringMap<String>) -> (builder: Self)
        ensures
            builder == (RealtimeClientBuilder { params: Some(params), ..self }),
    {
        RealtimeClientBuilder { params: Some(params), ..self }
    }

    /// Set [Duration] between heartbeat packets. Default 29 seconds.
    pub fn heartbeat_interval(self, heartbeat_interval: Duration) -> (builder: Self)
        ensures
            builder == (RealtimeClientBuilder { heartbeat_interval, ..self }),
    {
        RealtimeClientBuilder { heartbeat_interval, ..self }
    }

    /// Set the function to provide time between reconnection attempts
    /// The provided function should take a count of reconnect attempts and return a [Duration] to wait
    /// until the next attempt is made.
    ///
    /// Don't implement an untested timing function here in prod or you might make a few too many
    /// requests.
    ///
    /// Defaults to stepped backoff, see [`backoff`].
    pub fn reconnect_interval<F: Fn(usize) -> Duration>(self, reconnect_interval: ReconnectFn<F>) -> (builder:
        RealtimeClientBuilder<F, E, D>)
        ensures
            builder == (RealtimeClientBuilder {
                headers: self.headers,
                params: self.params,
                heartbeat_interval: self.heartbeat_interval,
                encode: self.encode,
                decode: self.decode,
                reconnect_interval,
                reconnect_max_attempts: self.reconnect_max_attempts,
                endpoint: self.endpoint,
                access_token: self.access_token,
            }),
    {
        RealtimeClientBuilder {
            headers: self.headers,
            params: self.params,
            heartbeat_interval: self.heartbeat_interval,
            encode: self.encode,
            decode: self.decode,
            reconnect_interval,
            reconnect_max_attempts: self.reconnect_max_attempts,
            endpoint: self.endpoint,
            access_token: self.access_token,
        }
    }

    /// Configure the number of reconnect attempts to be made before erroring
    pub fn reconnect_max_attempts(self, max_attempts: usize) -> (builder: Self)
        ensures
            builder == (RealtimeClientBuilder { reconnect_max_attempts: max_attempts, ..self }),
    {
        RealtimeClientBuilder { reconnect_max_attempts: max_attempts, ..self }
    }

    /// Set the function that each message goes through before it is sent
    pub fn encode<I: Fn(RealtimeMessage) -> RealtimeMessage>(self, encode: I) -> (builder:
        RealtimeClientBuilder<R, I, D>)
        ensures
            builder == (RealtimeClientBuilder {
                headers: self.headers,
                params: self.params,
                heartbeat_interval: self.heartbeat_interval,
                encode: Some(encode),
                decode: self.decode,
                reconnect_interval: self.reconnect_interval,
                reconnect_max_attempts: self.reconnect_max_attempts,
                endpoint: self.endpoint,
                access_token: self.access_token,
            }),
    {
        RealtimeClientBuilder {
            headers: self.headers,
            params: self.params,
            heartbeat_interval: self.heartbeat_interval,
            encode: Some(encode),
            decode: self.decode,
            reconnect_interval: self.reconnect_interval,
            reconnect_max_attempts: self.reconnect_max_attempts,
            endpoint: self.endpoint,
            access_token: self.access_token,
        }
    }

    /// Set the function that each message from the server goes through first
    pub fn decode<I: Fn(RealtimeMessage) -> RealtimeMessage>(self, decode: I) -> (builder:
        RealtimeClientBuilder<R, E, I>)
        ensures
            builder == (RealtimeClientBuilder {
                headers: self.headers,
                params: self.params,
                heartbeat_interval: self.heartbeat_interval,
                encode: self.encode,
                decode: Some(decode),
                reconnect_interval: self.reconnect_interval,
                reconnect_max_attempts: self.reconnect_max_attempts,
                endpoint: self.endpoint,
                access_token: self.access_token,
            }),
    {
        RealtimeClientBuilder {
            headers: self.headers,
            params: self.params,
            heartbeat_interval: self.heartbeat_interval,
            encode: self.encode,
            decode: Some(decode),
            reconnect_interval: self.reconnect_interval,
            reconnect_max_attempts: self.reconnect_max_attempts,
            endpoint: self.endpoint,
            access_token: self.access_token,
        }
    }

    /// Consume the [Self] and return a configured [RealtimeClient], which is
    /// about to connect for the first time.
    pub fn connect(self) -> (client: RealtimeClient<R, E, D>)
        ensures
            client.is_configured_by(self),
            client.state == ClientState::Closed,
            client.ws_tx is None,
            client.channels@.len() == 0,
    {
        RealtimeClient {
            access_token: self.access_token,
            state: ClientState::Closed,
            ws_tx: None,
            channels: Vec::new(),
            headers: self.headers,
            params: self.params,
            heartbeat_interval: self.heartbeat_interval,
            encode: self.encode,
            decode: self.decode,
            reconnect_interval: self.reconnect_interval,
            reconnect_max_attempts: self.reconnect_max_attempts,
            endpoint: self.endpoint,
        }
    }
}

/// Websocket client that interfaces with Supabase Realtime
#[derive(Debug)]
pub struct RealtimeClient<R, E, D> {
    pub access_token: String,
    pub state: ClientState,
    /// The way to the socket, once there was a connection.
    pub ws_tx: Option<SocketTx>,
    pub channels: Vec<ChannelManager>,
    pub headers: HeaderMap,
    pub params: Option<StringMap<String>>,
    pub heartbeat_interval: Duration,
    pub encode: Option<E>,
    pub decode: Option<D>,
    pub reconnect_interval: ReconnectFn<R>,
    pub reconnect_max_attempts: usize,
    pub endpoint: String,
}

/// Further params by field, with the order of their fields.
pub open spec fn params_model(params: Option<StringMap<String>>) -> Option<
    (Seq<Seq<char>>, Map<Seq<char>, Seq<char>>),
> {
    match params {
        Some(map) => Some((map.keys(), map.model())),
        None => None,
    }
}

impl<R, E, D> RealtimeClient<R, E, D> {
    /// Whether the headers name the client.
    pub open spec fn wf(&self) -> bool {
        names_client(header_entries(self.headers))
    }

    /// Whether the client and the builder hold the same configuration.
    pub open spec fn is_configured_by(&self, builder: RealtimeClientBuilder<R, E, D>) -> bool {
        &&& header_entries(self.headers) == header_entries(builder.headers)
        &&& params_model(self.params) == params_model(builder.params)
        &&& self.heartbeat_interval == builder.heartbeat_interval
        &&& self.encode == builder.encode
        &&& self.decode == builder.decode
        &&& self.reconnect_interval == builder.reconnect_interval
        &&& self.reconnect_max_attempts == builder.reconnect_max_attempts
        &&& self.endpoint@ == builder.endpoint@
        &&& self.access_token@ == builder.access_token@
    }

    /// Makes the request that opens the socket, or nothing where the endpoint
    /// has no address, the params do not belong in one, the token cannot stand
    /// in a header, or the header map does not take all the headers.
    ///
    /// Whether it takes them is up to how the names hash where there are many.
    pub fn build_request(&self) -> (request: Option<Result<ClientRequest, ConnectError>>)
        ensures
            request is Some ==> is_sound_target(
                self.endpoint@,
                self.access_token@,
                extra_params(self.params),
            ),
            is_sound_target(self.endpoint@, self.access_token@, extra_params(self.params)) && (
            leaves_room(header_entries(self.headers)) || !is_good_endpoint(
                self.endpoint@,
                self.access_token@,
            )) ==> request is Some,
            request matches Some(Err(error)) ==> error == ConnectError::BadUri,
            request matches Some(made) ==> (made is Ok <==> is_good_endpoint(
                self.endpoint@,
                self.access_token@,
            )),
            request matches Some(Ok(made)) ==> made.opens(
                self.endpoint@,
                self.access_token@,
                extra_params(self.params),
                header_entries(self.headers),
            ) && may_fit(header_entries(made.headers)),
            forall|scheme: Seq<char>, host: Seq<char>, base: Seq<char>| #[trigger]
                is_plain_endpoint(self.endpoint@, scheme, host, base)
                    && !self.access_token@.contains('#') ==> (request matches Some(Ok(made))
                    ==> made.is_to_socket(
                    scheme,
                    host,
                    base,
                    self.access_token@,
                    extra_params(self.params),
                )),
            forall|scheme: Seq<char>, host: Seq<char>, base: Seq<char>| #[trigger]
                is_simple_endpoint(self.endpoint@, scheme, host, base, self.access_token@)
                    && is_simple_text(extra_params(self.params)) && leaves_room(
                    header_entries(self.headers),
                ) ==> (request matches Some(Ok(made)) && made.is_to_socket(
                    scheme,
                    host,
                    base,
                    self.access_token@,
                    extra_params(self.params),
                )),
    {
        match build_request(&self.endpoint, &self.access_token, &self.params, &self.headers) {
            Some(Ok(request)) => Some(Ok(request)),
            Some(Err(_)) => Some(Err(ConnectError::BadUri)),
            None => None,
        }
    }

    /// Whether `after` is the client after a socket was opened, and `rejoins` is
    /// what its channels are to be asked for.
    pub open spec fn opened(
        before: Self,
        after: Self,
        ws_tx: SocketTx,
        rejoins: Seq<Rejoin>,
    ) -> bool {
        &&& after == RealtimeClient { state: ClientState::Open, ws_tx: Some(ws_tx), ..before }
        &&& rejoins.len() == before.channels@.len()
        &&& forall|i: int|
            0 <= i < rejoins.len() ==> (#[trigger] rejoins[i]).manager == before.channels@[i]
                && is_rejoin(rejoins[i].requests@, ws_tx)
    }

    /// The socket is open. Returns what each channel is to be asked for, in the
    /// order of the channels: to use the socket, and then to join.
    pub fn connected(&mut self, ws_tx: SocketTx) -> (rejoins: Vec<Rejoin>)
        ensures
            Self::opened(*old(self), *final(self), ws_tx, rejoins@),
    {
        self.state = ClientState::Open;
        self.ws_tx = Some(ws_tx);
        let mut rejoins: Vec<Rejoin> = Vec::new();
        for i in 0..self.channels.len()
            invariant
                rejoins@.len() == i,
                forall|j: int|
                    0 <= j < i ==> (#[trigger] rejoins@[j]).manager == self.channels@[j]
                        && is_rejoin(rejoins@[j].requests@, ws_tx),
        {
            rejoins.push(Rejoin { manager: self.channels[i], requests: rejoin_requests(ws_tx) });
        }
        rejoins
    }

    /// A frame could not be read: the client wants to reconnect.
    pub fn frame_failed(&mut self)
        ensures
            *final(self) == (RealtimeClient { state: ClientState::Reconnect, ..*old(self) }),
    {
        self.state = ClientState::Reconnect;
    }

    /// The socket gives no more frames. Returns whether the client is to
    /// connect again.
    pub fn stream_ended(&mut self) -> (reconnect: bool)
        ensures
            reconnect == (old(self).state == ClientState::Reconnect),
            *final(self) == (if reconnect {
                RealtimeClient { state: ClientState::Reconnecting, ..*old(self) }
            } else {
                *old(self)
            }),
    {
        if self.state == ClientState::Reconnect {
            self.state = ClientState::Reconnecting;
            true
        } else {
            false
        }
    }

    pub fn add_channel(&mut self, channel: ChannelManager) -> (added: ChannelManager)
        ensures
            *final(self) == (RealtimeClient { channels: final(self).channels, ..*old(self) }),
            final(self).channels@ == old(self).channels@.push(channel),
            added == channel,
    {
        self.channels.push(channel);
        channel
    }
}

pub(crate) fn copy_list(channels: &Vec<ChannelManager>) -> (copy: Vec<ChannelManager>)
    ensures
        copy@ == channels@,
{
    let mut copy: Vec<ChannelManager> = Vec::new();
    for i in 0..channels.len()
        invariant
            copy@ == channels@.take(i as int),
    {
        copy.push(channels[i]);
        proof {
            assert(channels@.take(i + 1) =~= channels@.take(i as int).push(channels@[i as int]));
        }
    }
    proof {
        assert(channels@.take(channels@.len() as int) =~= channels@);
    }
    copy
}

impl<R: Fn(usize) -> Duration, E, D> RealtimeClient<R, E, D> {
    /// Whether `retry` is what to do when an attempt to connect fails after
    /// `failed_before` failures in a row.
    pub open spec fn decides_retry(&self, failed_before: int, retry: Retry) -> bool {
        &&& retry is GiveUp <==> gives_up(self.reconnect_max_attempts as int, failed_before + 1)
        &&& match retry {
            Retry::GiveUp(error) => error == ConnectError::MaxRetries,
            Retry::After { failures, wait } => {
                &&& failures == failed_before + 1
                &&& call_ensures(*self.reconnect_interval.0, (failures,), wait)
            },
        }
    }

    /// An attempt to connect failed, after `failed_before` failures in a row.
    /// Returns what to do about it.
    pub fn connection_failed(&self, failed_before: usize) -> (retry: Retry)
        requires
            failed_before < usize::MAX,
            self.reconnect_interval.is_total(),
        ensures
            self.decides_retry(failed_before as int, retry),
    {
        let failures: usize = failed_before + 1;
        if failures >= self.reconnect_max_attempts {
            return Retry::GiveUp(ConnectError::MaxRetries);
        }
        Retry::After { failures, wait: (*self.reconnect_interval.0)(failures) }
    }

    /// Whether `after` is the client after an attempt to connect that gave a
    /// socket or none, after `failed_before` failures in a row, and `step` is
    /// what is to be done about it.
    pub open spec fn attempted(
        before: Self,
        after: Self,
        failed_before: int,
        outcome: Option<SocketTx>,
        step: ConnectStep,
    ) -> bool {
        match outcome {
            Some(ws_tx) => {
                &&& step matches ConnectStep::Connected { rejoins } && Self::opened(
                    before,
                    after,
                    ws_tx,
                    rejoins@,
                )
            },
            None => {
                &&& after == before
                &&& match step {
                    ConnectStep::Again { failures, wait } => before.decides_retry(
                        failed_before,
                        Retry::After { failures, wait },
                    ),
                    ConnectStep::Failed(error) => before.decides_retry(
                        failed_before,
                        Retry::GiveUp(error),
                    ),
                    ConnectStep::Connected { .. } => false,
                }
            },
        }
    }

    /// Takes in how an attempt to connect went, after `failed_before` failures
    /// in a row. Returns what is to be done about it.
    pub fn connect_ws(&mut self, failed_before: usize, outcome: Option<SocketTx>) -> (step:
        ConnectStep)
        requires
            failed_before < usize::MAX,
            old(self).reconnect_interval.is_total(),
        ensures
            Self::attempted(*old(self), *final(self), failed_before as int, outcome, step),
    {
        match outcome {
            Some(ws_tx) => ConnectStep::Connected { rejoins: self.connected(ws_tx) },
            None => match self.connection_failed(failed_before) {
                Retry::After { failures, wait } => ConnectStep::Again { failures, wait },
                Retry::GiveUp(error) => ConnectStep::Failed(error),
            },
        }
    }
}

impl<R, E: Fn(RealtimeMessage) -> RealtimeMessage, D> RealtimeClient<R, E, D> {
    /// What is sent for a message.
    pub fn outgoing(&self, message: RealtimeMessage) -> (encoded: RealtimeMessage)
        requires
            takes_any(self.encode),
        ensures
            intercepts(self.encode, message, encoded),
    {
        run_interceptor(&self.encode, message)
    }
}

/// Which channels are not closed.
pub open spec fn is_open(looks: Seq<ChannelLook>) -> spec_fn(int) -> bool {
    |i: int| looks[i].state != ChannelState::Closed
}

/// Which channels are not closed and have the given topic.
pub open spec fn is_addressed(looks: Seq<ChannelLook>, topic: Seq<char>) -> spec_fn(int) -> bool {
    |i: int| looks[i].state != ChannelState::Closed && looks[i].topic@ == topic
}

/// The channels at the given places.
pub open spec fn at_places(channels: Seq<ChannelManager>, chosen: Seq<int>) -> Seq<ChannelManager> {
    chosen.map_values(|i: int| channels[i])
}

impl<R, E, D: Fn(RealtimeMessage) -> RealtimeMessage> RealtimeClient<R, E, D> {
    /// Takes in a message from the server. Channels that are closed are
    /// forgotten; those of the others that have the message's topic are to get
    /// it.
    ///
    /// `looks` is how the client's channels look now, in their order.
    pub fn receive(&mut self, message: RealtimeMessage, looks: &Vec<ChannelLook>) -> (delivery:
        Delivery)
        requires
            takes_any(old(self).decode),
            looks@.len() == old(self).channels@.len(),
        ensures
            *final(self) == (RealtimeClient { channels: final(self).channels, ..*old(self) }),
            final(self).channels@ == at_places(
                old(self).channels@,
                places(looks@.len() as int, is_open(looks@)),
            ),
            intercepts(old(self).decode, message, delivery.message),
            delivery.channels@ == at_places(
                old(self).channels@,
                places(looks@.len() as int, is_addressed(looks@, delivery.message.topic@)),
            ),
    {
        let message = run_interceptor(&self.decode, message);
        let mut open: Vec<ChannelManager> = Vec::new();
        let mut addressed: Vec<ChannelManager> = Vec::new();
        let ghost known = self.channels@;
        let ghost stays = is_open(looks@);
        let ghost gets = is_addressed(looks@, message.topic@);
        proof {
            assert(open@ =~= at_places(known, places(0, stays)));
            assert(addressed@ =~= at_places(known, places(0, gets)));
        }
        for i in 0..looks.len()
            invariant
                *self == *old(self),
                known == self.channels@,
                known.len() == looks@.len(),
                stays == is_open(looks@),
                gets == is_addressed(looks@, message.topic@),
                open@ == at_places(known, places(i as int, stays)),
                addressed@ == at_places(known, places(i as int, gets)),
        {
            let ghost open_before = open@;
            let ghost addressed_before = addressed@;
            if looks[i].state != ChannelState::Closed {
                open.push(self.channels[i]);
                proof {
                    assert(at_places(known, places(i + 1, stays)) =~= open_before.push(
                        known[i as int],
                    ));
                }
                if looks[i].topic == message.topic {
                    addressed.push(self.channels[i]);
                    proof {
                        assert(at_places(known, places(i + 1, gets)) =~= addressed_before.push(
                            known[i as int],
                        ));
                    }
                }
            }
        }
        self.channels = open;
        Delivery { message, channels: addressed }
    }
}

impl<R: Copy, E: Copy, D: Copy> RealtimeClient<R, E, D> {
    /// Ends the connection. Returns a preconfigured [RealtimeClientBuilder] for
    /// modification or reinstantiation.
    pub fn disconnect(&mut self) -> (builder: RealtimeClientBuilder<R, E, D>)
        ensures
            *final(self) == (RealtimeClient { state: ClientState::Closed, ..*old(self) }),
            old(self).is_configured_by(builder),
    {
        self.state = ClientState::Closed;
        RealtimeClientBuilder {
            headers: copy_headers(&self.headers),
            params: match &self.params {
                Some(params) => Some(params.copy()),
                None => None,
            },
            heartbeat_interval: self.heartbeat_interval,
            encode: self.encode,
            decode: self.decode,
            reconnect_interval: ReconnectFn(Box::new(*self.reconnect_interval.0)),
            reconnect_max_attempts: self.reconnect_max_attempts,
            endpoint: self.endpoint.clone(),
            access_token: self.access_token.clone(),
        }
    }
}

impl<R, E, D> RealtimeClient<R, E, D> {
    /// Whether `after` is the client after it was asked for something, and
    /// `action` is what is to be done about it.
    pub open spec fn was_asked(
        before: Self,
        after: Self,
        request: ClientManagerMessage,
        action: ClientAction,
    ) -> bool {
        match request {
            ClientManagerMessage::Connect => after == before && action is Connect,
            ClientManagerMessage::GetWsTx => {
                &&& after == before
                &&& action matches ClientAction::Reply(ClientReply::WsTx(ws_tx)) && Some(ws_tx)
                    == before.ws_tx
            },
            ClientManagerMessage::GetAccessToken => {
                &&& after == before
                &&& action matches ClientAction::Reply(ClientReply::AccessToken(token)) && token@
                    == before.access_token@
            },
            ClientManagerMessage::GetAccessTokenArc => after == before && action
                is ShareAccessToken,
            ClientManagerMessage::GetState => after == before && action == ClientAction::Reply(
                ClientReply::State(before.state),
            ),
            ClientManagerMessage::SetAccessToken { access_token } => {
                &&& after == RealtimeClient { access_token: after.access_token, ..before }
                &&& after.access_token@ == access_token@
                &&& action matches ClientAction::ReAuth { channels, access_token: token }
                    && channels@ == before.channels@ && token@ == access_token@
            },
            ClientManagerMessage::AddChannel { manager } => {
                &&& after == RealtimeClient { channels: after.channels, ..before }
                &&& after.channels@ == before.channels@.push(manager)
                &&& action == ClientAction::Reply(ClientReply::Channel(manager))
            },
            ClientManagerMessage::Disconnect => {
                &&& after == before
                &&& action matches ClientAction::Disconnect { channels } && channels@
                    == before.channels@
            },
        }
    }

    /// Takes in what the client is asked for. Returns what is to be done.
    ///
    /// A new access token cascades through all channels.
    pub fn manager_recv(&mut self, request: ClientManagerMessage) -> (action: ClientAction)
        requires
            request is GetWsTx ==> old(self).ws_tx is Some,
        ensures
            Self::was_asked(*old(self), *final(self), request, action),
    {
        match request {
            ClientManagerMessage::Connect => ClientAction::Connect,
            ClientManagerMessage::GetWsTx => ClientAction::Reply(
                ClientReply::WsTx(self.ws_tx.unwrap()),
            ),
            ClientManagerMessage::GetAccessToken => ClientAction::Reply(
                ClientReply::AccessToken(self.access_token.clone()),
            ),
            ClientManagerMessage::SetAccessToken { access_token } => {
                self.access_token = access_token.clone();
                ClientAction::ReAuth { channels: copy_list(&self.channels), access_token }
            },
            ClientManagerMessage::AddChannel { manager } => {
                let added = self.add_channel(manager);
                ClientAction::Reply(ClientReply::Channel(added))
            },
            ClientManagerMessage::GetState => ClientAction::Reply(ClientReply::State(self.state)),
            ClientManagerMessage::GetAccessTokenArc => ClientAction::ShareAccessToken,
            ClientManagerMessage::Disconnect => ClientAction::Disconnect {
                channels: copy_list(&self.channels),
            },
        }
    }
}

impl<K, B, P> RealtimeChannelBuilder<K, B, P> {
    /// Makes the channel with the client's access token and its way to the socket, and has the client know
    /// it under the name `manager`. The client must have connected before.
    pub fn build<R, E, D>(self, client: &mut RealtimeClient<R, E, D>, manager: ChannelManager) -> (channel:
        RealtimeChannel<K, B, P>)
        requires
            old(client).ws_tx is Some,
        ensures
            self.makes(channel, old(client).ws_tx->Some_0, old(client).access_token@),
            self.wf() ==> channel.wf(),
            *final(client) == (RealtimeClient { channels: final(client).channels, ..*old(client) }),
            final(client).channels@ == old(client).channels@.push(manager),
    {
        let channel = self.build_common(client.ws_tx.unwrap(), client.access_token.clone());
        client.add_channel(manager);
        channel
    }
}

/// Connecting goes through where fewer attempts fail than the client may make.
/// After each failure the client asks its reconnect function how long to wait,
/// with the count of failures so far, and tries again. With the first socket it
/// is open. Its channels stay, and each of them, in their order, is to be handed
/// that socket once and then to join once.
pub proof fn connecting_goes_through<R: Fn(usize) -> Duration, E, D>(
    before: RealtimeClient<R, E, D>,
    after: RealtimeClient<R, E, D>,
    failures: Seq<ConnectStep>,
    ws_tx: SocketTx,
    last: ConnectStep,
)
    requires
        failures.len() < before.reconnect_max_attempts,
        forall|i: int|
            0 <= i < failures.len() ==> RealtimeClient::attempted(
                before,
                before,
                i,
                None,
                #[trigger] failures[i],
            ),
        RealtimeClient::attempted(before, after, failures.len() as int, Some(ws_tx), last),
    ensures
        forall|i: int|
            0 <= i < failures.len() ==> ((#[trigger] failures[i]) matches ConnectStep::Again {
                failures: count,
                wait,
            } && count == i + 1 && call_ensures(*before.reconnect_interval.0, (count,), wait)),
        after.state == ClientState::Open,
        after.ws_tx == Some(ws_tx),
        after.channels == before.channels,
        last matches ConnectStep::Connected { rejoins } && rejoins@.len() == before.channels@.len()
            && forall|i: int|
            0 <= i < rejoins@.len() ==> (#[trigger] rejoins@[i]).manager == before.channels@[i]
                && is_rejoin(rejoins@[i].requests@, ws_tx),
{
    assert forall|i: int| 0 <= i < failures.len() implies ((#[trigger] failures[i]) matches
        ConnectStep::Again { failures: count, wait } && count == i + 1 && call_ensures(
        *before.reconnect_interval.0,
        (count,),
        wait,
    )) by {
        assert(!gives_up(before.reconnect_max_attempts as int, i + 1));
    }
}

/// Connecting fails with the attempt that uses up those that the client may make,
/// and the client stays as it was.
pub proof fn connecting_gives_up<R: Fn(usize) -> Duration, E, D>(
    before: RealtimeClient<R, E, D>,
    after: RealtimeClient<R, E, D>,
    failed_before: int,
    step: ConnectStep,
)
    requires
        failed_before + 1 >= before.reconnect_max_attempts,
        RealtimeClient::attempted(before, after, failed_before, None, step),
    ensures
        step == ConnectStep::Failed(ConnectError::MaxRetries),
        after == before,
{
}

/// What disconnecting gives back makes a client of the same configuration: all
/// that the first builder said holds again, but for the access token where that
/// has become another one.
pub proof fn disconnecting_keeps_the_configuration<R, E, D>(
    builder: RealtimeClientBuilder<R, E, D>,
    connected: RealtimeClient<R, E, D>,
    disconnected: RealtimeClient<R, E, D>,
    returned: RealtimeClientBuilder<R, E, D>,
    again: RealtimeClient<R, E, D>,
)
    requires
        connected.is_configured_by(builder),
        disconnected == (RealtimeClient {
            access_token: disconnected.access_token,
            state: disconnected.state,
            ws_tx: disconnected.ws_tx,
            channels: disconnected.channels,
            ..connected
        }),
        disconnected.is_configured_by(returned),
        again.is_configured_by(returned),
    ensures
        again.is_configured_by(
            RealtimeClientBuilder { access_token: disconnected.access_token, ..builder },
        ),
        again.wf() == builder.wf(),
{
}

/// Nothing that a client is asked for changes its configuration, but for the
/// access token.
pub proof fn requests_keep_the_configuration<R, E, D>(
    before: RealtimeClient<R, E, D>,
    after: RealtimeClient<R, E, D>,
    request: ClientManagerMessage,
    action: ClientAction,
)
    requires
        RealtimeClient::was_asked(before, after, request, action),
    ensures
        after == (RealtimeClient {
            access_token: after.access_token,
            channels: after.channels,
            ..before
        }),
        !(request is SetAccessToken) ==> after.access_token == before.access_token,
        after.wf() == before.wf(),
{
}

/// Every request that opens a socket names the client, whatever headers the
/// client was given.
pub proof fn requests_name_the_client(
    request: ClientRequest,
    endpoint: Seq<char>,
    access_token: Seq<char>,
    params: Seq<char>,
    given: HeaderModel,
)
    requires
        names_client(given),
        request.opens(endpoint, access_token, params, given),
    ensures
        header_entries(request.headers).contains_key(client_info_name()),
        header_entries(request.headers)[client_info_name()] == client_info(),
{
}

/// Every request that opens a socket is authorized by the client's access
/// token, unless the client was given another authorization.
pub proof fn requests_carry_the_token(
    request: ClientRequest,
    endpoint: Seq<char>,
    access_token: Seq<char>,
    params: Seq<char>,
    given: HeaderModel,
)
    requires
        request.opens(endpoint, access_token, params, given),
        !given.contains_key("authorization"@),
    ensures
        header_entries(request.headers).contains_key("authorization"@),
        header_entries(request.headers)["authorization"@] == seq![
            text_value(bearer(access_token)),
        ],
{
    reveal_strlit("authorization");
    reveal_strlit("x-client-info");
    assert("authorization"@[0] == 'a');
    assert("x-client-info"@[0] == 'x');
}

/// A message goes to a channel if and only if the client knows the channel, it
/// is not closed, and the message has its topic. It stays known if and only if
/// it is not closed.
pub proof fn messages_go_by_topic(
    channels: Seq<ChannelManager>,
    looks: Seq<ChannelLook>,
    topic: Seq<char>,
    channel: ChannelManager,
)
    requires
        channels.len() == looks.len(),
    ensures
        at_places(channels, places(looks.len() as int, is_addressed(looks, topic))).contains(channel)
            <==> exists|i: int|
            0 <= i < looks.len() && #[trigger] channels[i] == channel && looks[i].state
                != ChannelState::Closed && looks[i].topic@ == topic,
        at_places(channels, places(looks.len() as int, is_open(looks))).contains(channel)
            <==> exists|i: int|
            0 <= i < looks.len() && #[trigger] channels[i] == channel && looks[i].state
                != ChannelState::Closed,
{
    let n = looks.len() as int;
    lemma_at_places(channels, n, is_addressed(looks, topic), channel);
    lemma_at_places(channels, n, is_open(looks), channel);
    if at_places(channels, places(n, is_addressed(looks, topic))).contains(channel) {
        let i = choose|i: int|
            0 <= i < n && #[trigger] channels[i] == channel && is_addressed(looks, topic)(i);
        assert(looks[i].state != ChannelState::Closed && looks[i].topic@ == topic);
    }
    if at_places(channels, places(n, is_open(looks))).contains(channel) {
        let i = choose|i: int| 0 <= i < n && #[trigger] channels[i] == channel && is_open(looks)(i);
        assert(looks[i].state != ChannelState::Closed);
    }
}

proof fn lemma_at_places(
    channels: Seq<ChannelManager>,
    n: int,
    chosen: spec_fn(int) -> bool,
    channel: ChannelManager,
)
    ensures
        at_places(channels, places(n, chosen)).contains(channel) <==> exists|i: int|
            0 <= i < n && #[trigger] channels[i] == channel && chosen(i),
{
    let found = places(n, chosen);
    let named = at_places(channels, found);
    if named.contains(channel) {
        let at = named.index_of(channel);
        chosen_places(n, chosen, found[at]);
        assert(found.contains(found[at]));
        assert(channels[found[at]] == channel);
    }
    if exists|i: int| 0 <= i < n && #[trigger] channels[i] == channel && chosen(i) {
        let i = choose|i: int| 0 <= i < n && #[trigger] channels[i] == channel && chosen(i);
        chosen_places(n, chosen, i);
        let at = found.index_of(i);
        assert(named[at] == channel);
    }
}

/// What a channel broadcasts reaches the callbacks for its event on every open
/// channel of the same topic, once the server sends it on: the client hands the
/// message to that channel, and the channel hands the data to exactly those of
/// its callbacks.
pub proof fn broadcasts_arrive<K, B, P>(
    sender: RealtimeChannel<K, B, P>,
    payload: BroadcastPayload,
    sent: RealtimeMessage,
    received: RealtimeMessage,
    channels: Seq<ChannelManager>,
    looks: Seq<ChannelLook>,
    place: int,
    receiver: RealtimeChannel<K, B, P>,
    after: RealtimeChannel<K, B, P>,
    reaction: ChannelReaction,
)
    requires
        sender.is_broadcast(sent, payload),
        received.topic@ == sent.topic@,
        received.payload == sent.payload,
        channels.len() == looks.len(),
        0 <= place < channels.len(),
        looks[place].state != ChannelState::Closed,
        looks[place].topic@ == sender.topic@,
        receiver.listening,
        RealtimeChannel::heard(receiver, after, received, reaction),
    ensures
        at_places(
            channels,
            places(looks.len() as int, is_addressed(looks, received.topic@)),
        ).contains(channels[place]),
        reaction matches ChannelReaction::Broadcast { callbacks, data } && data == payload.payload
            && as_places(callbacks@) == receiver.broadcast_places(payload.event@),
{
    messages_go_by_topic(channels, looks, received.topic@, channels[place]);
}

/// A new access token cascades: every channel that the client knows is to take
/// it over, and a channel that does tells the server of it if it has joined,
/// and has it for the next join request in any case.
pub proof fn new_token_cascades<R, E, D, K, B, P>(
    before: RealtimeClient<R, E, D>,
    after: RealtimeClient<R, E, D>,
    access_token: String,
    action: ClientAction,
    place: int,
    channel: RealtimeChannel<K, B, P>,
    renewed: RealtimeChannel<K, B, P>,
    told: ChannelAction,
)
    requires
        RealtimeClient::was_asked(
            before,
            after,
            ClientManagerMessage::SetAccessToken { access_token },
            action,
        ),
        0 <= place < before.channels@.len(),
        action matches ClientAction::ReAuth { access_token: token, .. }
            && RealtimeChannel::was_asked(
            channel,
            renewed,
            ChannelManagerMessage::ReAuth { access_token: token },
            told,
        ),
    ensures
        action matches ClientAction::ReAuth { channels, .. } && channels@[place]
            == before.channels@[place] && channels@.len() == before.channels@.len(),
        after.access_token@ == access_token@,
        renewed.join_payload.access_token@ == access_token@,
        channel.state == ChannelState::Joined ==> (told matches ChannelAction::Send {
            message,
            ..
        } && channel.is_reauth(message, access_token@)),
{
}

} // verus!
