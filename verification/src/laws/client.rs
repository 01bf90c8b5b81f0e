//! Clients: how they are set up, what they do when they are asked, and how they
//! connect and deliver.
use tungstenite::http::HeaderMap;
use vstd::prelude::*;
use vstd::utf8::encode_utf8;

use crate::duration::Duration;
use crate::headers::header_entries;
use crate::laws::building::{has_all, lemma_has_all};
use crate::laws::{increasing, lemma_places_increase};
use crate::message::RealtimeMessage;
use crate::places::{chosen_places, places};
use crate::realtime_channel::{
    ChannelManager, ChannelManagerMessage, ChannelState, RealtimeChannel, RealtimeChannelBuilder,
    SocketTx,
};
use crate::realtime_client::{
    at_places, backoff, default_reconnect, is_addressed, is_open, ChannelLook, ClientAction,
    ClientManagerMessage, ClientReply, ClientState, ConnectError, ConnectStep, Delivery,
    RealtimeClient, RealtimeClientBuilder, ReconnectFn, Rejoin, Retry,
};
use crate::string_map::{Deep, StringMap};

verus! {

/// Each plain setting of a builder is the one that was given last, and no
/// setting touches another one.
pub proof fn client_settings_are_kept<R, E, D>(
    builder: RealtimeClientBuilder<R, E, D>,
    access_token: String,
    with_token: RealtimeClientBuilder<R, E, D>,
    params: StringMap<String>,
    with_params: RealtimeClientBuilder<R, E, D>,
    heartbeat_interval: Duration,
    with_heartbeat: RealtimeClientBuilder<R, E, D>,
    max_attempts: usize,
    with_attempts: RealtimeClientBuilder<R, E, D>,
)
    requires
        call_ensures(
            RealtimeClientBuilder::<R, E, D>::access_token,
            (builder, access_token),
            with_token,
        ),
        call_ensures(RealtimeClientBuilder::<R, E, D>::params, (builder, params), with_params),
        call_ensures(
            RealtimeClientBuilder::<R, E, D>::heartbeat_interval,
            (builder, heartbeat_interval),
            with_heartbeat,
        ),
        call_ensures(
            RealtimeClientBuilder::<R, E, D>::reconnect_max_attempts,
            (builder, max_attempts),
            with_attempts,
        ),
    ensures
        with_token == (RealtimeClientBuilder { access_token, ..builder }),
        with_params == (RealtimeClientBuilder { params: Some(params), ..builder }),
        with_heartbeat == (RealtimeClientBuilder { heartbeat_interval, ..builder }),
        with_attempts == (RealtimeClientBuilder {
            reconnect_max_attempts: max_attempts,
            ..builder
        }),
{
}

/// Whether two builders say the same but for the functions that they hold.
pub open spec fn says_the_same<R, E, D, R2, E2, D2>(
    a: RealtimeClientBuilder<R, E, D>,
    b: RealtimeClientBuilder<R2, E2, D2>,
) -> bool {
    &&& a.headers == b.headers
    &&& a.params == b.params
    &&& a.heartbeat_interval == b.heartbeat_interval
    &&& a.reconnect_max_attempts == b.reconnect_max_attempts
    &&& a.endpoint == b.endpoint
    &&& a.access_token == b.access_token
}

/// Each function of a builder is the one that was given last, and none of them
/// touches anything else.
pub proof fn client_functions_are_kept<
    R,
    E,
    D,
    F: Fn(usize) -> Duration,
    I: Fn(RealtimeMessage) -> RealtimeMessage,
>(
    builder: RealtimeClientBuilder<R, E, D>,
    reconnect: ReconnectFn<F>,
    with_reconnect: RealtimeClientBuilder<F, E, D>,
    encode: I,
    with_encode: RealtimeClientBuilder<R, I, D>,
    decode: I,
    with_decode: RealtimeClientBuilder<R, E, I>,
)
    requires
        call_ensures(
            RealtimeClientBuilder::<R, E, D>::reconnect_interval::<F>,
            (builder, reconnect),
            with_reconnect,
        ),
        call_ensures(
            RealtimeClientBuilder::<R, E, D>::encode::<I>,
            (builder, encode),
            with_encode,
        ),
        call_ensures(
            RealtimeClientBuilder::<R, E, D>::decode::<I>,
            (builder, decode),
            with_decode,
        ),
    ensures
        says_the_same(with_reconnect, builder),
        with_reconnect.reconnect_interval == reconnect,
        with_reconnect.encode == builder.encode,
        with_reconnect.decode == builder.decode,
        says_the_same(with_encode, builder),
        with_encode.encode == Some(encode),
        with_encode.decode == builder.decode,
        with_encode.reconnect_interval == builder.reconnect_interval,
        says_the_same(with_decode, builder),
        with_decode.decode == Some(decode),
        with_decode.encode == builder.encode,
        with_decode.reconnect_interval == builder.reconnect_interval,
{
}

/// A reconnect function is the function that it was made of.
pub proof fn reconnect_function_is_the_given_one<F: Fn(usize) -> Duration>(
    f: F,
    made: ReconnectFn<F>,
)
    requires
        call_ensures(ReconnectFn::<F>::new, (f,), made),
    ensures
        *made.0 == f,
{
}

/// What a header map has under a name, if it has that name.
pub open spec fn header(headers: HeaderMap, name: Seq<char>) -> Option<Seq<(Seq<u8>, bool)>> {
    if header_entries(headers).contains_key(name) {
        Some(header_entries(headers)[name])
    } else {
        None
    }
}

/// What the header says that names the client.
pub open spec fn client_name() -> Option<Seq<(Seq<u8>, bool)>> {
    Some(seq![(encode_utf8("realtime-rs/0.1.0"@), false)])
}

/// Headers that are set are the given ones under every name but that which
/// names the client, and that always does. Nothing else changes.
pub proof fn set_headers_name_the_client<R, E, D>(
    builder: RealtimeClientBuilder<R, E, D>,
    given: HeaderMap,
    made: RealtimeClientBuilder<R, E, D>,
    tried: Result<RealtimeClientBuilder<R, E, D>, RealtimeClientBuilder<R, E, D>>,
    name: Seq<char>,
)
    requires
        call_ensures(RealtimeClientBuilder::<R, E, D>::set_headers, (builder, given), made),
        call_ensures(
            RealtimeClientBuilder::<R, E, D>::checked_set_headers,
            (builder, given),
            tried,
        ),
    ensures
        made == (RealtimeClientBuilder { headers: made.headers, ..builder }),
        header(made.headers, name) == if name == "x-client-info"@ {
            client_name()
        } else {
            header(given, name)
        },
        match tried {
            Ok(done) => {
                &&& done == (RealtimeClientBuilder { headers: done.headers, ..builder })
                &&& header(done.headers, name) == if name == "x-client-info"@ {
                    client_name()
                } else {
                    header(given, name)
                }
            },
            Err(same) => same == builder,
        },
{
}

/// Headers that are added replace those of the same name and leave the others,
/// and the client is always named. Nothing else changes.
pub proof fn added_headers_name_the_client<R, E, D>(
    builder: RealtimeClientBuilder<R, E, D>,
    given: HeaderMap,
    made: RealtimeClientBuilder<R, E, D>,
    tried: Result<RealtimeClientBuilder<R, E, D>, RealtimeClientBuilder<R, E, D>>,
    name: Seq<char>,
)
    requires
        call_ensures(RealtimeClientBuilder::<R, E, D>::add_headers, (builder, given), made),
        call_ensures(
            RealtimeClientBuilder::<R, E, D>::checked_add_headers,
            (builder, given),
            tried,
        ),
    ensures
        made == (RealtimeClientBuilder { headers: made.headers, ..builder }),
        header(made.headers, name) == if name == "x-client-info"@ {
            client_name()
        } else if header(given, name) is Some {
            header(given, name)
        } else {
            header(builder.headers, name)
        },
        match tried {
            Ok(done) => {
                &&& done == (RealtimeClientBuilder { headers: done.headers, ..builder })
                &&& header(done.headers, name) == if name == "x-client-info"@ {
                    client_name()
                } else if header(given, name) is Some {
                    header(given, name)
                } else {
                    header(builder.headers, name)
                }
            },
            Err(same) => same == builder,
        },
{
}

/// Headers are taken as long as there are few of them, and refused where there
/// are more than a header map can have.
pub proof fn few_headers_are_taken<R, E, D>(
    builder: RealtimeClientBuilder<R, E, D>,
    given: HeaderMap,
    set: Result<RealtimeClientBuilder<R, E, D>, RealtimeClientBuilder<R, E, D>>,
    added: Result<RealtimeClientBuilder<R, E, D>, RealtimeClientBuilder<R, E, D>>,
)
    requires
        call_ensures(
            RealtimeClientBuilder::<R, E, D>::checked_set_headers,
            (builder, given),
            set,
        ),
        call_ensures(
            RealtimeClientBuilder::<R, E, D>::checked_add_headers,
            (builder, given),
            added,
        ),
        header_entries(given).dom().finite(),
        header_entries(builder.headers).dom().finite(),
    ensures
        header_entries(given).dom().len() < 6553 ==> set is Ok,
        header_entries(given).dom().len() > 24576 ==> set is Err,
        header_entries(given).dom().len() + header_entries(builder.headers).dom().len() < 6553
            ==> added is Ok,
        header_entries(given).dom().len() > 24576 ==> added is Err,
{
    let some = header_entries(given).dom();
    let held = header_entries(builder.headers).dom();
    let one = some.insert("x-client-info"@);
    let both = held.union(some).insert("x-client-info"@);
    vstd::set_lib::lemma_len_union(held, some);
    vstd::set_lib::lemma_len_subset(some, one);
    vstd::set_lib::lemma_len_subset(some, both);
    assert(header_entries(given).insert(
        "x-client-info"@,
        seq![(encode_utf8("realtime-rs/0.1.0"@), false)],
    ).dom() =~= one);
    assert(header_entries(builder.headers).union_prefer_right(header_entries(given)).insert(
        "x-client-info"@,
        seq![(encode_utf8("realtime-rs/0.1.0"@), false)],
    ).dom() =~= both);
}

/// Whether a client has the settings of a builder.
pub open spec fn has_settings<R, E, D>(
    client: RealtimeClient<R, E, D>,
    builder: RealtimeClientBuilder<R, E, D>,
) -> bool {
    &&& client.endpoint@ == builder.endpoint@
    &&& client.access_token@ == builder.access_token@
    &&& forall|name: Seq<char>| #[trigger]
        header(client.headers, name) == header(builder.headers, name)
    &&& match (client.params, builder.params) {
        (Some(a), Some(b)) => {
            &&& a.keys() == b.keys()
            &&& forall|key: Seq<char>|
                {
                    &&& #[trigger] a@.contains_key(key) <==> b@.contains_key(key)
                    &&& a@.contains_key(key) ==> a@[key]@ == b@[key]@
                }
        },
        (None, None) => true,
        _ => false,
    }
    &&& client.heartbeat_interval == builder.heartbeat_interval
    &&& client.encode == builder.encode
    &&& client.decode == builder.decode
    &&& client.reconnect_interval == builder.reconnect_interval
    &&& client.reconnect_max_attempts == builder.reconnect_max_attempts
}

pub(crate) proof fn lemma_has_settings<R, E, D>(
    client: RealtimeClient<R, E, D>,
    builder: RealtimeClientBuilder<R, E, D>,
)
    requires
        client.is_configured_by(builder),
    ensures
        has_settings(client, builder),
{
    if client.params is Some {
        let a = client.params->Some_0;
        let b = builder.params->Some_0;
        assert forall|key: Seq<char>|
            {
                &&& #[trigger] a@.contains_key(key) <==> b@.contains_key(key)
                &&& a@.contains_key(key) ==> a@[key]@ == b@[key]@
            } by {
            assert(a.model().contains_key(key) == a@.contains_key(key));
            assert(b.model().contains_key(key) == b@.contains_key(key));
            if a@.contains_key(key) {
                assert(a.model()[key] == a@[key].model());
                assert(b.model()[key] == b@[key].model());
            }
        }
    }
}

/// A client has the settings of its builder. It is closed, has no way to
/// a socket yet, and knows no channel.
pub proof fn client_has_its_settings<R, E, D>(
    builder: RealtimeClientBuilder<R, E, D>,
    client: RealtimeClient<R, E, D>,
)
    requires
        call_ensures(RealtimeClientBuilder::<R, E, D>::connect, (builder,), client),
    ensures
        has_settings(client, builder),
        client.state == ClientState::Closed,
        client.ws_tx is None,
        client.channels@.len() == 0,
{
    lemma_has_settings(client, builder);
}

/// Disconnecting closes a client, and gives back a builder with its settings.
pub proof fn disconnecting_gives_the_settings_back<R: Copy, E: Copy, D: Copy>(
    client: &mut RealtimeClient<R, E, D>,
    builder: RealtimeClientBuilder<R, E, D>,
)
    requires
        call_ensures(RealtimeClient::<R, E, D>::disconnect, (client,), builder),
    ensures
        *final(client) == (RealtimeClient { state: ClientState::Closed, ..*old(client) }),
        has_settings(*old(client), builder),
{
    lemma_has_settings(*old(client), builder);
}

/// A client that was asked for a channel more keeps every channel that it knew,
/// in its place, and has the new one behind them. Nothing else of it changes.
pub proof fn new_channel_comes_last<R, E, D>(
    client: &mut RealtimeClient<R, E, D>,
    manager: ChannelManager,
    action: ClientAction,
)
    requires
        call_ensures(
            RealtimeClient::<R, E, D>::manager_recv,
            (client, ClientManagerMessage::AddChannel { manager }),
            action,
        ),
    ensures
        final(client).channels@.len() == old(client).channels@.len() + 1,
        final(client).channels@.last() == manager,
        forall|i: int|
            0 <= i < old(client).channels@.len() ==> #[trigger] final(client).channels@[i] == old(
                client,
            ).channels@[i],
        *final(client) == (RealtimeClient { channels: final(client).channels, ..*old(client) }),
        action matches ClientAction::Reply(ClientReply::Channel(added)) && added == manager,
{
}

/// A channel that is added comes behind those that the client knew.
pub proof fn added_channel_comes_last<R, E, D>(
    client: &mut RealtimeClient<R, E, D>,
    channel: ChannelManager,
    added: ChannelManager,
)
    requires
        call_ensures(RealtimeClient::<R, E, D>::add_channel, (client, channel), added),
    ensures
        added == channel,
        final(client).channels@ == old(client).channels@ + seq![channel],
        *final(client) == (RealtimeClient { channels: final(client).channels, ..*old(client) }),
{
}

/// No request makes a client forget a channel, or changes the order of those
/// that it knows.
pub proof fn no_request_forgets_a_channel<R, E, D>(
    client: &mut RealtimeClient<R, E, D>,
    request: ClientManagerMessage,
    action: ClientAction,
    i: int,
)
    requires
        call_ensures(RealtimeClient::<R, E, D>::manager_recv, (client, request), action),
        0 <= i < old(client).channels@.len(),
    ensures
        i < final(client).channels@.len(),
        final(client).channels@[i] == old(client).channels@[i],
        !(request is AddChannel) ==> final(client).channels@ == old(client).channels@,
{
}

/// A client that is given a token uses it from then on, and has every channel
/// that it knows take it over, in their order. Nothing else of it changes.
pub proof fn new_token_goes_to_every_channel<R, E, D>(
    client: &mut RealtimeClient<R, E, D>,
    access_token: String,
    action: ClientAction,
)
    requires
        call_ensures(
            RealtimeClient::<R, E, D>::manager_recv,
            (client, ClientManagerMessage::SetAccessToken { access_token }),
            action,
        ),
    ensures
        final(client).access_token@ == access_token@,
        *final(client) == (RealtimeClient {
            access_token: final(client).access_token,
            ..*old(client)
        }),
        action matches ClientAction::ReAuth { channels, access_token: token } && channels@ == old(
            client,
        ).channels@ && token@ == access_token@,
{
}

/// A client that is to disconnect has every channel that it knows leave, in
/// their order.
pub proof fn disconnecting_leaves_every_channel<R, E, D>(
    client: &mut RealtimeClient<R, E, D>,
    action: ClientAction,
)
    requires
        call_ensures(
            RealtimeClient::<R, E, D>::manager_recv,
            (client, ClientManagerMessage::Disconnect),
            action,
        ),
    ensures
        *final(client) == *old(client),
        action matches ClientAction::Disconnect { channels } && channels@ == old(client).channels@,
{
}

/// A client that is asked about itself answers what is the case, and one that
/// is to connect connects. Neither changes it.
pub proof fn client_questions_are_answered<R, E, D>(
    client: &mut RealtimeClient<R, E, D>,
    request: ClientManagerMessage,
    action: ClientAction,
)
    requires
        call_ensures(RealtimeClient::<R, E, D>::manager_recv, (client, request), action),
        request is Connect || request is GetWsTx || request is GetAccessToken
            || request is GetAccessTokenArc || request is GetState,
    ensures
        *final(client) == *old(client),
        request is Connect ==> action is Connect,
        request is GetAccessTokenArc ==> action is ShareAccessToken,
        request is GetWsTx ==> (action matches ClientAction::Reply(ClientReply::WsTx(ws_tx))
            && old(client).ws_tx == Some(ws_tx)),
        request is GetAccessToken ==> (action matches ClientAction::Reply(
            ClientReply::AccessToken(token),
        ) && token@ == old(client).access_token@),
        request is GetState ==> (action matches ClientAction::Reply(ClientReply::State(state))
            && state == old(client).state),
{
}

/// A client that makes a channel gives it its token and its way to the socket,
/// and knows it from then on, behind those that it knew.
pub proof fn built_channel_is_known<K, B, P, R, E, D>(
    builder: RealtimeChannelBuilder<K, B, P>,
    client: &mut RealtimeClient<R, E, D>,
    manager: ChannelManager,
    channel: RealtimeChannel<K, B, P>,
)
    requires
        call_ensures(
            RealtimeChannelBuilder::<K, B, P>::build::<R, E, D>,
            (builder, client, manager),
            channel,
        ),
    ensures
        old(client).ws_tx matches Some(ws_tx) ==> has_all(
            channel,
            builder,
            ws_tx,
            old(client).access_token@,
        ),
        final(client).channels@ == old(client).channels@ + seq![manager],
        *final(client) == (RealtimeClient { channels: final(client).channels, ..*old(client) }),
{
    lemma_has_all(channel, builder, old(client).ws_tx->Some_0, old(client).access_token@);
}

/// Whether every channel is to be handed a socket and then to join, in the order
/// of the channels.
pub open spec fn rejoin_all(
    rejoins: Seq<Rejoin>,
    channels: Seq<ChannelManager>,
    ws_tx: SocketTx,
) -> bool {
    &&& rejoins.len() == channels.len()
    &&& forall|i: int|
        0 <= i < rejoins.len() ==> {
            let rejoin = #[trigger] rejoins[i];
            &&& rejoin.manager == channels[i]
            &&& rejoin.requests@.len() == 2
            &&& rejoin.requests@[0] == (ChannelManagerMessage::ClientTx { new_tx: ws_tx })
            &&& rejoin.requests@[1] is Subscribe
        }
}

/// With a socket a client is open and has every channel that it knows join
/// through that socket. Nothing else of it changes.
pub proof fn open_socket_rejoins_every_channel<R, E, D>(
    client: &mut RealtimeClient<R, E, D>,
    ws_tx: SocketTx,
    rejoins: Vec<Rejoin>,
)
    requires
        call_ensures(RealtimeClient::<R, E, D>::connected, (client, ws_tx), rejoins),
    ensures
        *final(client) == (RealtimeClient {
            state: ClientState::Open,
            ws_tx: Some(ws_tx),
            ..*old(client)
        }),
        rejoin_all(rejoins@, old(client).channels@, ws_tx),
{
}

/// A client whose frame could not be read wants to reconnect, and one that wants
/// to reconnect does when the socket ends; any other one does not. Nothing
/// else of it changes.
pub proof fn lost_socket_is_replaced<R, E, D>(
    failing: &mut RealtimeClient<R, E, D>,
    ending: &mut RealtimeClient<R, E, D>,
    reconnect: bool,
)
    requires
        call_ensures(RealtimeClient::<R, E, D>::frame_failed, (failing,), ()),
        call_ensures(RealtimeClient::<R, E, D>::stream_ended, (ending,), reconnect),
    ensures
        *final(failing) == (RealtimeClient { state: ClientState::Reconnect, ..*old(failing) }),
        reconnect <==> old(ending).state == ClientState::Reconnect,
        reconnect ==> *final(ending) == (RealtimeClient {
            state: ClientState::Reconnecting,
            ..*old(ending)
        }),
        !reconnect ==> *final(ending) == *old(ending),
{
}

/// A failed attempt to connect is the last one if and only if it is as many as
/// the client may make; before that the client waits as its reconnect function
/// says for the count of failures so far.
pub proof fn failed_attempts_are_counted<R: Fn(usize) -> Duration, E, D>(
    client: RealtimeClient<R, E, D>,
    failed_before: usize,
    retry: Retry,
)
    requires
        call_ensures(
            RealtimeClient::<R, E, D>::connection_failed,
            (&client, failed_before),
            retry,
        ),
    ensures
        match retry {
            Retry::GiveUp(error) => failed_before + 1 >= client.reconnect_max_attempts && error
                == ConnectError::MaxRetries,
            Retry::After { failures, wait } => failed_before + 1 < client.reconnect_max_attempts
                && failures == failed_before + 1 && call_ensures(
                *client.reconnect_interval.0,
                (failures,),
                wait,
            ),
        },
{
}

/// An attempt that gives a socket opens the client and has every channel join;
/// one that gives none changes nothing, and is repeated until the client has
/// made as many as it may.
pub proof fn attempts_lead_somewhere<R: Fn(usize) -> Duration, E, D>(
    client: &mut RealtimeClient<R, E, D>,
    failed_before: usize,
    outcome: Option<SocketTx>,
    step: ConnectStep,
)
    requires
        call_ensures(
            RealtimeClient::<R, E, D>::connect_ws,
            (client, failed_before, outcome),
            step,
        ),
    ensures
        match outcome {
            Some(ws_tx) => {
                &&& *final(client) == (RealtimeClient {
                    state: ClientState::Open,
                    ws_tx: Some(ws_tx),
                    ..*old(client)
                })
                &&& step matches ConnectStep::Connected { rejoins } && rejoin_all(
                    rejoins@,
                    old(client).channels@,
                    ws_tx,
                )
            },
            None => {
                &&& *final(client) == *old(client)
                &&& failed_before + 1 >= old(client).reconnect_max_attempts ==> step
                    == ConnectStep::Failed(ConnectError::MaxRetries)
                &&& failed_before + 1 < old(client).reconnect_max_attempts ==> (step matches
                    ConnectStep::Again { failures, wait } && failures == failed_before + 1
                    && call_ensures(*old(client).reconnect_interval.0, (failures,), wait))
            },
        },
{
}

/// Without failures there is no wait; after the first three it is one, two and
/// five seconds, and from then on ten.
pub proof fn waits_step_up(attempts: usize, wait: Duration)
    requires
        call_ensures(backoff, (attempts,), wait),
    ensures
        wait.nanos == 0,
        attempts == 0 ==> wait.secs == 0,
        attempts == 1 ==> wait.secs == 1,
        attempts == 2 ==> wait.secs == 2,
        attempts == 3 ==> wait.secs == 5,
        attempts >= 4 ==> wait.secs == 10,
{
}

/// The wait never gets shorter with more failures.
pub proof fn waits_never_get_shorter(fewer: usize, more: usize, first: Duration, second: Duration)
    requires
        call_ensures(backoff, (fewer,), first),
        call_ensures(backoff, (more,), second),
        fewer <= more,
    ensures
        first.secs <= second.secs <= 10,
{
}

/// A message is sent as the encoder makes it, and as it is where there is none.
pub proof fn encoder_has_the_last_word<R, E: Fn(RealtimeMessage) -> RealtimeMessage, D>(
    client: RealtimeClient<R, E, D>,
    message: RealtimeMessage,
    encoded: RealtimeMessage,
)
    requires
        call_ensures(RealtimeClient::<R, E, D>::outgoing, (&client, message), encoded),
    ensures
        match client.encode {
            Some(encode) => call_ensures(encode, (message,), encoded),
            None => encoded == message,
        },
{
}

/// Whether a list holds exactly the channels at the places that `chosen` lists,
/// in order.
pub open spec fn picks(
    picked: Seq<ChannelManager>,
    channels: Seq<ChannelManager>,
    chosen: Seq<int>,
) -> bool {
    &&& picked.len() == chosen.len()
    &&& forall|k: int|
        0 <= k < picked.len() ==> #[trigger] picked[k] == channels[chosen[k]]
}

pub(crate) proof fn lemma_picks(
    channels: Seq<ChannelManager>,
    n: int,
    wanted: spec_fn(int) -> bool,
)
    ensures
        picks(at_places(channels, places(n, wanted)), channels, places(n, wanted)),
        increasing(places(n, wanted)),
        forall|i: int| #[trigger]
            places(n, wanted).contains(i) <==> 0 <= i < n && wanted(i),
{
    lemma_places_increase(n, wanted);
    assert forall|i: int| #[trigger] places(n, wanted).contains(i) <==> 0 <= i < n && wanted(i) by {
        chosen_places(n, wanted, i);
    }
}

/// A message from the server, as the decoder makes it, goes to exactly the
/// channels that are not closed and have its topic; exactly the channels that
/// are closed are forgotten. The order of the channels stays, and nothing else
/// of the client changes.
pub proof fn messages_are_delivered<R, E, D: Fn(RealtimeMessage) -> RealtimeMessage>(
    client: &mut RealtimeClient<R, E, D>,
    message: RealtimeMessage,
    looks: Vec<ChannelLook>,
    delivery: Delivery,
)
    requires
        call_ensures(
            RealtimeClient::<R, E, D>::receive,
            (client, message, &looks),
            delivery,
        ),
    ensures
        match old(client).decode {
            Some(decode) => call_ensures(decode, (message,), delivery.message),
            None => delivery.message == message,
        },
        exists|getting: Seq<int>| #[trigger]
            picks(delivery.channels@, old(client).channels@, getting) && increasing(getting) && (
            forall|i: int| #[trigger]
                getting.contains(i) <==> 0 <= i < looks@.len() && looks@[i].state
                    != ChannelState::Closed && looks@[i].topic@ == delivery.message.topic@),
        exists|staying: Seq<int>| #[trigger]
            picks(final(client).channels@, old(client).channels@, staying) && increasing(staying)
                && (forall|i: int| #[trigger]
                staying.contains(i) <==> 0 <= i < looks@.len() && looks@[i].state
                    != ChannelState::Closed),
        *final(client) == (RealtimeClient { channels: final(client).channels, ..*old(client) }),
{
    let n = looks@.len() as int;
    let known = old(client).channels@;
    let gets = is_addressed(looks@, delivery.message.topic@);
    let stays = is_open(looks@);
    lemma_picks(known, n, gets);
    lemma_picks(known, n, stays);
    let getting = places(n, gets);
    let staying = places(n, stays);
    assert(picks(delivery.channels@, known, getting));
    assert(picks(final(client).channels@, known, staying));
    assert forall|i: int| #[trigger]
        getting.contains(i) <==> 0 <= i < looks@.len() && looks@[i].state != ChannelState::Closed
            && looks@[i].topic@ == delivery.message.topic@ by {
        assert(gets(i) == (looks@[i].state != ChannelState::Closed && looks@[i].topic@
            == delivery.message.topic@));
    }
    assert forall|i: int| #[trigger]
        staying.contains(i) <==> 0 <= i < looks@.len() && looks@[i].state
            != ChannelState::Closed by {
        assert(stays(i) == (looks@[i].state != ChannelState::Closed));
    }
}

/// A client of which nothing was said is closed.
pub proof fn default_client_is_closed(state: ClientState)
    requires
        call_ensures(<ClientState as Default>::default, (), state),
    ensures
        state == ClientState::Closed,
{
}

/// A new builder has the endpoint and the token that it was given. It names the
/// client in its only header, and has no params, no encoder and no decoder. Its
/// heartbeat comes every 29 seconds, and it never gives up.
pub proof fn new_client_has_an_endpoint(endpoint: String, anon_key: String)
    ensures
        forall|builder|
            #![trigger call_ensures(RealtimeClientBuilder::new, (endpoint, anon_key), builder)]
            call_ensures(RealtimeClientBuilder::new, (endpoint, anon_key), builder) ==> {
                &&& builder.endpoint == endpoint
                &&& builder.access_token == anon_key
                &&& builder.params is None
                &&& builder.encode is None
                &&& builder.decode is None
                &&& builder.heartbeat_interval == (Duration { secs: 29, nanos: 0 })
                &&& builder.reconnect_max_attempts == usize::MAX
                &&& forall|name: Seq<char>| #[trigger]
                    header(builder.headers, name) == if name == "x-client-info"@ {
                        client_name()
                    } else {
                        None
                    }
            },
{
}

/// A client that was given no reconnect function waits as the stepped backoff
/// does.
pub proof fn new_client_waits_in_steps(endpoint: String, anon_key: String)
    ensures
        forall|builder, attempts: usize, wait: Duration|
            #![trigger call_ensures(RealtimeClientBuilder::new, (endpoint, anon_key), builder),
                call_ensures(*builder.reconnect_interval.0, (attempts,), wait)]
            call_ensures(RealtimeClientBuilder::new, (endpoint, anon_key), builder)
                && call_ensures(*builder.reconnect_interval.0, (attempts,), wait) ==> {
                &&& wait.nanos == 0
                &&& wait.secs == if attempts == 0 {
                    0u64
                } else if attempts == 1 {
                    1
                } else if attempts == 2 {
                    2
                } else if attempts == 3 {
                    5
                } else {
                    10
                }
            },
{
}

/// The reconnect function of a client that was given none is the stepped
/// backoff.
pub proof fn default_waits_step_up()
    ensures
        forall|made, attempts: usize, wait: Duration|
            #![trigger call_ensures(default_reconnect, (), made),
                call_ensures(*made.0, (attempts,), wait)]
            call_ensures(default_reconnect, (), made) && call_ensures(
                *made.0,
                (attempts,),
                wait,
            ) ==> {
                &&& wait.nanos == 0
                &&& wait.secs == if attempts == 0 {
                    0u64
                } else if attempts == 1 {
                    1
                } else if attempts == 2 {
                    2
                } else if attempts == 3 {
                    5
                } else {
                    10
                }
            },
{
}

} // verus!
