//! The client with middleware, and its channels.
use tungstenite::http::HeaderMap;
use vstd::prelude::*;

use crate::duration::Duration;
use crate::laws::building::{announces_callback, has_all, lemma_has_all, says_only};
use crate::laws::channel::{asks_to_join, carries, says_goodbye};
use crate::laws::client::{
    client_name, has_settings, header, lemma_has_settings, lemma_picks, picks, says_the_same,
};
use crate::laws::increasing;
use crate::laws::messages::{lemma_same_config, same_text};
use crate::laws::presence::{lemma_same_state, same_state};
use crate::message::payload::{
    BroadcastConfig, BroadcastPayload, JoinPayload, Payload, PostgresChangesEvent, PresenceConfig,
};
use crate::message::presence::{PresenceEvent, PresenceState, StateData};
use crate::message::{MessageEvent, PostgresChangeFilter, RealtimeMessage};
use crate::places::places;
use crate::realtime_channel as base_channel;
use crate::realtime_channel::{
    announced, ChannelAction, ChannelManager, ChannelReply, ChannelSendError, ChannelState,
    SendPurpose, SocketTx,
};
use crate::realtime_client as base;
use crate::realtime_client::{ClientAction, ClientReply, ClientState, Delivery, ReconnectFn};
use crate::string_map::{Deep, StringMap};
use crate::sync::{
    has_topic, quoted, runs_to, without_middleware, ChannelManagerMessage, ClientManagerMessage,
    ConnectionState, MonitorError, NextMessageError, RealtimeChannel, RealtimeChannelBuilder,
    RealtimeClient, RealtimeClientBuilder, SocketError, TryRecvError,
};

verus! {

/// Asked to join, in whatever state, a channel sends a join request to its
/// socket, waits for the reply, and is otherwise as it was.
pub proof fn sync_joining_sends_a_request<K, B, P>(
    channel: &mut RealtimeChannel<K, B, P>,
    request: ChannelManagerMessage,
    action: ChannelAction,
    joining: &mut RealtimeChannel<K, B, P>,
    join: RealtimeMessage,
)
    requires
        call_ensures(RealtimeChannel::<K, B, P>::manager_recv, (channel, request), action),
        request is Subscribe || request is SubscribeBlocking,
        call_ensures(RealtimeChannel::<K, B, P>::subscribe, (joining,), join),
    ensures
        final(channel).channel == (base_channel::RealtimeChannel {
            state: ChannelState::Joining,
            ..old(channel).channel
        }),
        action matches ChannelAction::Send { to, message, purpose } && to
            == old(channel).channel.client_tx && asks_to_join(old(channel).channel, message)
            && purpose == (if request is Subscribe {
            SendPurpose::Subscribe
        } else {
            SendPurpose::SubscribeBlocking
        }),
        final(joining).channel == (base_channel::RealtimeChannel {
            state: ChannelState::Joining,
            ..old(joining).channel
        }),
        asks_to_join(old(joining).channel, join),
{
    lemma_same_config(
        action->Send_message.payload->Join_0.config,
        old(channel).channel.join_payload.config,
    );
    lemma_same_config(join.payload->Join_0.config, old(joining).channel.join_payload.config);
}

/// Asked to broadcast, a channel in any state but leaving sends to its socket
/// a broadcast on its topic with exactly that payload. One that is leaving does
/// nothing. Neither changes.
pub proof fn sync_broadcasting_sends_the_payload<K, B, P>(
    channel: &mut RealtimeChannel<K, B, P>,
    payload: BroadcastPayload,
    action: ChannelAction,
)
    requires
        call_ensures(
            RealtimeChannel::<K, B, P>::manager_recv,
            (channel, ChannelManagerMessage::Broadcast { payload }),
            action,
        ),
    ensures
        *final(channel) == *old(channel),
        match old(channel).channel.state {
            ChannelState::Leaving => action is Nothing,
            _ => action matches ChannelAction::Send { to, message, purpose } && to
                == old(channel).channel.client_tx && purpose == SendPurpose::Broadcast && carries(
                old(channel).channel,
                message,
                MessageEvent::Broadcast,
                Payload::Broadcast(payload),
            ),
        },
{
}

/// A channel that is given a new way to the socket uses it from then on. Nothing
/// else of it changes.
pub proof fn sync_new_socket_is_used<K, B, P>(
    channel: &mut RealtimeChannel<K, B, P>,
    new_tx: SocketTx,
    action: ChannelAction,
)
    requires
        call_ensures(
            RealtimeChannel::<K, B, P>::manager_recv,
            (channel, ChannelManagerMessage::ClientTx { new_tx }),
            action,
        ),
    ensures
        final(channel).channel == (base_channel::RealtimeChannel {
            client_tx: new_tx,
            ..old(channel).channel
        }),
        action == ChannelAction::Reply(ChannelReply::Done),
{
}

/// A channel that is asked about itself answers what is the case, and does not
/// change.
pub proof fn sync_questions_are_answered<K, B, P>(
    channel: &mut RealtimeChannel<K, B, P>,
    request: ChannelManagerMessage,
    action: ChannelAction,
)
    requires
        call_ensures(RealtimeChannel::<K, B, P>::manager_recv, (channel, request), action),
        request is State || request is GetTx || request is GetTopic,
    ensures
        *final(channel) == *old(channel),
        request is GetTx ==> action is GiveTx,
        request is State ==> (action matches ChannelAction::Reply(ChannelReply::State(state))
            && state == old(channel).channel.state),
        request is GetTopic ==> (action matches ChannelAction::Reply(ChannelReply::Topic(topic))
            && topic@ == old(channel).channel.topic@),
{
}

/// Of all messages that were sent or came back only the one of a blocking
/// subscription is waited for.
pub proof fn sync_blocking_subscription_waits<K, B, P>(
    channel: RealtimeChannel<K, B, P>,
    purpose: SendPurpose,
    action: ChannelAction,
)
    requires
        call_ensures(RealtimeChannel::<K, B, P>::sent, (&channel, purpose), action),
    ensures
        purpose == SendPurpose::SubscribeBlocking ==> action is AwaitJoined,
        purpose != SendPurpose::SubscribeBlocking ==> action is Nothing,
{
}

/// There is a goodbye to send unless the channel is closed or already leaving.
/// Once it is sent the channel is leaving; if it came back, the channel is as it
/// was.
pub proof fn sync_leaving_sends_a_goodbye<K, B, P>(
    channel: RealtimeChannel<K, B, P>,
    message: Option<RealtimeMessage>,
    leaving: &mut RealtimeChannel<K, B, P>,
    outcome: Result<(), RealtimeMessage>,
    reply: Result<ChannelState, ChannelSendError>,
)
    requires
        call_ensures(RealtimeChannel::<K, B, P>::unsubscribe, (&channel,), message),
        call_ensures(RealtimeChannel::<K, B, P>::left, (leaving, outcome), reply),
    ensures
        match channel.channel.state {
            ChannelState::Closed | ChannelState::Leaving => message is None,
            _ => message matches Some(goodbye) && says_goodbye(channel.channel, goodbye),
        },
        match outcome {
            Ok(_) => {
                &&& final(leaving).channel == (base_channel::RealtimeChannel {
                    state: ChannelState::Leaving,
                    ..old(leaving).channel
                })
                &&& reply matches Ok(state) && state == ChannelState::Leaving
            },
            Err(back) => {
                &&& *final(leaving) == *old(leaving)
                &&& reply matches Err(ChannelSendError::SendError(same)) && same == back
            },
        },
{
}

/// The presence state that a channel gives is the one that it has.
pub proof fn sync_presence_state_is_given<K, B, P>(
    channel: RealtimeChannel<K, B, P>,
    state: PresenceState,
)
    requires
        call_ensures(RealtimeChannel::<K, B, P>::presence_state, (&channel,), state),
    ensures
        same_state(state, channel.channel.presence.state),
{
    lemma_same_state(state, channel.channel.presence.state);
}

/// What a channel readies is on its topic and carries what it was given, unless
/// the channel is leaving. Then it readies nothing.
pub proof fn sync_readied_messages_are_on_topic<K, B, P>(
    channel: RealtimeChannel<K, B, P>,
    message: RealtimeMessage,
    payload: BroadcastPayload,
    data: StateData,
    send: Result<RealtimeMessage, ChannelSendError>,
    broadcast: Result<RealtimeMessage, ChannelSendError>,
    track: Result<RealtimeMessage, ChannelSendError>,
    untrack: Result<RealtimeMessage, ChannelSendError>,
)
    requires
        call_ensures(RealtimeChannel::<K, B, P>::send, (&channel, message), send),
        call_ensures(RealtimeChannel::<K, B, P>::broadcast, (&channel, payload), broadcast),
        call_ensures(RealtimeChannel::<K, B, P>::track, (&channel, data), track),
        call_ensures(RealtimeChannel::<K, B, P>::untrack, (&channel,), untrack),
    ensures
        channel.channel.state == ChannelState::Leaving ==> {
            let error = ChannelSendError::ChannelError(ChannelState::Leaving);
            &&& send matches Err(refused) && refused == error
            &&& broadcast matches Err(refused) && refused == error
            &&& track matches Err(refused) && refused == error
            &&& untrack matches Err(refused) && refused == error
        },
        channel.channel.state != ChannelState::Leaving ==> {
            &&& send matches Ok(sent) && sent.event == message.event && sent.topic@
                == channel.channel.topic@ && sent.payload == message.payload && same_text(
                sent.message_ref,
                message.message_ref,
            )
            &&& broadcast matches Ok(sent) && carries(
                channel.channel,
                sent,
                MessageEvent::Broadcast,
                Payload::Broadcast(payload),
            )
            &&& track matches Ok(sent) && sent.event == MessageEvent::Presence && sent.topic@
                == channel.channel.topic@ && sent.message_ref is None && (sent.payload matches
                Payload::PresenceTrack(inner) && inner.event == PresenceEvent::Track
                && inner.payload == data)
            &&& untrack matches Ok(sent) && sent.event == MessageEvent::Untrack && sent.topic@
                == channel.channel.topic@ && sent.message_ref is None && sent.payload is Empty
        },
{
}

/// A channel that takes over a token announces it from then on, and has
/// a message for the server if and only if it has joined. Nothing else of it
/// changes.
pub proof fn sync_new_token_is_taken_over<K, B, P>(
    channel: &mut RealtimeChannel<K, B, P>,
    access_token: String,
    message: Option<RealtimeMessage>,
)
    requires
        call_ensures(RealtimeChannel::<K, B, P>::set_auth, (channel, access_token), message),
    ensures
        final(channel).channel.join_payload.access_token@ == access_token@,
        final(channel).channel == (base_channel::RealtimeChannel {
            join_payload: JoinPayload {
                access_token: final(channel).channel.join_payload.access_token,
                ..old(channel).channel.join_payload
            },
            ..old(channel).channel
        }),
        message is Some <==> old(channel).channel.state == ChannelState::Joined,
        message matches Some(sent) ==> sent.event == MessageEvent::AccessToken && sent.topic@
            == old(channel).channel.topic@ && sent.message_ref is None && (sent.payload matches
            Payload::AccessToken(payload) && payload.access_token@ == access_token@),
{
}

/// In debug output a channel is named by its topic.
pub proof fn sync_debug_output_names_the_topic<K, B, P>(
    channel: RealtimeChannel<K, B, P>,
    text: String,
)
    requires
        call_ensures(RealtimeChannel::<K, B, P>::debug_text, (&channel,), text),
    ensures
        text@ == "RealtimeChannel { name: "@ + quoted(channel.channel.topic@)
            + ", callbacks: [TODO DEBUG]}"@,
{
}

/// A new builder is for the channel of the given name. Each setting is the one
/// that was given last, and no setting touches another one.
pub proof fn sync_channel_settings_are_kept<K, B, P>(
    name: String,
    fresh: RealtimeChannelBuilder<K, B, P>,
    builder: RealtimeChannelBuilder<K, B, P>,
    other: String,
    renamed: RealtimeChannelBuilder<K, B, P>,
    broadcast: BroadcastConfig,
    with_broadcast: RealtimeChannelBuilder<K, B, P>,
    presence: PresenceConfig,
    with_presence: RealtimeChannelBuilder<K, B, P>,
)
    requires
        call_ensures(RealtimeChannelBuilder::<K, B, P>::new, (name,), fresh),
        call_ensures(RealtimeChannelBuilder::<K, B, P>::topic, (builder, other), renamed),
        call_ensures(
            RealtimeChannelBuilder::<K, B, P>::broadcast,
            (builder, broadcast),
            with_broadcast,
        ),
        call_ensures(
            RealtimeChannelBuilder::<K, B, P>::presence,
            (builder, presence),
            with_presence,
        ),
    ensures
        says_only(fresh.builder, name@),
        fresh.builder.id@.len() == 36,
        renamed.builder.topic@ == "realtime:"@ + other@,
        renamed.builder == (base_channel::RealtimeChannelBuilder {
            topic: renamed.builder.topic,
            ..builder.builder
        }),
        with_broadcast.builder == (base_channel::RealtimeChannelBuilder {
            broadcast,
            ..builder.builder
        }),
        with_presence.builder == (base_channel::RealtimeChannelBuilder {
            presence,
            ..builder.builder
        }),
{
}

/// Callbacks are registered behind those that were there, and those for postgres
/// changes are announced behind those that were.
pub proof fn sync_callbacks_are_added<K, B, P>(
    builder: RealtimeChannelBuilder<K, B, P>,
    event: PostgresChangesEvent,
    filter: PostgresChangeFilter,
    callback: K,
    with_change: RealtimeChannelBuilder<K, B, P>,
    presence_event: PresenceEvent,
    presence_callback: P,
    with_presence: RealtimeChannelBuilder<K, B, P>,
    broadcast_event: String,
    broadcast_callback: B,
    with_broadcast: RealtimeChannelBuilder<K, B, P>,
    i: int,
)
    requires
        call_ensures(
            RealtimeChannelBuilder::<K, B, P>::on_postgres_change,
            (builder, event, filter, callback),
            with_change,
        ),
        call_ensures(
            RealtimeChannelBuilder::<K, B, P>::on_presence,
            (builder, presence_event, presence_callback),
            with_presence,
        ),
        call_ensures(
            RealtimeChannelBuilder::<K, B, P>::on_broadcast,
            (builder, broadcast_event, broadcast_callback),
            with_broadcast,
        ),
    ensures
        with_change.builder == (base_channel::RealtimeChannelBuilder {
            postgres_changes: with_change.builder.postgres_changes,
            cdc_callbacks: with_change.builder.cdc_callbacks,
            ..builder.builder
        }),
        with_change.builder.cdc_callbacks@ == builder.builder.cdc_callbacks@.push(
            (event, filter, callback),
        ),
        with_change.builder.postgres_changes@.len() == builder.builder.postgres_changes@.len() + 1,
        announces_callback(with_change.builder.postgres_changes@.last(), event, filter),
        0 <= i < builder.builder.postgres_changes@.len() ==> {
            let was = builder.builder.postgres_changes@[i];
            let now = with_change.builder.postgres_changes@[i];
            &&& now.event == was.event
            &&& now.schema@ == was.schema@
            &&& now.table@ == was.table@
            &&& same_text(now.filter, was.filter)
        },
        with_presence.builder == (base_channel::RealtimeChannelBuilder {
            presence_callbacks: with_presence.builder.presence_callbacks,
            ..builder.builder
        }),
        with_presence.builder.presence_callbacks@ == builder.builder.presence_callbacks@.push(
            (presence_event, presence_callback),
        ),
        with_broadcast.builder == (base_channel::RealtimeChannelBuilder {
            broadcast_callbacks: with_broadcast.builder.broadcast_callbacks,
            ..builder.builder
        }),
        with_broadcast.builder.broadcast_callbacks@ == builder.builder.broadcast_callbacks@.push(
            (broadcast_event, broadcast_callback),
        ),
{
    let was = builder.builder.postgres_changes;
    let now = with_change.builder.postgres_changes;
    assert(now.model().len() == now@.len());
    assert(was.model().len() == was@.len());
    assert(now.model()[was@.len() as int] == now@.last().model());
    assert(now.model()[was@.len() as int] == announced((event, filter, callback)));
    if 0 <= i < was@.len() {
        assert(now.model()[i] == now@[i].model());
        assert(was.model()[i] == was@[i].model());
    }
}

/// A client that makes a channel gives it its token and its way to the socket,
/// and knows it from then on, behind those that it knew.
pub proof fn sync_built_channel_is_known<K, B, P, R, E, D, M>(
    builder: RealtimeChannelBuilder<K, B, P>,
    client: &mut RealtimeClient<R, E, D, M>,
    manager: ChannelManager,
    channel: RealtimeChannel<K, B, P>,
)
    requires
        call_ensures(
            RealtimeChannelBuilder::<K, B, P>::build::<R, E, D, M>,
            (builder, client, manager),
            channel,
        ),
    ensures
        old(client).client.ws_tx matches Some(ws_tx) ==> has_all(
            channel.channel,
            builder.builder,
            ws_tx,
            old(client).client.access_token@,
        ),
        final(client).client.channels@ == old(client).client.channels@ + seq![manager],
        final(client).client == (base::RealtimeClient {
            channels: final(client).client.channels,
            ..old(client).client
        }),
        *final(client) == (RealtimeClient { client: final(client).client, ..*old(client) }),
{
    lemma_has_all(
        channel.channel,
        builder.builder,
        old(client).client.ws_tx->Some_0,
        old(client).client.access_token@,
    );
}

/// A client that was asked for a channel more keeps every channel that it knew,
/// in its place, and has the new one behind them. What it is asked about itself
/// it answers, and it does not change. Its middleware stays in any case.
pub proof fn sync_requests_are_met<R, E, D, M>(
    client: &mut RealtimeClient<R, E, D, M>,
    request: ClientManagerMessage,
    action: ClientAction,
)
    requires
        call_ensures(RealtimeClient::<R, E, D, M>::manager_recv, (client, request), action),
    ensures
        *final(client) == (RealtimeClient { client: final(client).client, ..*old(client) }),
        match request {
            ClientManagerMessage::Connect => *final(client) == *old(client) && action is Connect,
            ClientManagerMessage::GetWsTx => {
                &&& *final(client) == *old(client)
                &&& action matches ClientAction::Reply(ClientReply::WsTx(ws_tx)) && old(
                    client,
                ).client.ws_tx == Some(ws_tx)
            },
            ClientManagerMessage::GetAccessToken => {
                &&& *final(client) == *old(client)
                &&& action matches ClientAction::Reply(ClientReply::AccessToken(token)) && token@
                    == old(client).client.access_token@
            },
            ClientManagerMessage::AddChannel { manager } => {
                &&& final(client).client.channels@ == old(client).client.channels@ + seq![manager]
                &&& final(client).client == (base::RealtimeClient {
                    channels: final(client).client.channels,
                    ..old(client).client
                })
                &&& action matches ClientAction::Reply(ClientReply::Channel(added)) && added
                    == manager
            },
        },
{
}

/// The status of a client is the state of its connection.
pub proof fn sync_status_is_the_state<R, E, D, M>(
    client: RealtimeClient<R, E, D, M>,
    status: ConnectionState,
    default: ConnectionState,
)
    requires
        call_ensures(RealtimeClient::<R, E, D, M>::get_status, (&client,), status),
        call_ensures(<ConnectionState as Default>::default, (), default),
    ensures
        status == ConnectionState::Reconnect <==> client.client.state == ClientState::Reconnect,
        status == ConnectionState::Reconnecting <==> client.client.state
            == ClientState::Reconnecting,
        status == ConnectionState::Connecting <==> client.client.state == ClientState::Connecting,
        status == ConnectionState::Open <==> client.client.state == ClientState::Open,
        status == ConnectionState::Closing <==> client.client.state == ClientState::Closing,
        status == ConnectionState::Closed <==> client.client.state == ClientState::Closed,
        default == ConnectionState::Closed,
{
}

/// A message goes as it is to the socket that the client has.
pub proof fn sync_messages_go_to_the_socket<R, E, D, M>(
    client: RealtimeClient<R, E, D, M>,
    message: RealtimeMessage,
    sending: (SocketTx, RealtimeMessage),
)
    requires
        call_ensures(RealtimeClient::<R, E, D, M>::send, (&client, message), sending),
    ensures
        client.client.ws_tx matches Some(ws_tx) ==> sending.0 == ws_tx,
        sending.1 == message,
{
}

/// A client that is given a token uses it from then on, and names every channel
/// that it knows to take it over. Nothing else of it changes.
pub proof fn sync_new_token_goes_to_every_channel<R, E, D, M>(
    client: &mut RealtimeClient<R, E, D, M>,
    access_token: String,
    channels: Vec<ChannelManager>,
)
    requires
        call_ensures(RealtimeClient::<R, E, D, M>::set_auth, (client, access_token), channels),
    ensures
        channels@ == old(client).client.channels@,
        final(client).client == (base::RealtimeClient { access_token, ..old(client).client }),
        *final(client) == (RealtimeClient { client: final(client).client, ..*old(client) }),
{
}

/// Whether a list of middleware has the same items in the same order as another
/// one but for those under an identifier.
pub open spec fn is_without_id<M>(
    now: Seq<(String, M)>,
    was: Seq<(String, M)>,
    id: Seq<char>,
) -> bool {
    exists|kept: Seq<int>|
        #![trigger increasing(kept)]
        {
            &&& increasing(kept)
            &&& kept.len() == now.len()
            &&& forall|k: int| 0 <= k < kept.len() ==> #[trigger] now[k] == was[kept[k]]
            &&& forall|i: int| #[trigger]
                kept.contains(i) <==> 0 <= i < was.len() && was[i].0@ != id
        }
}

proof fn lemma_without_id<M>(was: Seq<(String, M)>, id: Seq<char>)
    ensures
        is_without_id(without_middleware(was, id), was, id),
    decreases was.len(),
{
    let now = without_middleware(was, id);
    if was.len() == 0 {
        let kept = Seq::<int>::empty();
        assert(increasing(kept));
    } else {
        let last = was.len() - 1;
        let front = was.drop_last();
        lemma_without_id(front, id);
        let before = without_middleware(front, id);
        let kept = choose|kept: Seq<int>|
            #![trigger increasing(kept)]
            {
                &&& increasing(kept)
                &&& kept.len() == before.len()
                &&& forall|k: int| 0 <= k < kept.len() ==> #[trigger] before[k] == front[kept[k]]
                &&& forall|i: int| #[trigger]
                    kept.contains(i) <==> 0 <= i < front.len() && front[i].0@ != id
            };
        assert forall|k: int| 0 <= k < kept.len() implies 0 <= #[trigger] kept[k] < last by {
            assert(kept.contains(kept[k]));
        }
        assert(was.last() == was[last]);
        if was[last].0@ == id {
            assert forall|k: int| 0 <= k < kept.len() implies #[trigger] now[k] == was[kept[k]] by {
                assert(before[k] == front[kept[k]]);
            }
            assert forall|i: int| #[trigger]
                kept.contains(i) <==> 0 <= i < was.len() && was[i].0@ != id by {
                if 0 <= i < last {
                    assert(front[i] == was[i]);
                }
            }
            assert(increasing(kept));
        } else {
            let more = kept.push(last);
            assert(increasing(more)) by {
                assert forall|i: int, j: int| 0 <= i < j < more.len() implies #[trigger] more[i]
                    < #[trigger] more[j] by {
                    if j < kept.len() {
                        assert(kept[i] < kept[j]);
                    }
                }
            }
            assert forall|k: int| 0 <= k < more.len() implies #[trigger] now[k] == was[more[k]] by {
                if k < kept.len() {
                    assert(now[k] == before[k]);
                    assert(before[k] == front[kept[k]]);
                }
            }
            assert forall|i: int| #[trigger]
                more.contains(i) <==> 0 <= i < was.len() && was[i].0@ != id by {
                if kept.contains(i) {
                    assert(more[kept.index_of(i)] == i);
                    assert(front[i] == was[i]);
                }
                if i == last {
                    assert(more[kept.len() as int] == i);
                }
                if more.contains(i) && i != last {
                    let at = more.index_of(i);
                    assert(kept[at] == i);
                }
                if 0 <= i < last {
                    assert(front[i] == was[i]);
                }
            }
        }
    }
}

/// Middleware that is added comes last, under its identifier, in place of what
/// stood under it; all other middleware stays in its order. Nothing else of the
/// client changes.
pub proof fn added_middleware_comes_last<R, E, D, M>(
    client: &mut RealtimeClient<R, E, D, M>,
    id: String,
    middleware: M,
    other: &mut RealtimeClient<R, E, D, M>,
    drawn: String,
)
    requires
        call_ensures(RealtimeClient::<R, E, D, M>::put_middleware, (client, id, middleware), ()),
        call_ensures(RealtimeClient::<R, E, D, M>::add_middleware, (other, middleware), drawn),
    ensures
        final(client).middleware@.len() > 0,
        final(client).middleware@.last() == (id, middleware),
        is_without_id(final(client).middleware@.drop_last(), old(client).middleware@, id@),
        *final(client) == (RealtimeClient { middleware: final(client).middleware, ..*old(client) }),
        final(other).middleware@.len() > 0,
        final(other).middleware@.last().0@ == drawn@,
        final(other).middleware@.last().1 == middleware,
        is_without_id(final(other).middleware@.drop_last(), old(other).middleware@, drawn@),
        *final(other) == (RealtimeClient { middleware: final(other).middleware, ..*old(other) }),
        drawn@.len() == 36,
{
    lemma_without_id(old(client).middleware@, id@);
    lemma_without_id(old(other).middleware@, drawn@);
    assert(final(client).middleware@.drop_last() =~= without_middleware(
        old(client).middleware@,
        id@,
    ));
    assert(final(other).middleware@.drop_last() =~= without_middleware(
        old(other).middleware@,
        drawn@,
    ));
}

/// Middleware that is removed is gone, and all other middleware stays in its
/// order. Nothing else of the client changes.
pub proof fn removed_middleware_leaves<R, E, D, M>(
    client: &mut RealtimeClient<R, E, D, M>,
    id: String,
    same: &mut RealtimeClient<R, E, D, M>,
)
    requires
        call_ensures(RealtimeClient::<R, E, D, M>::remove_middleware, (client, id), same),
    ensures
        is_without_id(old(same).middleware@, old(client).middleware@, id@),
        *old(same) == (RealtimeClient { middleware: old(same).middleware, ..*old(client) }),
        *final(client) == *final(same),
{
    lemma_without_id(old(client).middleware@, id@);
}

/// Whether messages are what middleware, one after the other, makes of the first
/// of them.
pub open spec fn is_chain<M: Fn(RealtimeMessage) -> RealtimeMessage>(
    chain: Seq<RealtimeMessage>,
    middleware: Seq<(String, M)>,
) -> bool {
    &&& chain.len() == middleware.len() + 1
    &&& forall|i: int|
        0 <= i < middleware.len() ==> call_ensures(
            (#[trigger] middleware[i]).1,
            (chain[i],),
            chain[i + 1],
        )
}

proof fn lemma_chain<M: Fn(RealtimeMessage) -> RealtimeMessage>(
    middleware: Seq<(String, M)>,
    before: RealtimeMessage,
    after: RealtimeMessage,
)
    requires
        runs_to(middleware, before, after),
    ensures
        exists|chain: Seq<RealtimeMessage>| #[trigger]
            is_chain(chain, middleware) && chain.first() == before && chain.last() == after,
    decreases middleware.len(),
{
    if middleware.len() == 0 {
        let chain = seq![before];
        assert(is_chain(chain, middleware));
        assert(chain.first() == before && chain.last() == after);
    } else {
        let front = middleware.drop_last();
        let between = choose|between: RealtimeMessage|
            runs_to(front, before, between) && #[trigger] call_ensures(
                middleware.last().1,
                (between,),
                after,
            );
        lemma_chain(front, before, between);
        let start = choose|start: Seq<RealtimeMessage>| #[trigger]
            is_chain(start, front) && start.first() == before && start.last() == between;
        let chain = start.push(after);
        assert forall|i: int| 0 <= i < middleware.len() implies call_ensures(
            (#[trigger] middleware[i]).1,
            (chain[i],),
            chain[i + 1],
        ) by {
            if i < front.len() {
                assert(front[i] == middleware[i]);
                assert(chain[i] == start[i] && chain[i + 1] == start[i + 1]);
            } else {
                assert(middleware[i] == middleware.last());
                assert(chain[i] == between && chain[i + 1] == after);
            }
        }
        assert(is_chain(chain, middleware));
        assert(chain.first() == before && chain.last() == after);
    }
}

/// Every middleware has every message once, in the order in which it was added,
/// each as the one before it left the message.
pub proof fn middleware_runs_in_order<R, E, D, M: Fn(RealtimeMessage) -> RealtimeMessage>(
    client: RealtimeClient<R, E, D, M>,
    before: RealtimeMessage,
    after: RealtimeMessage,
)
    requires
        call_ensures(RealtimeClient::<R, E, D, M>::run_middleware, (&client, before), after),
    ensures
        exists|chain: Seq<RealtimeMessage>| #[trigger]
            is_chain(chain, client.middleware@) && chain.first() == before && chain.last() == after,
{
    lemma_chain(client.middleware@, before, after);
}

/// A message from the server goes, as the middleware leaves it, to exactly the
/// channels that have its topic, in the order of the channels.
pub proof fn sync_messages_are_delivered<R, E, D, M: Fn(RealtimeMessage) -> RealtimeMessage>(
    client: RealtimeClient<R, E, D, M>,
    message: RealtimeMessage,
    topics: Vec<String>,
    delivery: Delivery,
)
    requires
        call_ensures(
            RealtimeClient::<R, E, D, M>::receive,
            (&client, message, &topics),
            delivery,
        ),
    ensures
        exists|chain: Seq<RealtimeMessage>| #[trigger]
            is_chain(chain, client.middleware@) && chain.first() == message && chain.last()
                == delivery.message,
        exists|getting: Seq<int>| #[trigger]
            picks(delivery.channels@, client.client.channels@, getting) && increasing(getting) && (
            forall|i: int| #[trigger]
                getting.contains(i) <==> 0 <= i < topics@.len() && topics@[i]@
                    == delivery.message.topic@),
{
    lemma_chain(client.middleware@, message, delivery.message);
    let n = topics@.len() as int;
    let gets = has_topic(topics@, delivery.message.topic@);
    lemma_picks(client.client.channels@, n, gets);
    let getting = places(n, gets);
    assert(picks(delivery.channels@, client.client.channels@, getting));
    assert forall|i: int| #[trigger]
        getting.contains(i) <==> 0 <= i < topics@.len() && topics@[i]@
            == delivery.message.topic@ by {
        assert(gets(i) == (topics@[i]@ == delivery.message.topic@));
    }
}

/// Whether a builder is another one but for the settings of any client.
pub open spec fn keeps_own_settings<R, E, D, R2, E2, D2>(
    made: RealtimeClientBuilder<R, E, D>,
    builder: RealtimeClientBuilder<R2, E2, D2>,
) -> bool {
    &&& made.connection_timeout == builder.connection_timeout
    &&& made.auth_url == builder.auth_url
    &&& made.max_events_per_second == builder.max_events_per_second
}

/// Each plain setting of a builder is the one that was given last, and no
/// setting touches another one.
pub proof fn sync_client_settings_are_kept<R, E, D>(
    builder: RealtimeClientBuilder<R, E, D>,
    access_token: String,
    with_token: RealtimeClientBuilder<R, E, D>,
    params: StringMap<String>,
    with_params: RealtimeClientBuilder<R, E, D>,
    heartbeat_interval: Duration,
    with_heartbeat: RealtimeClientBuilder<R, E, D>,
    max_attempts: usize,
    with_attempts: RealtimeClientBuilder<R, E, D>,
)
    requires
        call_ensures(
            RealtimeClientBuilder::<R, E, D>::access_token,
            (builder, access_token),
            with_token,
        ),
        call_ensures(RealtimeClientBuilder::<R, E, D>::params, (builder, params), with_params),
        call_ensures(
            RealtimeClientBuilder::<R, E, D>::heartbeat_interval,
            (builder, heartbeat_interval),
            with_heartbeat,
        ),
        call_ensures(
            RealtimeClientBuilder::<R, E, D>::reconnect_max_attempts,
            (builder, max_attempts),
            with_attempts,
        ),
    ensures
        keeps_own_settings(with_token, builder),
        with_token.builder == (base::RealtimeClientBuilder { access_token, ..builder.builder }),
        keeps_own_settings(with_params, builder),
        with_params.builder == (base::RealtimeClientBuilder {
            params: Some(params),
            ..builder.builder
        }),
        keeps_own_settings(with_heartbeat, builder),
        with_heartbeat.builder == (base::RealtimeClientBuilder {
            heartbeat_interval,
            ..builder.builder
        }),
        keeps_own_settings(with_attempts, builder),
        with_attempts.builder == (base::RealtimeClientBuilder {
            reconnect_max_attempts: max_attempts,
            ..builder.builder
        }),
{
}

/// A timeout for connecting is the one that was given, but at least a second.
/// The other settings of this client are those that were given last. None of
/// them touches another one.
pub proof fn sync_own_settings_are_kept<R, E, D>(
    builder: RealtimeClientBuilder<R, E, D>,
    timeout: Duration,
    with_timeout: RealtimeClientBuilder<R, E, D>,
    auth_url: String,
    with_auth: RealtimeClientBuilder<R, E, D>,
    count: usize,
    with_count: RealtimeClientBuilder<R, E, D>,
)
    requires
        call_ensures(
            RealtimeClientBuilder::<R, E, D>::connection_timeout,
            (builder, timeout),
            with_timeout,
        ),
        call_ensures(RealtimeClientBuilder::<R, E, D>::auth_url, (builder, auth_url), with_auth),
        call_ensures(
            RealtimeClientBuilder::<R, E, D>::max_events_per_second,
            (builder, count),
            with_count,
        ),
    ensures
        with_timeout == (RealtimeClientBuilder {
            connection_timeout: with_timeout.connection_timeout,
            ..builder
        }),
        timeout.secs == 0 && timeout.nanos < 1_000_000_000 ==> with_timeout.connection_timeout == (
        Duration { secs: 1, nanos: 0 }),
        timeout.secs > 0 || timeout.nanos >= 1_000_000_000 ==> with_timeout.connection_timeout
            == timeout,
        with_auth == (RealtimeClientBuilder { auth_url: Some(auth_url), ..builder }),
        with_count == (RealtimeClientBuilder { max_events_per_second: count, ..builder }),
{
}

/// The auth server is the one that was set, and the endpoint where none was.
pub proof fn sync_auth_server_is_the_endpoint_at_first<R, E, D>(
    builder: RealtimeClientBuilder<R, E, D>,
    url: &String,
)
    requires
        call_ensures(RealtimeClientBuilder::<R, E, D>::get_auth_url, (&builder,), url),
    ensures
        match builder.auth_url {
            Some(set) => url@ == set@,
            None => url@ == builder.builder.endpoint@,
        },
{
}

/// Each function of a builder is the one that was given last, and none of them
/// touches anything else.
pub proof fn sync_client_functions_are_kept<
    R,
    E,
    D,
    F: Fn(usize) -> Duration,
    I: Fn(RealtimeMessage) -> RealtimeMessage,
>(
    builder: RealtimeClientBuilder<R, E, D>,
    reconnect: ReconnectFn<F>,
    with_reconnect: RealtimeClientBuilder<F, E, D>,
    encode: I,
    with_encode: RealtimeClientBuilder<R, I, D>,
    decode: I,
    with_decode: RealtimeClientBuilder<R, E, I>,
)
    requires
        call_ensures(
            RealtimeClientBuilder::<R, E, D>::reconnect_interval::<F>,
            (builder, reconnect),
            with_reconnect,
        ),
        call_ensures(
            RealtimeClientBuilder::<R, E, D>::encode::<I>,
            (builder, encode),
            with_encode,
        ),
        call_ensures(
            RealtimeClientBuilder::<R, E, D>::decode::<I>,
            (builder, decode),
            with_decode,
        ),
    ensures
        keeps_own_settings(with_reconnect, builder),
        says_the_same(with_reconnect.builder, builder.builder),
        with_reconnect.builder.reconnect_interval == reconnect,
        with_reconnect.builder.encode == builder.builder.encode,
        with_reconnect.builder.decode == builder.builder.decode,
        keeps_own_settings(with_encode, builder),
        says_the_same(with_encode.builder, builder.builder),
        with_encode.builder.encode == Some(encode),
        with_encode.builder.decode == builder.builder.decode,
        with_encode.builder.reconnect_interval == builder.builder.reconnect_interval,
        keeps_own_settings(with_decode, builder),
        says_the_same(with_decode.builder, builder.builder),
        with_decode.builder.decode == Some(decode),
        with_decode.builder.encode == builder.builder.encode,
        with_decode.builder.reconnect_interval == builder.builder.reconnect_interval,
{
}

/// What setting headers makes of those under a name.
pub open spec fn set_header(given: HeaderMap, name: Seq<char>) -> Option<Seq<(Seq<u8>, bool)>> {
    if name == "x-client-info"@ {
        client_name()
    } else {
        header(given, name)
    }
}

/// What adding headers makes of those under a name.
pub open spec fn added_header(
    held: HeaderMap,
    given: HeaderMap,
    name: Seq<char>,
) -> Option<Seq<(Seq<u8>, bool)>> {
    if name == "x-client-info"@ {
        client_name()
    } else if header(given, name) is Some {
        header(given, name)
    } else {
        header(held, name)
    }
}

/// Whether a builder is another one but for its headers.
pub open spec fn differs_in_headers<R, E, D>(
    made: RealtimeClientBuilder<R, E, D>,
    builder: RealtimeClientBuilder<R, E, D>,
) -> bool {
    &&& keeps_own_settings(made, builder)
    &&& made.builder == base::RealtimeClientBuilder {
        headers: made.builder.headers,
        ..builder.builder
    }
}

/// Headers that are set are the given ones, and headers that are added replace
/// those of the same name, but for the one that names the client, which always
/// does. Nothing else changes, and headers that are refused change nothing.
pub proof fn sync_headers_name_the_client<R, E, D>(
    builder: RealtimeClientBuilder<R, E, D>,
    given: HeaderMap,
    set: RealtimeClientBuilder<R, E, D>,
    tried_set: Result<RealtimeClientBuilder<R, E, D>, RealtimeClientBuilder<R, E, D>>,
    added: RealtimeClientBuilder<R, E, D>,
    tried_added: Result<RealtimeClientBuilder<R, E, D>, RealtimeClientBuilder<R, E, D>>,
    name: Seq<char>,
)
    requires
        call_ensures(RealtimeClientBuilder::<R, E, D>::set_headers, (builder, given), set),
        call_ensures(
            RealtimeClientBuilder::<R, E, D>::checked_set_headers,
            (builder, given),
            tried_set,
        ),
        call_ensures(RealtimeClientBuilder::<R, E, D>::add_headers, (builder, given), added),
        call_ensures(
            RealtimeClientBuilder::<R, E, D>::checked_add_headers,
            (builder, given),
            tried_added,
        ),
    ensures
        differs_in_headers(set, builder),
        header(set.builder.headers, name) == set_header(given, name),
        match tried_set {
            Ok(made) => differs_in_headers(made, builder) && header(made.builder.headers, name)
                == set_header(given, name),
            Err(same) => same == builder,
        },
        differs_in_headers(added, builder),
        header(added.builder.headers, name) == added_header(builder.builder.headers, given, name),
        match tried_added {
            Ok(made) => differs_in_headers(made, builder) && header(made.builder.headers, name)
                == added_header(builder.builder.headers, given, name),
            Err(same) => same == builder,
        },
{
}

/// A client has the settings of its builder. It is closed, has no way to
/// a socket, no channel and no middleware yet.
pub proof fn sync_client_has_its_settings<R, E, D, M>(
    builder: RealtimeClientBuilder<R, E, D>,
    client: RealtimeClient<R, E, D, M>,
)
    requires
        call_ensures(RealtimeClientBuilder::<R, E, D>::build::<M>, (builder,), client),
    ensures
        has_settings(client.client, builder.builder),
        client.client.state == ClientState::Closed,
        client.client.ws_tx is None,
        client.client.channels@.len() == 0,
        client.middleware@.len() == 0,
        client.connection_timeout == builder.connection_timeout,
        client.max_events_per_second == builder.max_events_per_second,
        client.next_ref@.len() == 36,
{
    lemma_has_settings(client.client, builder.builder);
}

/// Every reason why there is no next message is written by its name, with the
/// name of the reason inside it in parentheses.
pub proof fn reasons_are_written_by_name(error: NextMessageError, text: String)
    requires
        call_ensures(NextMessageError::to_text, (&error,), text),
    ensures
        text@ == match error {
            NextMessageError::WouldBlock => "WouldBlock"@,
            NextMessageError::NoChannel => "NoChannel"@,
            NextMessageError::ChannelClosed => "ChannelClosed"@,
            NextMessageError::ClientClosed => "ClientClosed"@,
            NextMessageError::TryRecvError(TryRecvError::Empty) => "TryRecvError(Empty)"@,
            NextMessageError::TryRecvError(TryRecvError::Disconnected) =>
                "TryRecvError(Disconnected)"@,
            NextMessageError::MonitorError(MonitorError::ReconnectError) =>
                "MonitorError(ReconnectError)"@,
            NextMessageError::MonitorError(MonitorError::MaxReconnects) =>
                "MonitorError(MaxReconnects)"@,
            NextMessageError::MonitorError(MonitorError::WouldBlock) =>
                "MonitorError(WouldBlock)"@,
            NextMessageError::MonitorError(MonitorError::Disconnected) =>
                "MonitorError(Disconnected)"@,
            NextMessageError::SocketError(SocketError::NoSocket) => "SocketError(NoSocket)"@,
            NextMessageError::SocketError(SocketError::NoRead) => "SocketError(NoRead)"@,
            NextMessageError::SocketError(SocketError::NoWrite) => "SocketError(NoWrite)"@,
            NextMessageError::SocketError(SocketError::Disconnected) =>
                "SocketError(Disconnected)"@,
            NextMessageError::SocketError(SocketError::WouldBlock) => "SocketError(WouldBlock)"@,
            NextMessageError::SocketError(SocketError::TooManyRetries) =>
                "SocketError(TooManyRetries)"@,
            NextMessageError::SocketError(SocketError::HandshakeError) =>
                "SocketError(HandshakeError)"@,
        },
{
    reveal_strlit(")");
    match error {
        NextMessageError::TryRecvError(TryRecvError::Empty) => {
            reveal_strlit("TryRecvError(");
            reveal_strlit("Empty");
            reveal_strlit("TryRecvError(Empty)");
            assert(text@ =~= "TryRecvError(Empty)"@);
        },
        NextMessageError::TryRecvError(TryRecvError::Disconnected) => {
            reveal_strlit("TryRecvError(");
            reveal_strlit("Disconnected");
            reveal_strlit("TryRecvError(Disconnected)");
            assert(text@ =~= "TryRecvError(Disconnected)"@);
        },
        NextMessageError::MonitorError(MonitorError::ReconnectError) => {
            reveal_strlit("MonitorError(");
            reveal_strlit("ReconnectError");
            reveal_strlit("MonitorError(ReconnectError)");
            assert(text@ =~= "MonitorError(ReconnectError)"@);
        },
        NextMessageError::MonitorError(MonitorError::MaxReconnects) => {
            reveal_strlit("MonitorError(");
            reveal_strlit("MaxReconnects");
            reveal_strlit("MonitorError(MaxReconnects)");
            assert(text@ =~= "MonitorError(MaxReconnects)"@);
        },
        NextMessageError::MonitorError(MonitorError::WouldBlock) => {
            reveal_strlit("MonitorError(");
            reveal_strlit("WouldBlock");
            reveal_strlit("MonitorError(WouldBlock)");
            assert(text@ =~= "MonitorError(WouldBlock)"@);
        },
        NextMessageError::MonitorError(MonitorError::Disconnected) => {
            reveal_strlit("MonitorError(");
            reveal_strlit("Disconnected");
            reveal_strlit("MonitorError(Disconnected)");
            assert(text@ =~= "MonitorError(Disconnected)"@);
        },
        NextMessageError::SocketError(SocketError::NoSocket) => {
            reveal_strlit("SocketError(");
            reveal_strlit("NoSocket");
            reveal_strlit("SocketError(NoSocket)");
            assert(text@ =~= "SocketError(NoSocket)"@);
        },
        NextMessageError::SocketError(SocketError::NoRead) => {
            reveal_strlit("SocketError(");
            reveal_strlit("NoRead");
            reveal_strlit("SocketError(NoRead)");
            assert(text@ =~= "SocketError(NoRead)"@);
        },
        NextMessageError::SocketError(SocketError::NoWrite) => {
            reveal_strlit("SocketError(");
            reveal_strlit("NoWrite");
            reveal_strlit("SocketError(NoWrite)");
            assert(text@ =~= "SocketError(NoWrite)"@);
        },
        NextMessageError::SocketError(SocketError::Disconnected) => {
            reveal_strlit("SocketError(");
            reveal_strlit("Disconnected");
            reveal_strlit("SocketError(Disconnected)");
            assert(text@ =~= "SocketError(Disconnected)"@);
        },
        NextMessageError::SocketError(SocketError::WouldBlock) => {
            reveal_strlit("SocketError(");
            reveal_strlit("WouldBlock");
            reveal_strlit("SocketError(WouldBlock)");
            assert(text@ =~= "SocketError(WouldBlock)"@);
        },
        NextMessageError::SocketError(SocketError::TooManyRetries) => {
            reveal_strlit("SocketError(");
            reveal_strlit("TooManyRetries");
            reveal_strlit("SocketError(TooManyRetries)");
            assert(text@ =~= "SocketError(TooManyRetries)"@);
        },
        NextMessageError::SocketError(SocketError::HandshakeError) => {
            reveal_strlit("SocketError(");
            reveal_strlit("HandshakeError");
            reveal_strlit("SocketError(HandshakeError)");
            assert(text@ =~= "SocketError(HandshakeError)"@);
        },
        _ => {},
    }
}

/// A new builder has the endpoint and the token that it was given. It names the
/// client in its only header, and has no params, no encoder and no decoder. Its
/// heartbeat comes every 29 seconds, it waits in steps and never gives up, gives
/// a connection 10 seconds and sends 10 messages a second.
pub proof fn sync_new_client_has_an_endpoint(endpoint: String, access_token: String)
    ensures
        forall|made|
            #![trigger call_ensures(RealtimeClientBuilder::new, (endpoint, access_token), made)]
            call_ensures(RealtimeClientBuilder::new, (endpoint, access_token), made) ==> {
                &&& made.builder.endpoint == endpoint
                &&& made.builder.access_token == access_token
                &&& made.builder.params is None
                &&& made.builder.encode is None
                &&& made.builder.decode is None
                &&& made.builder.heartbeat_interval == (Duration { secs: 29, nanos: 0 })
                &&& made.builder.reconnect_max_attempts == usize::MAX
                &&& made.connection_timeout == (Duration { secs: 10, nanos: 0 })
                &&& made.auth_url is None
                &&& made.max_events_per_second == 10
                &&& forall|name: Seq<char>| #[trigger]
                    header(made.builder.headers, name) == if name == "x-client-info"@ {
                        client_name()
                    } else {
                        None
                    }
                &&& forall|attempts: usize, wait: Duration| #[trigger]
                    call_ensures(*made.builder.reconnect_interval.0, (attempts,), wait) ==> {
                        &&& wait.nanos == 0
                        &&& wait.secs == if attempts == 0 {
                            0u64
                        } else if attempts == 1 {
                            1
                        } else if attempts == 2 {
                            2
                        } else if attempts == 3 {
                            5
                        } else {
                            10
                        }
                    }
            },
{
}

/// So has the builder that a client gives.
pub proof fn sync_builder_has_an_endpoint(endpoint: String, access_token: String)
    ensures
        forall|made|
            #![trigger call_ensures(RealtimeClient::builder, (endpoint, access_token), made)]
            call_ensures(RealtimeClient::builder, (endpoint, access_token), made) ==> {
                &&& made.builder.endpoint == endpoint
                &&& made.builder.access_token == access_token
                &&& made.builder.params is None
                &&& made.builder.encode is None
                &&& made.builder.decode is None
                &&& made.builder.heartbeat_interval == (Duration { secs: 29, nanos: 0 })
                &&& made.builder.reconnect_max_attempts == usize::MAX
                &&& made.connection_timeout == (Duration { secs: 10, nanos: 0 })
                &&& made.auth_url is None
                &&& made.max_events_per_second == 10
                &&& forall|name: Seq<char>| #[trigger]
                    header(made.builder.headers, name) == if name == "x-client-info"@ {
                        client_name()
                    } else {
                        None
                    }
                &&& forall|attempts: usize, wait: Duration| #[trigger]
                    call_ensures(*made.builder.reconnect_interval.0, (attempts,), wait) ==> {
                        &&& wait.nanos == 0
                        &&& wait.secs == if attempts == 0 {
                            0u64
                        } else if attempts == 1 {
                            1
                        } else if attempts == 2 {
                            2
                        } else if attempts == 3 {
                            5
                        } else {
                            10
                        }
                    }
            },
{
}

} // verus!
