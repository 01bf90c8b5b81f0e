//! What the operations can be given.
use tungstenite::http::HeaderMap;
use vstd::prelude::*;

use crate::duration::Duration;
use crate::message::cdc_message_filter::CdcMessageFilter;
use crate::message::message_filter::MessageFilter;
use crate::message::payload::{BroadcastPayload, PostgresChangesEvent};
use crate::message::presence::{
    PhxMap, PresenceDiff, PresenceEvent, PresenceState, RawPresenceDiff, RawPresenceState,
    StateData,
};
use crate::message::{PostgresChangeFilter, RealtimeMessage};
use crate::realtime_channel::{
    ChannelManager, ChannelManagerMessage, RealtimeChannel, RealtimeChannelBuilder, SendPurpose,
    SocketTx,
};
use crate::realtime_client::{
    backoff, ChannelLook, ClientManagerMessage, RealtimeClient, RealtimeClientBuilder,
};
use crate::realtime_presence::RealtimePresence;
use crate::request::{build_request, socket_target};
use crate::string_map::StringMap;
use crate::sync;
use crate::uri::UriParts;

verus! {

/// A map can be given every key and every value, and asked for every key and for
/// every place that it has.
pub proof fn maps_take_everything<V>(
    map: &mut StringMap<V>,
    key: String,
    value: V,
    more: StringMap<V>,
    count: usize,
    i: usize,
)
    requires
        call_ensures(StringMap::<V>::len, (&*old(map),), count),
        i < count,
    ensures
        call_requires(StringMap::<V>::insert, (map, key, value)),
        call_requires(StringMap::<V>::remove, (map, &key)),
        call_requires(StringMap::<V>::extend, (map, more)),
        call_requires(StringMap::<V>::get, (&*old(map), &key)),
        call_requires(StringMap::<V>::contains_key, (&*old(map), &key)),
        call_requires(StringMap::<V>::key_at, (&*old(map), i)),
        call_requires(StringMap::<V>::value_at, (&*old(map), i)),
        call_requires(StringMap::<V>::into_entries, (more,)),
{
}

/// Every filter can be given every message.
pub proof fn filters_take_every_message(
    changes: PostgresChangeFilter,
    cdc: CdcMessageFilter,
    messages: MessageFilter,
    message: RealtimeMessage,
)
    ensures
        call_requires(PostgresChangeFilter::check, (&changes, &message)),
        call_requires(CdcMessageFilter::check, (&cdc, message)),
        call_requires(MessageFilter::check, (messages, message)),
{
}

/// Presence takes in every state and every change.
pub proof fn presence_takes_everything<P>(
    presence: &mut RealtimePresence<P>,
    state: PresenceState,
    diff: PresenceDiff,
    raw_state: RawPresenceState,
    raw_diff: RawPresenceDiff,
    items: Vec<(String, PhxMap)>,
)
    ensures
        call_requires(RealtimePresence::<P>::sync, (presence, state)),
        call_requires(RealtimePresence::<P>::sync_diff, (presence, diff)),
        call_requires(<PresenceState as From<RawPresenceState>>::from, (raw_state,)),
        call_requires(<PresenceDiff as From<RawPresenceDiff>>::from, (raw_diff,)),
        call_requires(PresenceState::from_iter, (items,)),
        call_requires(PresenceState::get_phx_map, (&state,)),
{
}

/// A channel in any state can be asked for anything, told of any sending and sent
/// any message.
pub proof fn channels_take_everything<K, B, P>(
    channel: &mut RealtimeChannel<K, B, P>,
    request: ChannelManagerMessage,
    purpose: SendPurpose,
    outcome: Result<(), RealtimeMessage>,
    message: RealtimeMessage,
    payload: BroadcastPayload,
    data: StateData,
    access_token: String,
)
    ensures
        call_requires(RealtimeChannel::<K, B, P>::manager_recv, (channel, request)),
        call_requires(RealtimeChannel::<K, B, P>::sent, (channel, purpose, outcome)),
        call_requires(RealtimeChannel::<K, B, P>::client_recv, (channel, message)),
        call_requires(RealtimeChannel::<K, B, P>::subscribe, (channel,)),
        call_requires(RealtimeChannel::<K, B, P>::left, (channel, outcome)),
        call_requires(RealtimeChannel::<K, B, P>::reauth, (channel, access_token)),
        call_requires(RealtimeChannel::<K, B, P>::unsubscribe, (&*old(channel),)),
        call_requires(RealtimeChannel::<K, B, P>::send, (&*old(channel), message)),
        call_requires(RealtimeChannel::<K, B, P>::broadcast, (&*old(channel), payload)),
        call_requires(RealtimeChannel::<K, B, P>::track, (&*old(channel), data)),
        call_requires(RealtimeChannel::<K, B, P>::untrack, (&*old(channel),)),
{
}

/// So can a channel of the client with middleware.
pub proof fn sync_channels_take_everything<K, B, P>(
    channel: &mut sync::RealtimeChannel<K, B, P>,
    request: sync::ChannelManagerMessage,
    purpose: SendPurpose,
    outcome: Result<(), RealtimeMessage>,
    message: RealtimeMessage,
    payload: BroadcastPayload,
    data: StateData,
    access_token: String,
)
    ensures
        call_requires(sync::RealtimeChannel::<K, B, P>::manager_recv, (channel, request)),
        call_requires(sync::RealtimeChannel::<K, B, P>::client_recv, (channel, message)),
        call_requires(sync::RealtimeChannel::<K, B, P>::subscribe, (channel,)),
        call_requires(sync::RealtimeChannel::<K, B, P>::left, (channel, outcome)),
        call_requires(sync::RealtimeChannel::<K, B, P>::set_auth, (channel, access_token)),
        call_requires(sync::RealtimeChannel::<K, B, P>::sent, (&*old(channel), purpose)),
        call_requires(sync::RealtimeChannel::<K, B, P>::unsubscribe, (&*old(channel),)),
        call_requires(sync::RealtimeChannel::<K, B, P>::send, (&*old(channel), message)),
        call_requires(sync::RealtimeChannel::<K, B, P>::broadcast, (&*old(channel), payload)),
        call_requires(sync::RealtimeChannel::<K, B, P>::track, (&*old(channel), data)),
        call_requires(sync::RealtimeChannel::<K, B, P>::untrack, (&*old(channel),)),
{
}

/// A channel can be built with any settings and any callbacks.
pub proof fn channel_builders_take_everything<K, B, P>(
    builder: RealtimeChannelBuilder<K, B, P>,
    name: String,
    id: String,
    kind: PostgresChangesEvent,
    filter: PostgresChangeFilter,
    change_callback: K,
    broadcast_callback: B,
    event: PresenceEvent,
    presence_callback: P,
    client_tx: SocketTx,
)
    ensures
        call_requires(RealtimeChannelBuilder::<K, B, P>::new, (name,)),
        call_requires(RealtimeChannelBuilder::<K, B, P>::with_id, (name, id)),
        call_requires(RealtimeChannelBuilder::<K, B, P>::topic, (builder, name)),
        call_requires(
            RealtimeChannelBuilder::<K, B, P>::on_postgres_change,
            (builder, kind, filter, change_callback),
        ),
        call_requires(
            RealtimeChannelBuilder::<K, B, P>::on_broadcast,
            (builder, name, broadcast_callback),
        ),
        call_requires(
            RealtimeChannelBuilder::<K, B, P>::on_presence,
            (builder, event, presence_callback),
        ),
        call_requires(
            RealtimeChannelBuilder::<K, B, P>::build_common,
            (builder, client_tx, name),
        ),
{
}

/// A client can be asked for anything, but for its way to the socket before it
/// had one.
pub proof fn clients_take_every_request<R, E, D>(
    client: &mut RealtimeClient<R, E, D>,
    request: ClientManagerMessage,
    ws_tx: SocketTx,
    manager: ChannelManager,
)
    requires
        request is GetWsTx ==> old(client).ws_tx is Some,
    ensures
        call_requires(RealtimeClient::<R, E, D>::manager_recv, (client, request)),
        call_requires(RealtimeClient::<R, E, D>::connected, (client, ws_tx)),
        call_requires(RealtimeClient::<R, E, D>::add_channel, (client, manager)),
        call_requires(RealtimeClient::<R, E, D>::frame_failed, (client,)),
        call_requires(RealtimeClient::<R, E, D>::stream_ended, (client,)),
        call_requires(RealtimeClient::<R, E, D>::build_request, (&*old(client),)),
{
}

/// A client with a reconnect function that answers every count takes in every
/// attempt but one after more failures than can be counted.
pub proof fn clients_take_every_attempt<R: Fn(usize) -> Duration, E, D>(
    client: &mut RealtimeClient<R, E, D>,
    failed_before: usize,
    outcome: Option<SocketTx>,
)
    requires
        failed_before < usize::MAX,
        forall|failures: usize| #[trigger]
            call_requires(*old(client).reconnect_interval.0, (failures,)),
    ensures
        call_requires(RealtimeClient::<R, E, D>::connect_ws, (client, failed_before, outcome)),
        call_requires(
            RealtimeClient::<R, E, D>::connection_failed,
            (&*old(client), failed_before),
        ),
{
}

/// A client without a decoder, or with one that takes every message, takes in
/// every message, with a look at each of its channels.
pub proof fn clients_take_every_message<R, E, D: Fn(RealtimeMessage) -> RealtimeMessage>(
    client: &mut RealtimeClient<R, E, D>,
    message: RealtimeMessage,
    looks: Vec<ChannelLook>,
)
    requires
        looks@.len() == old(client).channels@.len(),
        old(client).decode matches Some(decode) ==> forall|any: RealtimeMessage| #[trigger]
            call_requires(decode, (any,)),
    ensures
        call_requires(RealtimeClient::<R, E, D>::receive, (client, message, &looks)),
{
}

/// A request can be tried with any endpoint, token, params and headers, and
/// headers can be tried on any builder.
pub proof fn requests_are_tried_with_everything<R, E, D>(
    endpoint: String,
    access_token: String,
    params: Option<StringMap<String>>,
    given: HeaderMap,
    parts: UriParts,
    builder: RealtimeClientBuilder<R, E, D>,
    attempts: usize,
)
    ensures
        call_requires(build_request, (&endpoint, &access_token, &params, &given)),
        call_requires(socket_target, (parts, &params)),
        call_requires(RealtimeClientBuilder::<R, E, D>::checked_set_headers, (builder, given)),
        call_requires(RealtimeClientBuilder::<R, E, D>::checked_add_headers, (builder, given)),
        call_requires(RealtimeClientBuilder::<R, E, D>::connect, (builder,)),
        call_requires(backoff, (attempts,)),
{
}

} // verus!
