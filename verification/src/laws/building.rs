//! How channels are built.
use vstd::prelude::*;

use crate::laws::messages::same_text;
use crate::message::payload::{
    BroadcastConfig, PostgresChange, PostgresChangesEvent, PresenceConfig,
};
use crate::message::presence::PresenceEvent;
use crate::message::PostgresChangeFilter;
use crate::realtime_channel::{
    announced, rejoin_requests, ChannelManagerMessage, ChannelState, RealtimeChannel,
    RealtimeChannelBuilder, SocketTx,
};
use crate::string_map::Deep;

verus! {

/// Whether nothing was said of a channel but its name.
pub open spec fn says_only<K, B, P>(
    builder: RealtimeChannelBuilder<K, B, P>,
    name: Seq<char>,
) -> bool {
    &&& builder.topic@ == "realtime:"@ + name
    &&& !builder.broadcast.broadcast_self
    &&& !builder.broadcast.ack
    &&& builder.presence.key is None
    &&& builder.postgres_changes@.len() == 0
    &&& builder.cdc_callbacks@.len() == 0
    &&& builder.broadcast_callbacks@.len() == 0
    &&& builder.presence_callbacks@.len() == 0
}

/// A new builder is for the channel of the given name, under a fresh identifier
/// or the one that it is given, and has nothing else.
pub proof fn new_channel_has_a_name<K, B, P>(
    name: String,
    id: String,
    fresh: RealtimeChannelBuilder<K, B, P>,
    named: RealtimeChannelBuilder<K, B, P>,
)
    requires
        call_ensures(RealtimeChannelBuilder::<K, B, P>::new, (name,), fresh),
        call_ensures(RealtimeChannelBuilder::<K, B, P>::with_id, (name, id), named),
    ensures
        says_only(fresh, name@),
        says_only(named, name@),
        fresh.id@.len() == 36,
        fresh.id@[8] == '-' && fresh.id@[13] == '-' && fresh.id@[18] == '-' && fresh.id@[23] == '-',
        named.id == id,
{
}

/// Each setting of a builder is the one that was given last, and no setting
/// touches another one.
pub proof fn channel_settings_are_kept<K, B, P>(
    builder: RealtimeChannelBuilder<K, B, P>,
    name: String,
    renamed: RealtimeChannelBuilder<K, B, P>,
    broadcast: BroadcastConfig,
    with_broadcast: RealtimeChannelBuilder<K, B, P>,
    presence: PresenceConfig,
    with_presence: RealtimeChannelBuilder<K, B, P>,
)
    requires
        call_ensures(RealtimeChannelBuilder::<K, B, P>::topic, (builder, name), renamed),
        call_ensures(
            RealtimeChannelBuilder::<K, B, P>::broadcast,
            (builder, broadcast),
            with_broadcast,
        ),
        call_ensures(
            RealtimeChannelBuilder::<K, B, P>::presence,
            (builder, presence),
            with_presence,
        ),
    ensures
        renamed.topic@ == "realtime:"@ + name@,
        renamed == (RealtimeChannelBuilder { topic: renamed.topic, ..builder }),
        with_broadcast == (RealtimeChannelBuilder { broadcast, ..builder }),
        with_presence == (RealtimeChannelBuilder { presence, ..builder }),
{
}

/// Whether a change is announced as a callback was registered: for its kind, its
/// schema, its table, where none is written as an empty text, and its rows.
pub open spec fn announces_callback(
    change: PostgresChange,
    event: PostgresChangesEvent,
    filter: PostgresChangeFilter,
) -> bool {
    &&& change.event == event
    &&& change.schema@ == filter.schema@
    &&& match filter.table {
        Some(table) => change.table@ == table@,
        None => change.table@.len() == 0,
    }
    &&& same_text(change.filter, filter.filter)
}

/// A callback for postgres changes is registered behind those that were there,
/// and announced behind those that were.
pub proof fn change_callback_is_added<K, B, P>(
    builder: RealtimeChannelBuilder<K, B, P>,
    event: PostgresChangesEvent,
    filter: PostgresChangeFilter,
    callback: K,
    made: RealtimeChannelBuilder<K, B, P>,
    i: int,
)
    requires
        call_ensures(
            RealtimeChannelBuilder::<K, B, P>::on_postgres_change,
            (builder, event, filter, callback),
            made,
        ),
    ensures
        made == (RealtimeChannelBuilder {
            postgres_changes: made.postgres_changes,
            cdc_callbacks: made.cdc_callbacks,
            ..builder
        }),
        made.cdc_callbacks@ == builder.cdc_callbacks@.push((event, filter, callback)),
        made.postgres_changes@.len() == builder.postgres_changes@.len() + 1,
        announces_callback(made.postgres_changes@.last(), event, filter),
        0 <= i < builder.postgres_changes@.len() ==> {
            let was = builder.postgres_changes@[i];
            let now = made.postgres_changes@[i];
            &&& now.event == was.event
            &&& now.schema@ == was.schema@
            &&& now.table@ == was.table@
            &&& same_text(now.filter, was.filter)
        },
{
    let was = builder.postgres_changes;
    let now = made.postgres_changes;
    assert(now.model().len() == now@.len());
    assert(was.model().len() == was@.len());
    assert(now.model()[was@.len() as int] == now@.last().model());
    assert(now.model()[was@.len() as int] == announced((event, filter, callback)));
    if 0 <= i < was@.len() {
        assert(now.model()[i] == now@[i].model());
        assert(was.model()[i] == was@[i].model());
    }
}

/// Presence callbacks and broadcast callbacks are registered behind those that
/// were there.
pub proof fn callbacks_are_added<K, B, P>(
    builder: RealtimeChannelBuilder<K, B, P>,
    presence_event: PresenceEvent,
    presence_callback: P,
    with_presence: RealtimeChannelBuilder<K, B, P>,
    broadcast_event: String,
    broadcast_callback: B,
    with_broadcast: RealtimeChannelBuilder<K, B, P>,
)
    requires
        call_ensures(
            RealtimeChannelBuilder::<K, B, P>::on_presence,
            (builder, presence_event, presence_callback),
            with_presence,
        ),
        call_ensures(
            RealtimeChannelBuilder::<K, B, P>::on_broadcast,
            (builder, broadcast_event, broadcast_callback),
            with_broadcast,
        ),
    ensures
        with_presence.presence_callbacks@ == builder.presence_callbacks@.push(
            (presence_event, presence_callback),
        ),
        with_presence == (RealtimeChannelBuilder {
            presence_callbacks: with_presence.presence_callbacks,
            ..builder
        }),
        with_broadcast.broadcast_callbacks@ == builder.broadcast_callbacks@.push(
            (broadcast_event, broadcast_callback),
        ),
        with_broadcast == (RealtimeChannelBuilder {
            broadcast_callbacks: with_broadcast.broadcast_callbacks,
            ..builder
        }),
{
}

/// Whether a channel has all that was said of it: it is closed and listening,
/// nobody is present, and it has the settings, the callbacks, the socket and the
/// token that it was given.
pub open spec fn has_all<K, B, P>(
    channel: RealtimeChannel<K, B, P>,
    builder: RealtimeChannelBuilder<K, B, P>,
    client_tx: SocketTx,
    access_token: Seq<char>,
) -> bool {
    &&& channel.topic == builder.topic
    &&& channel.id == builder.id
    &&& channel.state == ChannelState::Closed
    &&& channel.listening
    &&& channel.client_tx == client_tx
    &&& channel.cdc_callbacks == builder.cdc_callbacks
    &&& channel.broadcast_callbacks == builder.broadcast_callbacks
    &&& channel.presence.callbacks == builder.presence_callbacks
    &&& forall|id: Seq<char>| !#[trigger] channel.presence.state.0@.contains_key(id)
    &&& channel.join_payload.access_token@ == access_token
    &&& channel.join_payload.config.broadcast == builder.broadcast
    &&& channel.join_payload.config.presence == builder.presence
    &&& channel.join_payload.config.postgres_changes == builder.postgres_changes
}

pub(crate) proof fn lemma_has_all<K, B, P>(
    channel: RealtimeChannel<K, B, P>,
    builder: RealtimeChannelBuilder<K, B, P>,
    client_tx: SocketTx,
    access_token: Seq<char>,
)
    requires
        builder.makes(channel, client_tx, access_token),
    ensures
        has_all(channel, builder, client_tx, access_token),
{
    let state = channel.presence.state;
    assert forall|id: Seq<char>| !#[trigger] state.0@.contains_key(id) by {
        assert(state.model().contains_key(id) == state.0@.contains_key(id));
    }
}

/// A channel has all that was said of it when it was built.
pub proof fn built_channel_has_all<K, B, P>(
    builder: RealtimeChannelBuilder<K, B, P>,
    client_tx: SocketTx,
    access_token: String,
    channel: RealtimeChannel<K, B, P>,
)
    requires
        call_ensures(
            RealtimeChannelBuilder::<K, B, P>::build_common,
            (builder, client_tx, access_token),
            channel,
        ),
    ensures
        has_all(channel, builder, client_tx, access_token@),
{
    lemma_has_all(channel, builder, client_tx, access_token@);
}

/// A channel that was built step by step announces, for each of its callbacks
/// for postgres changes, exactly what that callback was registered for.
pub proof fn built_channel_announces_its_callbacks<K, B, P>(
    name: String,
    fresh: RealtimeChannelBuilder<K, B, P>,
    event: PostgresChangesEvent,
    filter: PostgresChangeFilter,
    callback: K,
    one: RealtimeChannelBuilder<K, B, P>,
    other_event: PostgresChangesEvent,
    other_filter: PostgresChangeFilter,
    other_callback: K,
    two: RealtimeChannelBuilder<K, B, P>,
    client_tx: SocketTx,
    access_token: String,
    channel: RealtimeChannel<K, B, P>,
)
    requires
        call_ensures(RealtimeChannelBuilder::<K, B, P>::new, (name,), fresh),
        call_ensures(
            RealtimeChannelBuilder::<K, B, P>::on_postgres_change,
            (fresh, event, filter, callback),
            one,
        ),
        call_ensures(
            RealtimeChannelBuilder::<K, B, P>::on_postgres_change,
            (one, other_event, other_filter, other_callback),
            two,
        ),
        call_ensures(
            RealtimeChannelBuilder::<K, B, P>::build_common,
            (two, client_tx, access_token),
            channel,
        ),
    ensures
        channel.cdc_callbacks@ == seq![
            (event, filter, callback),
            (other_event, other_filter, other_callback),
        ],
        channel.join_payload.config.postgres_changes@.len() == 2,
        announces_callback(channel.join_payload.config.postgres_changes@[0], event, filter),
        announces_callback(
            channel.join_payload.config.postgres_changes@[1],
            other_event,
            other_filter,
        ),
{
    change_callback_is_added(fresh, event, filter, callback, one, 0);
    change_callback_is_added(one, other_event, other_filter, other_callback, two, 0);
    assert(one.postgres_changes@.last() == one.postgres_changes@[0]);
    assert(two.postgres_changes@.last() == two.postgres_changes@[1]);
}

/// With a new connection a channel is first to take over the new way to the
/// socket and then to join, and nothing else.
pub proof fn new_connection_asks_twice(new_tx: SocketTx, requests: Vec<ChannelManagerMessage>)
    requires
        call_ensures(rejoin_requests, (new_tx,), requests),
    ensures
        requests@.len() == 2,
        requests@[0] == (ChannelManagerMessage::ClientTx { new_tx }),
        requests@[1] is Subscribe,
{
}

} // verus!
