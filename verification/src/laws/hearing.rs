//! What channels make of what the server sends.
use vstd::prelude::*;

use crate::laws::lemma_places_increase;
use crate::laws::presence::{
    comes_before, heard_event, hearing_order, is_emptied, is_state_of, is_without,
    lemma_change_call, lemma_change_order, lemma_emptied, lemma_model_of, lemma_raw_model,
    lemma_refs_of, lemma_same_refs, lemma_same_state, lemma_state_call, lemma_state_of,
    lemma_state_order, lemma_state_tells, lemma_told_joined, lemma_told_left, lemma_without,
    refs_of, same_refs, same_state,
};
use crate::message::payload::{
    BroadcastPayload, JoinResponsePayload, Payload, PayloadStatus, PostgresChangesEvent,
    PostgresChangesPayload,
};
use crate::message::presence::{
    raw_model, PresenceEvent, RawPresenceDiff, RawPresenceState,
};
use crate::message::RealtimeMessage;
use crate::places::{as_places, chosen_places};
use crate::realtime_channel::{ChannelReaction, ChannelState, RealtimeChannel};
use crate::realtime_presence::PresenceCall;
use crate::sync;

verus! {

/// Whether a place is among those that are listed.
pub open spec fn lists(callbacks: Seq<usize>, place: int) -> bool {
    exists|i: int| 0 <= i < callbacks.len() && #[trigger] callbacks[i] == place
}

/// Whether places stand in their order.
pub open spec fn rising(callbacks: Seq<usize>) -> bool {
    forall|i: int, j: int|
        0 <= i < j < callbacks.len() ==> #[trigger] callbacks[i] < #[trigger] callbacks[j]
}

proof fn lemma_lists(callbacks: Seq<usize>, place: int)
    ensures
        lists(callbacks, place) <==> as_places(callbacks).contains(place),
{
    if lists(callbacks, place) {
        let i = choose|i: int| 0 <= i < callbacks.len() && #[trigger] callbacks[i] == place;
        assert(as_places(callbacks)[i] == place);
    }
    if as_places(callbacks).contains(place) {
        let i = as_places(callbacks).index_of(place);
        assert(callbacks[i] == place);
    }
}

/// Whether the ids in what a channel hears of presence, and those that were
/// present, stand in their order, each of them once.
pub open spec fn in_order<K, B, P>(
    before: RealtimeChannel<K, B, P>,
    message: RealtimeMessage,
) -> bool {
    before.listening ==> match message.payload {
        Payload::PresenceDiff(diff) => diff.joins.ordered() && diff.leaves.ordered(),
        Payload::PresenceState(state) => state.ordered() && before.presence.state.0.ordered(),
        _ => true,
    }
}

/// Whether a channel made nothing of what it heard.
pub open spec fn stays_deaf<K, B, P>(
    before: RealtimeChannel<K, B, P>,
    after: RealtimeChannel<K, B, P>,
    reaction: ChannelReaction,
) -> bool {
    &&& after == before
    &&& reaction is Unheard
}

proof fn lemma_deaf_channel_stays<K, B, P>(
    before: RealtimeChannel<K, B, P>,
    after: RealtimeChannel<K, B, P>,
    message: RealtimeMessage,
    reaction: ChannelReaction,
)
    requires
        RealtimeChannel::heard(before, after, message, reaction),
        in_order(before, message),
        !before.listening,
    ensures
        stays_deaf(before, after, reaction),
{
}

/// A channel that no longer listens makes nothing of any message.
pub proof fn deaf_channel_stays<K, B, P>(
    channel: &mut RealtimeChannel<K, B, P>,
    message: RealtimeMessage,
    reaction: ChannelReaction,
)
    requires
        call_ensures(RealtimeChannel::<K, B, P>::client_recv, (channel, message), reaction),
        !old(channel).listening,
    ensures
        stays_deaf(*old(channel), *final(channel), reaction),
{
    lemma_deaf_channel_stays(*old(channel), *final(channel), message, reaction);
}

/// The same of a channel of the client with middleware.
///
/// A channel that no longer listens makes nothing of any message.
pub proof fn deaf_sync_channel_stays<K, B, P>(
    channel: &mut sync::RealtimeChannel<K, B, P>,
    message: RealtimeMessage,
    reaction: ChannelReaction,
)
    requires
        call_ensures(sync::RealtimeChannel::<K, B, P>::client_recv, (channel, message), reaction),
        !old(channel).channel.listening,
    ensures
        stays_deaf(old(channel).channel, final(channel).channel, reaction),
{
    lemma_deaf_channel_stays(
        old(channel).channel,
        final(channel).channel,
        message,
        reaction,
    );
}

/// Whether a channel handed a broadcast on to the right callbacks.
pub open spec fn hands_on_broadcast<K, B, P>(
    before: RealtimeChannel<K, B, P>,
    after: RealtimeChannel<K, B, P>,
    payload: BroadcastPayload,
    reaction: ChannelReaction,
    place: int,
) -> bool {
    &&& after == before
    &&& reaction matches ChannelReaction::Broadcast { callbacks, data } && {
        &&& data == payload.payload
        &&& rising(callbacks@)
        &&& lists(callbacks@, place) <==> 0 <= place < before.broadcast_callbacks@.len()
            && before.broadcast_callbacks@[place].0@ == payload.event@
    }
}

proof fn lemma_broadcast_is_heard<K, B, P>(
    before: RealtimeChannel<K, B, P>,
    after: RealtimeChannel<K, B, P>,
    message: RealtimeMessage,
    payload: BroadcastPayload,
    reaction: ChannelReaction,
    place: int,
)
    requires
        RealtimeChannel::heard(before, after, message, reaction),
        in_order(before, message),
        before.listening,
        message.payload == Payload::Broadcast(payload),
    ensures
        hands_on_broadcast(before, after, payload, reaction, place),
{
    let n = before.broadcast_callbacks@.len() as int;
    let hears = before.hears_broadcast(payload.event@);
    let callbacks = reaction->Broadcast_callbacks@;
    chosen_places(n, hears, place);
    lemma_places_increase(n, hears);
    lemma_lists(callbacks, place);
    assert forall|i: int, j: int| 0 <= i < j < callbacks.len() implies #[trigger] callbacks[i]
        < #[trigger] callbacks[j] by {
        assert(as_places(callbacks)[i] < as_places(callbacks)[j]);
    }
}

/// A broadcast goes, with its data, to exactly the callbacks that were
/// registered for its event, in the order in which they were registered, and
/// changes nothing.
pub proof fn broadcast_is_heard<K, B, P>(
    channel: &mut RealtimeChannel<K, B, P>,
    message: RealtimeMessage,
    payload: BroadcastPayload,
    reaction: ChannelReaction,
    place: int,
)
    requires
        call_ensures(RealtimeChannel::<K, B, P>::client_recv, (channel, message), reaction),
        old(channel).listening,
        message.payload == Payload::Broadcast(payload),
    ensures
        hands_on_broadcast(*old(channel), *final(channel), payload, reaction, place),
{
    lemma_broadcast_is_heard(*old(channel), *final(channel), message, payload, reaction, place);
}

/// The same of a channel of the client with middleware.
///
/// A broadcast goes, with its data, to exactly the callbacks that were
/// registered for its event, in the order in which they were registered, and
/// changes nothing.
pub proof fn sync_broadcast_is_heard<K, B, P>(
    channel: &mut sync::RealtimeChannel<K, B, P>,
    message: RealtimeMessage,
    payload: BroadcastPayload,
    reaction: ChannelReaction,
    place: int,
)
    requires
        call_ensures(sync::RealtimeChannel::<K, B, P>::client_recv, (channel, message), reaction),
        old(channel).channel.listening,
        message.payload == Payload::Broadcast(payload),
    ensures
        hands_on_broadcast(
            old(channel).channel,
            final(channel).channel,
            payload,
            reaction,
            place,
        ),
{
    lemma_broadcast_is_heard(
        old(channel).channel,
        final(channel).channel,
        message,
        payload,
        reaction,
        place,
    );
}

/// Whether a callback that was registered for a kind of change with a filter is
/// to hear of a change.
pub open spec fn wants_change<K, B, P>(
    channel: RealtimeChannel<K, B, P>,
    place: int,
    change: PostgresChangesPayload,
) -> bool {
    let (kind, filter, _) = channel.cdc_callbacks@[place];
    &&& 0 <= place < channel.cdc_callbacks@.len()
    &&& kind == change.data.change_type || kind == PostgresChangesEvent::All
    &&& filter.schema@ == change.data.schema@
    &&& match filter.table {
        Some(table) => table@ == change.data.table@,
        None => true,
    }
}

/// Whether a channel handed a change on to the right callbacks.
pub open spec fn hands_on_change<K, B, P>(
    before: RealtimeChannel<K, B, P>,
    after: RealtimeChannel<K, B, P>,
    payload: PostgresChangesPayload,
    reaction: ChannelReaction,
    place: int,
) -> bool {
    &&& after == before
    &&& reaction matches ChannelReaction::PostgresChanges { callbacks, change } && {
        &&& change == payload
        &&& lists(callbacks@, place) <==> wants_change(before, place, payload)
        &&& payload.data.change_type != PostgresChangesEvent::All ==> forall|i: int, j: int|
            0 <= i < j < callbacks@.len() ==> {
                let first = before.cdc_callbacks@[#[trigger] callbacks@[i] as int].0;
                let second = before.cdc_callbacks@[#[trigger] callbacks@[j] as int].0;
                ||| first == second && callbacks@[i] < callbacks@[j]
                ||| first != second && second == PostgresChangesEvent::All
            }
        &&& payload.data.change_type == PostgresChangesEvent::All ==> exists|once: Seq<usize>|
            #[trigger] rising(once) && callbacks@ == once + once
    }
}

proof fn lemma_change_is_heard<K, B, P>(
    before: RealtimeChannel<K, B, P>,
    after: RealtimeChannel<K, B, P>,
    message: RealtimeMessage,
    payload: PostgresChangesPayload,
    reaction: ChannelReaction,
    place: int,
)
    requires
        RealtimeChannel::heard(before, after, message, reaction),
        in_order(before, message),
        before.listening,
        message.payload == Payload::PostgresChanges(payload),
    ensures
        hands_on_change(before, after, payload, reaction, place),
{
    let before = before;
    let kind = payload.data.change_type;
    let all = PostgresChangesEvent::All;
    let n = before.cdc_callbacks@.len() as int;
    let callbacks = reaction->PostgresChanges_callbacks@;
    let first = before.change_places(kind, message);
    let second = before.change_places(all, message);
    chosen_places(n, before.hears_change(kind, message), place);
    chosen_places(n, before.hears_change(all, message), place);
    lemma_places_increase(n, before.hears_change(kind, message));
    lemma_places_increase(n, before.hears_change(all, message));
    lemma_lists(callbacks, place);
    assert(as_places(callbacks) == first + second);
    if first.contains(place) {
        assert((first + second)[first.index_of(place)] == place);
    }
    if second.contains(place) {
        assert((first + second)[first.len() + second.index_of(place)] == place);
    }
    if (first + second).contains(place) {
        let i = (first + second).index_of(place);
        if i < first.len() {
            assert(first[i] == place);
        } else {
            assert(second[i - first.len()] == place);
        }
    }
    assert forall|i: int| 0 <= i < callbacks.len() implies #[trigger] callbacks[i] == (if i
        < first.len() {
        first[i]
    } else {
        second[i - first.len()]
    }) by {
        assert(as_places(callbacks)[i] == callbacks[i]);
    }
    assert(callbacks.len() == first.len() + second.len()) by {
        assert(as_places(callbacks).len() == callbacks.len());
    }
    if kind == all {
        let once = callbacks.take(first.len() as int);
        assert forall|i: int, j: int| 0 <= i < j < once.len() implies #[trigger] once[i]
            < #[trigger] once[j] by {
            assert(first[i] < first[j]);
            assert(once[i] == callbacks[i] && once[j] == callbacks[j]);
        }
        assert(rising(once));
        assert(callbacks =~= once + once);
    } else {
        assert forall|i: int, j: int| 0 <= i < j < callbacks.len() implies {
            let one = before.cdc_callbacks@[#[trigger] callbacks[i] as int].0;
            let two = before.cdc_callbacks@[#[trigger] callbacks[j] as int].0;
            ||| one == two && callbacks[i] < callbacks[j]
            ||| one != two && two == all
        } by {
            if j < first.len() {
                assert(first[i] < first[j]);
            } else if i >= first.len() {
                assert(second[i - first.len()] < second[j - first.len()]);
            }
        }
    }
}

/// A change goes as it is to exactly the callbacks for its kind or for all kinds
/// whose filter names its schema and, if it names a table, its table: first
/// to those for its kind, then to those for all kinds, each of them in the order
/// in which they were registered. It changes nothing.
pub proof fn change_is_heard<K, B, P>(
    channel: &mut RealtimeChannel<K, B, P>,
    message: RealtimeMessage,
    payload: PostgresChangesPayload,
    reaction: ChannelReaction,
    place: int,
)
    requires
        call_ensures(RealtimeChannel::<K, B, P>::client_recv, (channel, message), reaction),
        old(channel).listening,
        message.payload == Payload::PostgresChanges(payload),
    ensures
        hands_on_change(*old(channel), *final(channel), payload, reaction, place),
{
    lemma_change_is_heard(*old(channel), *final(channel), message, payload, reaction, place);
}

/// The same of a channel of the client with middleware.
///
/// A change goes as it is to exactly the callbacks for its kind or for all kinds
/// whose filter names its schema and, if it names a table, its table: first
/// to those for its kind, then to those for all kinds, each of them in the order
/// in which they were registered. It changes nothing.
pub proof fn sync_change_is_heard<K, B, P>(
    channel: &mut sync::RealtimeChannel<K, B, P>,
    message: RealtimeMessage,
    payload: PostgresChangesPayload,
    reaction: ChannelReaction,
    place: int,
)
    requires
        call_ensures(sync::RealtimeChannel::<K, B, P>::client_recv, (channel, message), reaction),
        old(channel).channel.listening,
        message.payload == Payload::PostgresChanges(payload),
    ensures
        hands_on_change(
            old(channel).channel,
            final(channel).channel,
            payload,
            reaction,
            place,
        ),
{
    lemma_change_is_heard(
        old(channel).channel,
        final(channel).channel,
        message,
        payload,
        reaction,
        place,
    );
}

/// Whether a channel took in a reply.
pub open spec fn takes_reply<K, B, P>(
    before: RealtimeChannel<K, B, P>,
    after: RealtimeChannel<K, B, P>,
    message: RealtimeMessage,
    response: JoinResponsePayload,
    reaction: ChannelReaction,
) -> bool {
    &&& ({
        let own = match message.message_ref {
            Some(text) => text@ == before.id@,
            None => before.id@.len() == 0,
        };
        &&& !own ==> reaction is Stopped && after == (RealtimeChannel {
            listening: false,
            ..before
        })
        &&& own ==> reaction is JoinReply
        &&& own && response.status == PayloadStatus::Success ==> after == (
        RealtimeChannel { state: ChannelState::Joined, ..before })
        &&& own && response.status == PayloadStatus::Error ==> after == before
    })
}

proof fn lemma_reply_is_heard<K, B, P>(
    before: RealtimeChannel<K, B, P>,
    after: RealtimeChannel<K, B, P>,
    message: RealtimeMessage,
    response: JoinResponsePayload,
    reaction: ChannelReaction,
)
    requires
        RealtimeChannel::heard(before, after, message, reaction),
        in_order(before, message),
        before.listening,
        message.payload == Payload::Response(response),
    ensures
        takes_reply(before, after, message, response, reaction),
{
    if message.message_ref is None && before.id@.len() == 0 {
        assert(before.id@ =~= Seq::<char>::empty());
    }
}

/// The reply to a channel's own join request has it joined if the server let
/// it; if not, the channel stays as it was. The reply to anything else ends its
/// listening.
pub proof fn reply_is_heard<K, B, P>(
    channel: &mut RealtimeChannel<K, B, P>,
    message: RealtimeMessage,
    response: JoinResponsePayload,
    reaction: ChannelReaction,
)
    requires
        call_ensures(RealtimeChannel::<K, B, P>::client_recv, (channel, message), reaction),
        old(channel).listening,
        message.payload == Payload::Response(response),
    ensures
        takes_reply(*old(channel), *final(channel), message, response, reaction),
{
    lemma_reply_is_heard(*old(channel), *final(channel), message, response, reaction);
}

/// The same of a channel of the client with middleware.
///
/// The reply to a channel's own join request has it joined if the server let
/// it; if not, the channel stays as it was. The reply to anything else ends its
/// listening.
pub proof fn sync_reply_is_heard<K, B, P>(
    channel: &mut sync::RealtimeChannel<K, B, P>,
    message: RealtimeMessage,
    response: JoinResponsePayload,
    reaction: ChannelReaction,
)
    requires
        call_ensures(sync::RealtimeChannel::<K, B, P>::client_recv, (channel, message), reaction),
        old(channel).channel.listening,
        message.payload == Payload::Response(response),
    ensures
        takes_reply(
            old(channel).channel,
            final(channel).channel,
            message,
            response,
            reaction,
        ),
{
    lemma_reply_is_heard(
        old(channel).channel,
        final(channel).channel,
        message,
        response,
        reaction,
    );
}

/// Whether a channel had no use for what it heard.
pub open spec fn has_no_use<K, B, P>(
    before: RealtimeChannel<K, B, P>,
    after: RealtimeChannel<K, B, P>,
    reaction: ChannelReaction,
) -> bool {
    &&& after == before
    &&& reaction is Unmatched
}

proof fn lemma_other_messages_are_unmatched<K, B, P>(
    before: RealtimeChannel<K, B, P>,
    after: RealtimeChannel<K, B, P>,
    message: RealtimeMessage,
    reaction: ChannelReaction,
)
    requires
        RealtimeChannel::heard(before, after, message, reaction),
        in_order(before, message),
        before.listening,
        match message.payload {
            Payload::Broadcast(_)
            | Payload::PostgresChanges(_)
            | Payload::Response(_)
            | Payload::PresenceDiff(_)
            | Payload::PresenceState(_) => false,
            _ => true,
        },
    ensures
        has_no_use(before, after, reaction),
{
}

/// Everything else that the server sends is of no use to a channel, and changes
/// nothing.
pub proof fn other_messages_are_unmatched<K, B, P>(
    channel: &mut RealtimeChannel<K, B, P>,
    message: RealtimeMessage,
    reaction: ChannelReaction,
)
    requires
        call_ensures(RealtimeChannel::<K, B, P>::client_recv, (channel, message), reaction),
        old(channel).listening,
        match message.payload {
            Payload::Broadcast(_)
            | Payload::PostgresChanges(_)
            | Payload::Response(_)
            | Payload::PresenceDiff(_)
            | Payload::PresenceState(_) => false,
            _ => true,
        },
    ensures
        has_no_use(*old(channel), *final(channel), reaction),
{
    lemma_other_messages_are_unmatched(*old(channel), *final(channel), message, reaction);
}

/// The same of a channel of the client with middleware.
///
/// Everything else that the server sends is of no use to a channel, and changes
/// nothing.
pub proof fn other_sync_messages_are_unmatched<K, B, P>(
    channel: &mut sync::RealtimeChannel<K, B, P>,
    message: RealtimeMessage,
    reaction: ChannelReaction,
)
    requires
        call_ensures(sync::RealtimeChannel::<K, B, P>::client_recv, (channel, message), reaction),
        old(channel).channel.listening,
        match message.payload {
            Payload::Broadcast(_)
            | Payload::PostgresChanges(_)
            | Payload::Response(_)
            | Payload::PresenceDiff(_)
            | Payload::PresenceState(_) => false,
            _ => true,
        },
    ensures
        has_no_use(old(channel).channel, final(channel).channel, reaction),
{
    lemma_other_messages_are_unmatched(
        old(channel).channel,
        final(channel).channel,
        message,
        reaction,
    );
}

/// Whether a channel took in what a presence change says of an id.
pub open spec fn takes_presence_change<K, B, P>(
    before: RealtimeChannel<K, B, P>,
    after: RealtimeChannel<K, B, P>,
    diff: RawPresenceDiff,
    reaction: ChannelReaction,
    id: Seq<char>,
) -> bool {
    &&& after.presence.state.0@.contains_key(id) <==> diff.joins@.contains_key(id)
        || before.presence.state.0@.contains_key(id) && !diff.leaves@.contains_key(id)
    &&& diff.joins@.contains_key(id) ==> refs_of(
        after.presence.state.0@[id],
        diff.joins@[id].metas@,
    )
    &&& after.presence.state.0@.contains_key(id) && !diff.joins@.contains_key(id)
        ==> same_refs(
        after.presence.state.0@[id],
        before.presence.state.0@[id],
    )
    &&& after.presence.callbacks == before.presence.callbacks
    &&& reaction is Presence
    &&& after == (RealtimeChannel {
        presence: after.presence,
        ..before
    })
}

proof fn lemma_presence_change_is_heard<K, B, P>(
    before: RealtimeChannel<K, B, P>,
    after: RealtimeChannel<K, B, P>,
    message: RealtimeMessage,
    diff: RawPresenceDiff,
    reaction: ChannelReaction,
    id: Seq<char>,
)
    requires
        RealtimeChannel::heard(before, after, message, reaction),
        in_order(before, message),
        before.listening,
        message.payload == Payload::PresenceDiff(diff),
    ensures
        takes_presence_change(before, after, diff, reaction, id),
{
    let before = before.presence.state;
    let after = after.presence.state;
    lemma_model_of(before, id);
    lemma_model_of(after, id);
    lemma_raw_model(diff.joins, id);
    let left = diff.leaves.keys();
    assert(left.to_set().contains(id) == left.contains(id));
    if diff.joins@.contains_key(id) {
        lemma_refs_of(after.0@[id], diff.joins@[id].metas@);
    } else if after.0@.contains_key(id) {
        lemma_same_refs(after.0@[id], before.0@[id]);
    }
}

/// Whenever a channel hears a presence change, an id is present afterwards if
/// and only if it joined, or was present and is not among those who left. Who
/// joined has the references that the server sent, everyone else those that they
/// had. Nothing else of the channel changes.
pub proof fn presence_change_is_heard<K, B, P>(
    channel: &mut RealtimeChannel<K, B, P>,
    message: RealtimeMessage,
    diff: RawPresenceDiff,
    reaction: ChannelReaction,
    id: Seq<char>,
)
    requires
        call_ensures(RealtimeChannel::<K, B, P>::client_recv, (channel, message), reaction),
        old(channel).listening,
        message.payload == Payload::PresenceDiff(diff),
    ensures
        takes_presence_change(*old(channel), *final(channel), diff, reaction, id),
{
    lemma_presence_change_is_heard(*old(channel), *final(channel), message, diff, reaction, id);
}

/// The same of a channel of the client with middleware.
///
/// Whenever a channel hears a presence change, an id is present afterwards if
/// and only if it joined, or was present and is not among those who left. Who
/// joined has the references that the server sent, everyone else those that they
/// had. Nothing else of the channel changes.
pub proof fn sync_presence_change_is_heard<K, B, P>(
    channel: &mut sync::RealtimeChannel<K, B, P>,
    message: RealtimeMessage,
    diff: RawPresenceDiff,
    reaction: ChannelReaction,
    id: Seq<char>,
)
    requires
        call_ensures(sync::RealtimeChannel::<K, B, P>::client_recv, (channel, message), reaction),
        old(channel).channel.listening,
        message.payload == Payload::PresenceDiff(diff),
    ensures
        takes_presence_change(
            old(channel).channel,
            final(channel).channel,
            diff,
            reaction,
            id,
        ),
{
    lemma_presence_change_is_heard(
        old(channel).channel,
        final(channel).channel,
        message,
        diff,
        reaction,
        id,
    );
}

/// Whether the callback at a place is called for an id.
pub open spec fn tells_of_presence_change(
    reaction: ChannelReaction,
    place: int,
    id: Seq<char>,
) -> bool {
    &&& reaction matches ChannelReaction::Presence { calls } && exists|i: int|
        0 <= i < calls@.len() && (#[trigger] calls@[i]).callback == place && calls@[i].id@
            == id
}

proof fn lemma_presence_change_tells_everyone<K, B, P>(
    before: RealtimeChannel<K, B, P>,
    after: RealtimeChannel<K, B, P>,
    message: RealtimeMessage,
    diff: RawPresenceDiff,
    reaction: ChannelReaction,
    place: int,
    id: Seq<char>,
)
    requires
        RealtimeChannel::heard(before, after, message, reaction),
        in_order(before, message),
        before.listening,
        message.payload == Payload::PresenceDiff(diff),
        0 <= place < before.presence.callbacks@.len(),
        match before.presence.callbacks@[place].0 {
            PresenceEvent::Join => diff.joins@.contains_key(id),
            PresenceEvent::Leave => diff.leaves@.contains_key(id),
            _ => false,
        },
    ensures
        tells_of_presence_change(reaction, place, id),
{
    let calls = reaction->Presence_calls@;
    let before = before.presence;
    let after = after.presence;
    let joins = raw_model(diff.joins);
    let leaves = raw_model(diff.leaves);
    let joined = diff.joins.keys();
    let left = diff.leaves.keys();
    if before.callbacks@[place].0 == PresenceEvent::Join {
        assert(joined.contains(id));
        lemma_told_joined(before, after, joins, joined, leaves, left, calls, place, id);
    } else {
        assert(left.contains(id));
        lemma_told_left(before, after, joins, joined, leaves, left, calls, place, id);
    }
}

/// Whenever a channel hears a presence change, every join callback is called for
/// every id that joined, and every leave callback for every id that left.
pub proof fn presence_change_tells_everyone<K, B, P>(
    channel: &mut RealtimeChannel<K, B, P>,
    message: RealtimeMessage,
    diff: RawPresenceDiff,
    reaction: ChannelReaction,
    place: int,
    id: Seq<char>,
)
    requires
        call_ensures(RealtimeChannel::<K, B, P>::client_recv, (channel, message), reaction),
        old(channel).listening,
        message.payload == Payload::PresenceDiff(diff),
        0 <= place < old(channel).presence.callbacks@.len(),
        match old(channel).presence.callbacks@[place].0 {
            PresenceEvent::Join => diff.joins@.contains_key(id),
            PresenceEvent::Leave => diff.leaves@.contains_key(id),
            _ => false,
        },
    ensures
        tells_of_presence_change(reaction, place, id),
{
    lemma_presence_change_tells_everyone(
        *old(channel),
        *final(channel),
        message,
        diff,
        reaction,
        place,
        id,
    );
}

/// The same of a channel of the client with middleware.
///
/// Whenever a channel hears a presence change, every join callback is called for
/// every id that joined, and every leave callback for every id that left.
pub proof fn sync_presence_change_tells_everyone<K, B, P>(
    channel: &mut sync::RealtimeChannel<K, B, P>,
    message: RealtimeMessage,
    diff: RawPresenceDiff,
    reaction: ChannelReaction,
    place: int,
    id: Seq<char>,
)
    requires
        call_ensures(sync::RealtimeChannel::<K, B, P>::client_recv, (channel, message), reaction),
        old(channel).channel.listening,
        message.payload == Payload::PresenceDiff(diff),
        0 <= place < old(channel).channel.presence.callbacks@.len(),
        match old(channel).channel.presence.callbacks@[place].0 {
            PresenceEvent::Join => diff.joins@.contains_key(id),
            PresenceEvent::Leave => diff.leaves@.contains_key(id),
            _ => false,
        },
    ensures
        tells_of_presence_change(reaction, place, id),
{
    lemma_presence_change_tells_everyone(
        old(channel).channel,
        final(channel).channel,
        message,
        diff,
        reaction,
        place,
        id,
    );
}

/// Whether calls for a presence change are due and in order.
pub open spec fn calls_for_presence_change<K, B, P>(
    before: RealtimeChannel<K, B, P>,
    diff: RawPresenceDiff,
    calls: Vec<PresenceCall>,
    i: int,
    j: int,
) -> bool {
    &&& calls@[i].callback < before.presence.callbacks@.len()
    &&& match heard_event(before.presence.callbacks@, calls@[i]) {
        PresenceEvent::Join => {
            &&& diff.joins@.contains_key(calls@[i].id@)
            &&& same_state(calls@[i].old_state, before.presence.state)
            &&& is_state_of(calls@[i].new_state, diff.joins)
        },
        PresenceEvent::Leave => {
            let turns = diff.leaves.keys();
            &&& diff.leaves@.contains_key(calls@[i].id@)
            &&& is_without(
                calls@[i].old_state,
                before.presence.state,
                turns.take(turns.index_of(calls@[i].id@)),
            )
            &&& is_state_of(calls@[i].new_state, diff.leaves)
        },
        _ => false,
    }
    &&& i < j < calls@.len() ==> {
        let callbacks = before.presence.callbacks@;
        let later = heard_event(callbacks, calls@[j]);
        &&& hearing_order(heard_event(callbacks, calls@[i])) <= hearing_order(later)
        &&& comes_before(
            callbacks,
            if later == PresenceEvent::Leave {
                diff.leaves.keys()
            } else {
                diff.joins.keys()
            },
            calls@[i],
            calls@[j],
        )
    }
}

proof fn lemma_presence_change_calls_are_due<K, B, P>(
    before: RealtimeChannel<K, B, P>,
    after: RealtimeChannel<K, B, P>,
    message: RealtimeMessage,
    diff: RawPresenceDiff,
    calls: Vec<PresenceCall>,
    i: int,
    j: int,
)
    requires
        RealtimeChannel::heard(before, after, message, ChannelReaction::Presence { calls }),
        in_order(before, message),
        before.listening,
        message.payload == Payload::PresenceDiff(diff),
        0 <= i < calls@.len(),
    ensures
        calls_for_presence_change(before, diff, calls, i, j),
{
    let before = before.presence;
    let after = after.presence;
    let joins = raw_model(diff.joins);
    let leaves = raw_model(diff.leaves);
    let joined = diff.joins.keys();
    let left = diff.leaves.keys();
    let call = calls@[i];
    lemma_change_call(before, after, joins, joined, leaves, left, calls@, i);
    if heard_event(before.callbacks@, call) == PresenceEvent::Join {
        lemma_same_state(call.old_state, before.state);
        lemma_state_of(call.new_state, diff.joins);
    } else {
        lemma_without(call.old_state, before.state, left.take(left.index_of(call.id@)));
        lemma_state_of(call.new_state, diff.leaves);
    }
    if i < j < calls@.len() {
        lemma_change_order(before, after, joins, joined, leaves, left, calls@, i, j);
    }
}

/// Every call for a presence change is due: a join callback is called for an id
/// that joined, with who was present and all that joined; a leave callback for
/// an id that left, with who was present but for the ids before it and all that
/// left. The calls come in order, none of them twice.
pub proof fn presence_change_calls_are_due<K, B, P>(
    channel: &mut RealtimeChannel<K, B, P>,
    message: RealtimeMessage,
    diff: RawPresenceDiff,
    calls: Vec<PresenceCall>,
    i: int,
    j: int,
)
    requires
        call_ensures(
            RealtimeChannel::<K, B, P>::client_recv,
            (channel, message),
            ChannelReaction::Presence { calls },
        ),
        old(channel).listening,
        message.payload == Payload::PresenceDiff(diff),
        0 <= i < calls@.len(),
    ensures
        calls_for_presence_change(*old(channel), diff, calls, i, j),
{
    lemma_presence_change_calls_are_due(*old(channel), *final(channel), message, diff, calls, i, j);
}

/// The same of a channel of the client with middleware.
///
/// Every call for a presence change is due: a join callback is called for an id
/// that joined, with who was present and all that joined; a leave callback for
/// an id that left, with who was present but for the ids before it and all that
/// left. The calls come in order, none of them twice.
pub proof fn sync_presence_change_calls_are_due<K, B, P>(
    channel: &mut sync::RealtimeChannel<K, B, P>,
    message: RealtimeMessage,
    diff: RawPresenceDiff,
    calls: Vec<PresenceCall>,
    i: int,
    j: int,
)
    requires
        call_ensures(
            sync::RealtimeChannel::<K, B, P>::client_recv,
            (channel, message),
            ChannelReaction::Presence { calls },
        ),
        old(channel).channel.listening,
        message.payload == Payload::PresenceDiff(diff),
        0 <= i < calls@.len(),
    ensures
        calls_for_presence_change(old(channel).channel, diff, calls, i, j),
{
    lemma_presence_change_calls_are_due(
        old(channel).channel,
        final(channel).channel,
        message,
        diff,
        calls,
        i,
        j,
    );
}

/// Whether a channel took in a whole presence state.
pub open spec fn takes_presence_state<K, B, P>(
    before: RealtimeChannel<K, B, P>,
    after: RealtimeChannel<K, B, P>,
    sent: RawPresenceState,
    reaction: ChannelReaction,
) -> bool {
    &&& is_state_of(after.presence.state, sent)
    &&& after.presence.callbacks == before.presence.callbacks
    &&& reaction is Presence
    &&& after == (RealtimeChannel {
        presence: after.presence,
        ..before
    })
}

proof fn lemma_presence_state_is_heard<K, B, P>(
    before: RealtimeChannel<K, B, P>,
    after: RealtimeChannel<K, B, P>,
    message: RealtimeMessage,
    sent: RawPresenceState,
    reaction: ChannelReaction,
)
    requires
        RealtimeChannel::heard(before, after, message, reaction),
        in_order(before, message),
        before.listening,
        message.payload == Payload::PresenceState(sent),
    ensures
        takes_presence_state(before, after, sent, reaction),
{
    lemma_state_of(after.presence.state, sent);
}

/// Whenever a channel hears the whole presence state, an id is present
/// afterwards if and only if the server sent it, and then with the references
/// that the server sent. Nothing else of the channel changes.
pub proof fn presence_state_is_heard<K, B, P>(
    channel: &mut RealtimeChannel<K, B, P>,
    message: RealtimeMessage,
    sent: RawPresenceState,
    reaction: ChannelReaction,
)
    requires
        call_ensures(RealtimeChannel::<K, B, P>::client_recv, (channel, message), reaction),
        old(channel).listening,
        message.payload == Payload::PresenceState(sent),
    ensures
        takes_presence_state(*old(channel), *final(channel), sent, reaction),
{
    lemma_presence_state_is_heard(*old(channel), *final(channel), message, sent, reaction);
}

/// The same of a channel of the client with middleware.
///
/// Whenever a channel hears the whole presence state, an id is present
/// afterwards if and only if the server sent it, and then with the references
/// that the server sent. Nothing else of the channel changes.
pub proof fn sync_presence_state_is_heard<K, B, P>(
    channel: &mut sync::RealtimeChannel<K, B, P>,
    message: RealtimeMessage,
    sent: RawPresenceState,
    reaction: ChannelReaction,
)
    requires
        call_ensures(sync::RealtimeChannel::<K, B, P>::client_recv, (channel, message), reaction),
        old(channel).channel.listening,
        message.payload == Payload::PresenceState(sent),
    ensures
        takes_presence_state(
            old(channel).channel,
            final(channel).channel,
            sent,
            reaction,
        ),
{
    lemma_presence_state_is_heard(
        old(channel).channel,
        final(channel).channel,
        message,
        sent,
        reaction,
    );
}

/// Whether the callback at a place is called for an id that is synced.
pub open spec fn tells_of_presence_state(
    reaction: ChannelReaction,
    place: int,
    id: Seq<char>,
) -> bool {
    &&& reaction matches ChannelReaction::Presence { calls } && exists|i: int|
        0 <= i < calls@.len() && (#[trigger] calls@[i]).callback == place && calls@[i].id@
            == id
}

proof fn lemma_presence_state_tells_everyone<K, B, P>(
    before: RealtimeChannel<K, B, P>,
    after: RealtimeChannel<K, B, P>,
    message: RealtimeMessage,
    sent: RawPresenceState,
    reaction: ChannelReaction,
    place: int,
    id: Seq<char>,
)
    requires
        RealtimeChannel::heard(before, after, message, reaction),
        in_order(before, message),
        before.listening,
        message.payload == Payload::PresenceState(sent),
        0 <= place < before.presence.callbacks@.len(),
        match before.presence.callbacks@[place].0 {
            PresenceEvent::Join | PresenceEvent::Sync => sent@.contains_key(id),
            PresenceEvent::Leave => before.presence.state.0@.contains_key(id),
            _ => false,
        },
    ensures
        tells_of_presence_state(reaction, place, id),
{
    let before = before.presence;
    if before.callbacks@[place].0 == PresenceEvent::Leave {
        assert(before.state.0.keys().contains(id));
    } else {
        assert(sent.keys().contains(id));
    }
    lemma_state_tells(
        before,
        after.presence,
        raw_model(sent),
        sent.keys(),
        reaction->Presence_calls@,
        place,
        id,
    );
}

/// Whenever a channel hears the whole presence state, every join callback and
/// every sync callback is called for every id that the server sent, and every
/// leave callback for every id that was present.
pub proof fn presence_state_tells_everyone<K, B, P>(
    channel: &mut RealtimeChannel<K, B, P>,
    message: RealtimeMessage,
    sent: RawPresenceState,
    reaction: ChannelReaction,
    place: int,
    id: Seq<char>,
)
    requires
        call_ensures(RealtimeChannel::<K, B, P>::client_recv, (channel, message), reaction),
        old(channel).listening,
        message.payload == Payload::PresenceState(sent),
        0 <= place < old(channel).presence.callbacks@.len(),
        match old(channel).presence.callbacks@[place].0 {
            PresenceEvent::Join | PresenceEvent::Sync => sent@.contains_key(id),
            PresenceEvent::Leave => old(channel).presence.state.0@.contains_key(id),
            _ => false,
        },
    ensures
        tells_of_presence_state(reaction, place, id),
{
    lemma_presence_state_tells_everyone(
        *old(channel),
        *final(channel),
        message,
        sent,
        reaction,
        place,
        id,
    );
}

/// The same of a channel of the client with middleware.
///
/// Whenever a channel hears the whole presence state, every join callback and
/// every sync callback is called for every id that the server sent, and every
/// leave callback for every id that was present.
pub proof fn sync_presence_state_tells_everyone<K, B, P>(
    channel: &mut sync::RealtimeChannel<K, B, P>,
    message: RealtimeMessage,
    sent: RawPresenceState,
    reaction: ChannelReaction,
    place: int,
    id: Seq<char>,
)
    requires
        call_ensures(sync::RealtimeChannel::<K, B, P>::client_recv, (channel, message), reaction),
        old(channel).channel.listening,
        message.payload == Payload::PresenceState(sent),
        0 <= place < old(channel).channel.presence.callbacks@.len(),
        match old(channel).channel.presence.callbacks@[place].0 {
            PresenceEvent::Join | PresenceEvent::Sync => sent@.contains_key(id),
            PresenceEvent::Leave => old(channel).channel.presence.state.0@.contains_key(id),
            _ => false,
        },
    ensures
        tells_of_presence_state(reaction, place, id),
{
    lemma_presence_state_tells_everyone(
        old(channel).channel,
        final(channel).channel,
        message,
        sent,
        reaction,
        place,
        id,
    );
}

/// Whether calls for a whole presence state are due and in order.
pub open spec fn calls_for_presence_state<K, B, P>(
    before: RealtimeChannel<K, B, P>,
    sent: RawPresenceState,
    calls: Vec<PresenceCall>,
    i: int,
    j: int,
) -> bool {
    &&& calls@[i].callback < before.presence.callbacks@.len()
    &&& match heard_event(before.presence.callbacks@, calls@[i]) {
        PresenceEvent::Join | PresenceEvent::Sync => {
            &&& sent@.contains_key(calls@[i].id@)
            &&& same_state(calls@[i].old_state, before.presence.state)
            &&& is_state_of(calls@[i].new_state, sent)
        },
        PresenceEvent::Leave => {
            let turns = before.presence.state.0.keys();
            &&& before.presence.state.0@.contains_key(calls@[i].id@)
            &&& is_without(
                calls@[i].old_state,
                before.presence.state,
                turns.take(turns.index_of(calls@[i].id@)),
            )
            &&& is_emptied(calls@[i].new_state, before.presence.state)
        },
        _ => false,
    }
    &&& i < j < calls@.len() ==> {
        let callbacks = before.presence.callbacks@;
        let later = heard_event(callbacks, calls@[j]);
        &&& hearing_order(heard_event(callbacks, calls@[i])) <= hearing_order(later)
        &&& comes_before(
            callbacks,
            if later == PresenceEvent::Leave {
                before.presence.state.0.keys()
            } else {
                sent.keys()
            },
            calls@[i],
            calls@[j],
        )
    }
}

proof fn lemma_presence_state_calls_are_due<K, B, P>(
    before: RealtimeChannel<K, B, P>,
    after: RealtimeChannel<K, B, P>,
    message: RealtimeMessage,
    sent: RawPresenceState,
    calls: Vec<PresenceCall>,
    i: int,
    j: int,
)
    requires
        RealtimeChannel::heard(before, after, message, ChannelReaction::Presence { calls }),
        in_order(before, message),
        before.listening,
        message.payload == Payload::PresenceState(sent),
        0 <= i < calls@.len(),
    ensures
        calls_for_presence_state(before, sent, calls, i, j),
{
    let before = before.presence;
    let after = after.presence;
    let gone = before.state.0.keys();
    let call = calls@[i];
    lemma_state_call(before, after, raw_model(sent), sent.keys(), calls@, i);
    if heard_event(before.callbacks@, call) == PresenceEvent::Leave {
        lemma_without(call.old_state, before.state, gone.take(gone.index_of(call.id@)));
        lemma_emptied(call.new_state, before.state);
    } else {
        lemma_same_state(call.old_state, before.state);
        lemma_state_of(call.new_state, sent);
    }
    if i < j < calls@.len() {
        lemma_state_order(before, after, raw_model(sent), sent.keys(), calls@, i, j);
    }
}

/// Every call for a whole presence state is due: join and sync callbacks are
/// called for ids that the server sent, with who was present and all that the
/// server sent; leave callbacks for ids that were present, with who was present
/// but for the ids before it and everyone who was, without references. The
/// calls come in order, none of them twice.
pub proof fn presence_state_calls_are_due<K, B, P>(
    channel: &mut RealtimeChannel<K, B, P>,
    message: RealtimeMessage,
    sent: RawPresenceState,
    calls: Vec<PresenceCall>,
    i: int,
    j: int,
)
    requires
        call_ensures(
            RealtimeChannel::<K, B, P>::client_recv,
            (channel, message),
            ChannelReaction::Presence { calls },
        ),
        old(channel).listening,
        message.payload == Payload::PresenceState(sent),
        0 <= i < calls@.len(),
    ensures
        calls_for_presence_state(*old(channel), sent, calls, i, j),
{
    lemma_presence_state_calls_are_due(*old(channel), *final(channel), message, sent, calls, i, j);
}

/// The same of a channel of the client with middleware.
///
/// Every call for a whole presence state is due: join and sync callbacks are
/// called for ids that the server sent, with who was present and all that the
/// server sent; leave callbacks for ids that were present, with who was present
/// but for the ids before it and everyone who was, without references. The
/// calls come in order, none of them twice.
pub proof fn sync_presence_state_calls_are_due<K, B, P>(
    channel: &mut sync::RealtimeChannel<K, B, P>,
    message: RealtimeMessage,
    sent: RawPresenceState,
    calls: Vec<PresenceCall>,
    i: int,
    j: int,
)
    requires
        call_ensures(
            sync::RealtimeChannel::<K, B, P>::client_recv,
            (channel, message),
            ChannelReaction::Presence { calls },
        ),
        old(channel).channel.listening,
        message.payload == Payload::PresenceState(sent),
        0 <= i < calls@.len(),
    ensures
        calls_for_presence_state(old(channel).channel, sent, calls, i, j),
{
    lemma_presence_state_calls_are_due(
        old(channel).channel,
        final(channel).channel,
        message,
        sent,
        calls,
        i,
        j,
    );
}

} // verus!
