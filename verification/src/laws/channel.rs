//! What channels do when they are asked.
use vstd::prelude::*;

use crate::laws::messages::{lemma_same_config, same_config};
use crate::laws::presence::{lemma_same_state, same_state};
use crate::message::payload::{BroadcastPayload, JoinPayload, Payload};
use crate::message::presence::{PresenceEvent, StateData};
use crate::message::{MessageEvent, RealtimeMessage};
use crate::realtime_channel::{
    ChannelAction, ChannelManagerMessage, ChannelReply, ChannelSendError, ChannelState,
    RealtimeChannel, SendPurpose, SocketTx,
};

verus! {

/// Whether a message asks the server to let a channel join: under the channel's
/// identifier, with what the channel announces.
pub open spec fn asks_to_join<K, B, P>(
    channel: RealtimeChannel<K, B, P>,
    message: RealtimeMessage,
) -> bool {
    &&& message.event == MessageEvent::PhxJoin
    &&& message.topic@ == channel.topic@
    &&& message.message_ref matches Some(text) && text@ == channel.id@
    &&& message.payload matches Payload::Join(payload) && payload.access_token@
        == channel.join_payload.access_token@ && same_config(
        payload.config,
        channel.join_payload.config,
    )
}

/// Whether a message tells the server that a channel leaves, under a reference
/// of its own.
pub open spec fn says_goodbye<K, B, P>(
    channel: RealtimeChannel<K, B, P>,
    message: RealtimeMessage,
) -> bool {
    &&& message.event == MessageEvent::PhxLeave
    &&& message.topic@ == channel.topic@
    &&& message.message_ref matches Some(text) && text@ == channel.id@ + "+leave"@
    &&& message.payload is Empty
}

/// Whether a message carries a payload on a channel's topic, without a
/// reference.
pub open spec fn carries<K, B, P>(
    channel: RealtimeChannel<K, B, P>,
    message: RealtimeMessage,
    event: MessageEvent,
    payload: Payload,
) -> bool {
    &&& message.event == event
    &&& message.topic@ == channel.topic@
    &&& message.message_ref is None
    &&& message.payload == payload
}

/// Asked to join, in whatever state, a channel sends a join request to its
/// socket, waits for the reply, and is otherwise as it was.
pub proof fn joining_sends_a_request<K, B, P>(
    channel: &mut RealtimeChannel<K, B, P>,
    request: ChannelManagerMessage,
    action: ChannelAction,
)
    requires
        call_ensures(RealtimeChannel::<K, B, P>::manager_recv, (channel, request), action),
        request is Subscribe || request is SubscribeBlocking,
    ensures
        *final(channel) == (RealtimeChannel { state: ChannelState::Joining, ..*old(channel) }),
        action matches ChannelAction::Send { to, message, purpose } && to
            == old(channel).client_tx && asks_to_join(*old(channel), message) && purpose == (
        if request is Subscribe {
            SendPurpose::Subscribe
        } else {
            SendPurpose::SubscribeBlocking
        }),
{
    let message = action->Send_message;
    lemma_same_config(message.payload->Join_0.config, old(channel).join_payload.config);
}

/// Starting to join gives the join request.
pub proof fn subscribing_gives_a_request<K, B, P>(
    channel: &mut RealtimeChannel<K, B, P>,
    message: RealtimeMessage,
)
    requires
        call_ensures(RealtimeChannel::<K, B, P>::subscribe, (channel,), message),
    ensures
        *final(channel) == (RealtimeChannel { state: ChannelState::Joining, ..*old(channel) }),
        asks_to_join(*old(channel), message),
{
    lemma_same_config(message.payload->Join_0.config, old(channel).join_payload.config);
}

/// Asked to leave, a channel that is closed or already leaving says so at once;
/// any other one sends a goodbye to its socket. It changes only once that is
/// sent.
pub proof fn leaving_sends_a_goodbye<K, B, P>(
    channel: &mut RealtimeChannel<K, B, P>,
    action: ChannelAction,
)
    requires
        call_ensures(
            RealtimeChannel::<K, B, P>::manager_recv,
            (channel, ChannelManagerMessage::Unsubscribe),
            action,
        ),
    ensures
        *final(channel) == *old(channel),
        match old(channel).state {
            ChannelState::Closed | ChannelState::Leaving => action == ChannelAction::Reply(
                ChannelReply::Left(Ok(old(channel).state)),
            ),
            _ => action matches ChannelAction::Send { to, message, purpose } && to
                == old(channel).client_tx && purpose == SendPurpose::Unsubscribe && says_goodbye(
                *old(channel),
                message,
            ),
        },
{
}

/// There is a goodbye to send unless the channel is closed or already leaving.
pub proof fn unsubscribing_gives_a_goodbye<K, B, P>(
    channel: RealtimeChannel<K, B, P>,
    message: Option<RealtimeMessage>,
)
    requires
        call_ensures(RealtimeChannel::<K, B, P>::unsubscribe, (&channel,), message),
    ensures
        match channel.state {
            ChannelState::Closed | ChannelState::Leaving => message is None,
            _ => message matches Some(goodbye) && says_goodbye(channel, goodbye),
        },
{
}

/// Once the goodbye is sent the channel is leaving. If it came back, the channel
/// is as it was, and the message is in the answer.
pub proof fn goodbye_sent_is_leaving<K, B, P>(
    channel: &mut RealtimeChannel<K, B, P>,
    outcome: Result<(), RealtimeMessage>,
    reply: Result<ChannelState, ChannelSendError>,
)
    requires
        call_ensures(RealtimeChannel::<K, B, P>::left, (channel, outcome), reply),
    ensures
        match outcome {
            Ok(_) => {
                &&& *final(channel) == (RealtimeChannel {
                    state: ChannelState::Leaving,
                    ..*old(channel)
                })
                &&& reply matches Ok(state) && state == ChannelState::Leaving
            },
            Err(message) => {
                &&& *final(channel) == *old(channel)
                &&& reply matches Err(ChannelSendError::SendError(back)) && back == message
            },
        },
{
}

/// Asked to broadcast, a channel in any state but leaving sends to its socket
/// a broadcast on its topic with exactly that payload. One that is leaving
/// refuses. Neither changes.
pub proof fn broadcasting_sends_the_payload<K, B, P>(
    channel: &mut RealtimeChannel<K, B, P>,
    payload: BroadcastPayload,
    action: ChannelAction,
)
    requires
        call_ensures(
            RealtimeChannel::<K, B, P>::manager_recv,
            (channel, ChannelManagerMessage::Broadcast { payload }),
            action,
        ),
    ensures
        *final(channel) == *old(channel),
        match old(channel).state {
            ChannelState::Leaving => action == ChannelAction::Fail(
                ChannelSendError::ChannelError(ChannelState::Leaving),
            ),
            _ => action matches ChannelAction::Send { to, message, purpose } && to
                == old(channel).client_tx && purpose == SendPurpose::Broadcast && carries(
                *old(channel),
                message,
                MessageEvent::Broadcast,
                Payload::Broadcast(payload),
            ),
        },
{
}

/// Asked to track data, a channel in any state but leaving sends to its socket
/// a presence message on its topic with exactly that data. One that is leaving
/// refuses. Neither changes.
pub proof fn tracking_sends_the_data<K, B, P>(
    channel: &mut RealtimeChannel<K, B, P>,
    data: StateData,
    action: ChannelAction,
)
    requires
        call_ensures(
            RealtimeChannel::<K, B, P>::manager_recv,
            (channel, ChannelManagerMessage::PresenceTrack { data }),
            action,
        ),
    ensures
        *final(channel) == *old(channel),
        match old(channel).state {
            ChannelState::Leaving => action == ChannelAction::Fail(
                ChannelSendError::ChannelError(ChannelState::Leaving),
            ),
            _ => action matches ChannelAction::Send { to, message, purpose } && to
                == old(channel).client_tx && purpose == SendPurpose::PresenceTrack
                && message.event == MessageEvent::Presence && message.topic@
                == old(channel).topic@ && message.message_ref is None && (message.payload matches
                Payload::PresenceTrack(inner) && inner.event == PresenceEvent::Track
                && inner.payload == data),
        },
{
}

/// Asked to stop tracking, a channel in any state but leaving sends to its
/// socket an empty message for that on its topic. One that is leaving refuses.
/// Neither changes.
pub proof fn untracking_sends_a_message<K, B, P>(
    channel: &mut RealtimeChannel<K, B, P>,
    action: ChannelAction,
)
    requires
        call_ensures(
            RealtimeChannel::<K, B, P>::manager_recv,
            (channel, ChannelManagerMessage::PresenceUntrack),
            action,
        ),
    ensures
        *final(channel) == *old(channel),
        match old(channel).state {
            ChannelState::Leaving => action == ChannelAction::Fail(
                ChannelSendError::ChannelError(ChannelState::Leaving),
            ),
            _ => action matches ChannelAction::Send { to, message, purpose } && to
                == old(channel).client_tx && purpose == SendPurpose::PresenceUntrack
                && message.event == MessageEvent::Untrack && message.topic@
                == old(channel).topic@ && message.message_ref is None && message.payload is Empty,
        },
{
}

/// Asked to take over a token, a channel announces it from then on, and tells
/// the server at once if it has joined. Nothing else of it changes.
pub proof fn new_token_is_taken_over<K, B, P>(
    channel: &mut RealtimeChannel<K, B, P>,
    access_token: String,
    action: ChannelAction,
)
    requires
        call_ensures(
            RealtimeChannel::<K, B, P>::manager_recv,
            (channel, ChannelManagerMessage::ReAuth { access_token }),
            action,
        ),
    ensures
        final(channel).join_payload.access_token@ == access_token@,
        *final(channel) == (RealtimeChannel {
            join_payload: JoinPayload {
                access_token: final(channel).join_payload.access_token,
                ..old(channel).join_payload
            },
            ..*old(channel)
        }),
        match old(channel).state {
            ChannelState::Joined => action matches ChannelAction::Send { to, message, purpose }
                && to == old(channel).client_tx && purpose == SendPurpose::ReAuth
                && message.event == MessageEvent::AccessToken && message.topic@
                == old(channel).topic@ && message.message_ref is None && (message.payload matches
                Payload::AccessToken(payload) && payload.access_token@ == access_token@),
            _ => action == ChannelAction::Reply(ChannelReply::Done),
        },
{
}

/// A channel that takes over a token has a message for the server if and only
/// if it has joined, and announces the token from then on.
pub proof fn reauth_tells_of_the_token<K, B, P>(
    channel: &mut RealtimeChannel<K, B, P>,
    access_token: String,
    message: Option<RealtimeMessage>,
)
    requires
        call_ensures(RealtimeChannel::<K, B, P>::reauth, (channel, access_token), message),
    ensures
        final(channel).join_payload.access_token@ == access_token@,
        *final(channel) == (RealtimeChannel {
            join_payload: JoinPayload {
                access_token: final(channel).join_payload.access_token,
                ..old(channel).join_payload
            },
            ..*old(channel)
        }),
        message is Some <==> old(channel).state == ChannelState::Joined,
        message matches Some(sent) ==> sent.event == MessageEvent::AccessToken && sent.topic@
            == old(channel).topic@ && sent.message_ref is None && (sent.payload matches
            Payload::AccessToken(payload) && payload.access_token@ == access_token@),
{
}

/// A channel that is given a new way to the socket uses it from then on. Nothing
/// else of it changes.
pub proof fn new_socket_is_used<K, B, P>(
    channel: &mut RealtimeChannel<K, B, P>,
    new_tx: SocketTx,
    action: ChannelAction,
)
    requires
        call_ensures(
            RealtimeChannel::<K, B, P>::manager_recv,
            (channel, ChannelManagerMessage::ClientTx { new_tx }),
            action,
        ),
    ensures
        *final(channel) == (RealtimeChannel { client_tx: new_tx, ..*old(channel) }),
        action == ChannelAction::Reply(ChannelReply::Done),
{
}

/// A channel that is asked about itself answers what is the case, and does not
/// change.
pub proof fn questions_are_answered<K, B, P>(
    channel: &mut RealtimeChannel<K, B, P>,
    request: ChannelManagerMessage,
    action: ChannelAction,
)
    requires
        call_ensures(RealtimeChannel::<K, B, P>::manager_recv, (channel, request), action),
        request is GetState || request is GetTx || request is GetTopic
            || request is GetPresenceState,
    ensures
        *final(channel) == *old(channel),
        request is GetTx ==> action is GiveTx,
        request is GetState ==> (action matches ChannelAction::Reply(ChannelReply::State(state))
            && state == old(channel).state),
        request is GetTopic ==> (action matches ChannelAction::Reply(ChannelReply::Topic(topic))
            && topic@ == old(channel).topic@),
        request is GetPresenceState ==> (action matches ChannelAction::Reply(
            ChannelReply::PresenceState(state),
        ) && same_state(state, old(channel).presence.state)),
{
    if request is GetPresenceState {
        lemma_same_state(action->Reply_0->PresenceState_0, old(channel).presence.state);
    }
}

/// How the sending of a message went changes a channel only if it was its
/// goodbye and was sent. Whoever asked hears of it: a blocking subscription
/// waits until the channel has joined, a message that came back is handed on,
/// and nobody waits for a broadcast that was sent or for a plain subscription.
pub proof fn sending_is_reported<K, B, P>(
    channel: &mut RealtimeChannel<K, B, P>,
    purpose: SendPurpose,
    outcome: Result<(), RealtimeMessage>,
    action: ChannelAction,
)
    requires
        call_ensures(RealtimeChannel::<K, B, P>::sent, (channel, purpose, outcome), action),
    ensures
        *final(channel) == (if purpose == SendPurpose::Unsubscribe && outcome is Ok {
            RealtimeChannel { state: ChannelState::Leaving, ..*old(channel) }
        } else {
            *old(channel)
        }),
        purpose == SendPurpose::Subscribe ==> action is Nothing,
        purpose == SendPurpose::SubscribeBlocking ==> action is AwaitJoined,
        purpose == SendPurpose::Unsubscribe ==> match outcome {
            Ok(_) => action == ChannelAction::Reply(
                ChannelReply::Left(Ok(ChannelState::Leaving)),
            ),
            Err(back) => action == ChannelAction::Reply(
                ChannelReply::Left(Err(ChannelSendError::SendError(back))),
            ),
        },
        purpose == SendPurpose::Broadcast && outcome is Ok ==> action is Nothing,
        (purpose == SendPurpose::PresenceTrack || purpose == SendPurpose::PresenceUntrack
            || purpose == SendPurpose::ReAuth) && outcome is Ok ==> action == ChannelAction::Reply(
            ChannelReply::Done,
        ),
        (purpose == SendPurpose::Broadcast || purpose == SendPurpose::PresenceTrack || purpose
            == SendPurpose::PresenceUntrack || purpose == SendPurpose::ReAuth)
            && outcome is Err ==> action == ChannelAction::Fail(
            ChannelSendError::SendError(outcome->Err_0),
        ),
{
}

/// A message that is readied gets the channel's topic and is otherwise as it
/// was. A channel that is leaving readies none.
pub proof fn readied_message_is_on_topic<K, B, P>(
    channel: RealtimeChannel<K, B, P>,
    message: RealtimeMessage,
    ready: Result<RealtimeMessage, ChannelSendError>,
)
    requires
        call_ensures(RealtimeChannel::<K, B, P>::send, (&channel, message), ready),
    ensures
        match ready {
            Ok(sent) => channel.state != ChannelState::Leaving && sent.event == message.event
                && sent.topic@ == channel.topic@ && sent.payload == message.payload
                && sent.message_ref == message.message_ref,
            Err(error) => channel.state == ChannelState::Leaving && error
                == ChannelSendError::ChannelError(ChannelState::Leaving),
        },
{
}

/// What a channel readies to broadcast, to track and to stop tracking is on its
/// topic and carries what it was given, unless the channel is leaving.
pub proof fn readied_payloads_are_carried<K, B, P>(
    channel: RealtimeChannel<K, B, P>,
    payload: BroadcastPayload,
    data: StateData,
    broadcast: Result<RealtimeMessage, ChannelSendError>,
    track: Result<RealtimeMessage, ChannelSendError>,
    untrack: Result<RealtimeMessage, ChannelSendError>,
)
    requires
        call_ensures(RealtimeChannel::<K, B, P>::broadcast, (&channel, payload), broadcast),
        call_ensures(RealtimeChannel::<K, B, P>::track, (&channel, data), track),
        call_ensures(RealtimeChannel::<K, B, P>::untrack, (&channel,), untrack),
    ensures
        channel.state == ChannelState::Leaving ==> {
            let error = ChannelSendError::ChannelError(ChannelState::Leaving);
            &&& broadcast matches Err(refused) && refused == error
            &&& track matches Err(refused) && refused == error
            &&& untrack matches Err(refused) && refused == error
        },
        channel.state != ChannelState::Leaving ==> {
            &&& broadcast matches Ok(message) && carries(
                channel,
                message,
                MessageEvent::Broadcast,
                Payload::Broadcast(payload),
            )
            &&& track matches Ok(message) && message.event == MessageEvent::Presence
                && message.topic@ == channel.topic@ && message.message_ref is None && (
            message.payload matches Payload::PresenceTrack(inner) && inner.event
                == PresenceEvent::Track && inner.payload == data)
            &&& untrack matches Ok(message) && message.event == MessageEvent::Untrack
                && message.topic@ == channel.topic@ && message.message_ref is None
                && message.payload is Empty
        },
{
}

/// A channel has joined if and only if that is its state.
pub proof fn joined_is_a_state<K, B, P>(channel: RealtimeChannel<K, B, P>, joined: bool)
    requires
        call_ensures(RealtimeChannel::<K, B, P>::is_joined, (&channel,), joined),
    ensures
        joined <==> channel.state == ChannelState::Joined,
{
}

} // verus!
