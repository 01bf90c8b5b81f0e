use vstd::prelude::*;

use crate::identifier::is_random_uuid;
use crate::message::payload::{
    BroadcastConfig, BroadcastPayload, Payload, PostgresChangesEvent, PresenceConfig,
};
use crate::message::presence::{PresenceEvent, PresenceState, StateData};
use crate::message::{PostgresChangeFilter, RealtimeMessage};
use crate::realtime_channel::{self as base, announced, full_topic};
use crate::realtime_channel::{ChannelAction, ChannelReaction, ChannelReply, SendPurpose};
use crate::string_map::Deep;

pub use crate::realtime_channel::{ChannelManager, ChannelSendError, ChannelState, SocketTx};

verus! {

/// What a channel can be asked for.
#[derive(Debug)]
pub enum ChannelManagerMessage {
    Subscribe,
    SubscribeBlocking,
    Broadcast { payload: BroadcastPayload },
    /// There is a new way to the socket.
    ClientTx { new_tx: SocketTx },
    State,
    GetTx,
    GetTopic,
}

/// Channel structure
#[derive(Debug)]
pub struct RealtimeChannel<K, B, P> {
    pub channel: base::RealtimeChannel<K, B, P>,
}

/// A text as it stands in debug output: between double quotes, with what needs
/// it escaped.
pub uninterp spec fn quoted(text: Seq<char>) -> Seq<char>;

/// `<str as std::fmt::Debug>::fmt`, written out.
#[verifier::external_body]
fn quote(text: &str) -> (written: String)
    ensures
        written@ == quoted(text@),
{
    format!("{:?}", text)
}

impl<K, B, P> RealtimeChannel<K, B, P> {
    /// Whether `after` is the channel after it was asked for something, and
    /// `action` is what is to be done about it.
    pub open spec fn was_asked(
        before: Self,
        after: Self,
        request: ChannelManagerMessage,
        action: ChannelAction,
    ) -> bool {
        match request {
            ChannelManagerMessage::Subscribe => base::RealtimeChannel::starts_joining(
                before.channel,
                after.channel,
                action,
                SendPurpose::Subscribe,
            ),
            ChannelManagerMessage::SubscribeBlocking => base::RealtimeChannel::starts_joining(
                before.channel,
                after.channel,
                action,
                SendPurpose::SubscribeBlocking,
            ),
            ChannelManagerMessage::Broadcast { payload } => {
                &&& after == before
                &&& if before.channel.state == ChannelState::Leaving {
                    action is Nothing
                } else {
                    action matches ChannelAction::Send { to, message, purpose } && to
                        == before.channel.client_tx && purpose == SendPurpose::Broadcast && before.channel.is_broadcast(message, payload)
                }
            },
            ChannelManagerMessage::ClientTx { new_tx } => {
                &&& after.channel == base::RealtimeChannel { client_tx: new_tx, ..before.channel }
                &&& action == ChannelAction::Reply(ChannelReply::Done)
            },
            ChannelManagerMessage::State => after == before && action == ChannelAction::Reply(
                ChannelReply::State(before.channel.state),
            ),
            ChannelManagerMessage::GetTx => after == before && action is GiveTx,
            ChannelManagerMessage::GetTopic => {
                &&& after == before
                &&& action matches ChannelAction::Reply(ChannelReply::Topic(topic)) && topic@
                    == before.channel.topic@
            },
        }
    }

    /// Takes in what the channel is asked for. Returns what is to be done.
    pub fn manager_recv(&mut self, request: ChannelManagerMessage) -> (action: ChannelAction)
        ensures
            Self::was_asked(*old(self), *final(self), request, action),
    {
        match request {
            ChannelManagerMessage::Subscribe => {
                let message = self.subscribe();
                self.channel.to_socket(message, SendPurpose::Subscribe)
            },
            ChannelManagerMessage::SubscribeBlocking => {
                let message = self.subscribe();
                self.channel.to_socket(message, SendPurpose::SubscribeBlocking)
            },
            ChannelManagerMessage::Broadcast { payload } => match self.broadcast(payload) {
                Ok(message) => self.channel.to_socket(message, SendPurpose::Broadcast),
                Err(_) => ChannelAction::Nothing,
            },
            ChannelManagerMessage::ClientTx { new_tx } => {
                self.channel.client_tx = new_tx;
                ChannelAction::Reply(ChannelReply::Done)
            },
            ChannelManagerMessage::State => ChannelAction::Reply(
                ChannelReply::State(self.channel.state),
            ),
            ChannelManagerMessage::GetTx => ChannelAction::GiveTx,
            ChannelManagerMessage::GetTopic => ChannelAction::Reply(
                ChannelReply::Topic(self.channel.topic.clone()),
            ),
        }
    }

    /// What is to be done once a message was sent, or came back: a blocking
    /// subscription waits, and nobody else asked to hear of it.
    pub fn sent(&self, purpose: SendPurpose) -> (action: ChannelAction)
        ensures
            action == (if purpose == SendPurpose::SubscribeBlocking {
                ChannelAction::AwaitJoined
            } else {
                ChannelAction::Nothing
            }),
    {
        if purpose == SendPurpose::SubscribeBlocking {
            ChannelAction::AwaitJoined
        } else {
            ChannelAction::Nothing
        }
    }

    /// Send a join request to the channel
    pub fn subscribe(&mut self) -> (message: RealtimeMessage)
        ensures
            final(self).channel == (base::RealtimeChannel {
                state: ChannelState::Joining,
                ..old(self).channel
            }),
            old(self).channel.is_join(message),
    {
        self.channel.subscribe()
    }

    /// Takes in a message from the server. Returns what it asks for.
    pub fn client_recv(&mut self, message: RealtimeMessage) -> (reaction: ChannelReaction)
        ensures
            base::RealtimeChannel::heard(
                old(self).channel,
                final(self).channel,
                message,
                reaction,
            ),
            old(self).channel.listening ==> (match message.payload {
                Payload::PresenceDiff(diff) => diff.joins.ordered() && diff.leaves.ordered(),
                Payload::PresenceState(state) => state.ordered()
                    && old(self).channel.presence.state.0.ordered(),
                _ => true,
            }),
    {
        self.channel.client_recv(message)
    }

    /// Starts to leave the channel: returns the message to send, if there is
    /// anything to leave.
    pub fn unsubscribe(&self) -> (message: Option<RealtimeMessage>)
        ensures
            message is None <==> self.channel.is_away(),
            message matches Some(sent) ==> self.channel.is_leave(sent),
    {
        self.channel.unsubscribe()
    }

    /// Ends leaving the channel, once the message is sent or has come back.
    pub fn left(&mut self, outcome: Result<(), RealtimeMessage>) -> (reply: Result<
        ChannelState,
        ChannelSendError,
    >)
        ensures
            outcome is Ok ==> final(self).channel == (base::RealtimeChannel {
                state: ChannelState::Leaving,
                ..old(self).channel
            }) && reply == Ok::<ChannelState, ChannelSendError>(ChannelState::Leaving),
            outcome matches Err(message) ==> *final(self) == *old(self) && reply == Err::<
                ChannelState,
                ChannelSendError,
            >(ChannelSendError::SendError(message)),
    {
        self.channel.left(outcome)
    }

    /// Returns the current [PresenceState] of the channel
    pub fn presence_state(&self) -> (state: PresenceState)
        ensures
            state.model() == self.channel.presence.state.model(),
    {
        self.channel.presence.state.duplicate()
    }

    /// Track provided state in Realtime Presence
    pub fn track(&self, payload: StateData) -> (ready: Result<RealtimeMessage, ChannelSendError>)
        ensures
            ready matches Ok(message) ==> self.channel.state != ChannelState::Leaving
                && self.channel.is_track(message, payload),
            ready matches Err(error) ==> self.channel.state == ChannelState::Leaving && error
                == ChannelSendError::ChannelError(ChannelState::Leaving),
    {
        self.channel.track(payload)
    }

    /// Sends a message to stop tracking this channel's presence
    pub fn untrack(&self) -> (ready: Result<RealtimeMessage, ChannelSendError>)
        ensures
            ready matches Ok(message) ==> self.channel.state != ChannelState::Leaving
                && self.channel.is_untrack(message),
            ready matches Err(error) ==> self.channel.state == ChannelState::Leaving && error
                == ChannelSendError::ChannelError(ChannelState::Leaving),
    {
        self.channel.untrack()
    }

    /// Send a [RealtimeMessage] on this channel
    pub fn send(&self, message: RealtimeMessage) -> (ready: Result<RealtimeMessage, ChannelSendError>)
        ensures
            ready matches Ok(sent) ==> self.channel.state != ChannelState::Leaving && sent.is_for(
                message.event,
                self.channel.topic@,
                message.message_ref.model(),
            ) && sent.payload == message.payload,
            ready matches Err(error) ==> self.channel.state == ChannelState::Leaving && error
                == ChannelSendError::ChannelError(ChannelState::Leaving),
    {
        self.channel.send(message)
    }

    /// Helper function for sending broadcast messages
    pub fn broadcast(&self, payload: BroadcastPayload) -> (ready: Result<
        RealtimeMessage,
        ChannelSendError,
    >)
        ensures
            ready matches Ok(message) ==> self.channel.state != ChannelState::Leaving
                && self.channel.is_broadcast(message, payload),
            ready matches Err(error) ==> self.channel.state == ChannelState::Leaving && error
                == ChannelSendError::ChannelError(ChannelState::Leaving),
    {
        self.channel.broadcast(payload)
    }

    /// Takes over a new access token. Returns the message that tells the server
    /// of it, if the channel has joined; otherwise the next join request does.
    pub fn set_auth(&mut self, access_token: String) -> (message: Option<RealtimeMessage>)
        ensures
            final(self).channel == (base::RealtimeChannel {
                join_payload: final(self).channel.join_payload,
                ..old(self).channel
            }),
            final(self).channel.join_payload.config == old(self).channel.join_payload.config,
            final(self).channel.join_payload.access_token@ == access_token@,
            message is Some <==> old(self).channel.state == ChannelState::Joined,
            message matches Some(sent) ==> old(self).channel.is_reauth(sent, access_token@),
    {
        self.channel.reauth(access_token)
    }

    /// The channel in debug output.
    pub fn debug_text(&self) -> (text: String)
        ensures
            text@ == "RealtimeChannel { name: "@ + quoted(self.channel.topic@)
                + ", callbacks: [TODO DEBUG]}"@,
    {
        let mut text = "RealtimeChannel { name: ".to_owned();
        text.append(quote(self.channel.topic.as_str()).as_str());
        text.append(", callbacks: [TODO DEBUG]}");
        text
    }
}

/// Builder struct for [RealtimeChannel]
#[derive(Debug)]
pub struct RealtimeChannelBuilder<K, B, P> {
    pub builder: base::RealtimeChannelBuilder<K, B, P>,
}

impl<K, B, P> RealtimeChannelBuilder<K, B, P> {
    pub fn new(topic: String) -> (made: Self)
        ensures
            made.builder.is_fresh(topic@),
            is_random_uuid(made.builder.id@),
            made.builder.wf(),
    {
        RealtimeChannelBuilder { builder: base::RealtimeChannelBuilder::new(topic) }
    }

    /// Set the topic of the channel
    pub fn topic(self, topic: String) -> (made: Self)
        ensures
            made.builder == (base::RealtimeChannelBuilder {
                topic: made.builder.topic,
                ..self.builder
            }),
            made.builder.topic@ == full_topic(topic@),
    {
        RealtimeChannelBuilder { builder: self.builder.topic(topic) }
    }

    /// Set the broadcast config for this channel
    pub fn broadcast(self, broadcast_config: BroadcastConfig) -> (made: Self)
        ensures
            made.builder == (base::RealtimeChannelBuilder {
                broadcast: broadcast_config,
                ..self.builder
            }),
    {
        RealtimeChannelBuilder { builder: self.builder.broadcast(broadcast_config) }
    }

    /// Set the presence config for this channel
    pub fn presence(self, presence_config: PresenceConfig) -> (made: Self)
        ensures
            made.builder == (base::RealtimeChannelBuilder {
                presence: presence_config,
                ..self.builder
            }),
    {
        RealtimeChannelBuilder { builder: self.builder.presence(presence_config) }
    }

    /// Add a postgres changes callback to this channel
    pub fn on_postgres_change(
        self,
        event: PostgresChangesEvent,
        filter: PostgresChangeFilter,
        callback: K,
    ) -> (made: Self)
        ensures
            made.builder == (base::RealtimeChannelBuilder {
                postgres_changes: made.builder.postgres_changes,
                cdc_callbacks: made.builder.cdc_callbacks,
                ..self.builder
            }),
            made.builder.postgres_changes.model() == self.builder.postgres_changes.model().push(
                announced((event, filter, callback)),
            ),
            made.builder.cdc_callbacks@ == self.builder.cdc_callbacks@.push(
                (event, filter, callback),
            ),
            self.builder.wf() ==> made.builder.wf(),
    {
        RealtimeChannelBuilder { builder: self.builder.on_postgres_change(event, filter, callback) }
    }

    /// Add a presence callback to this channel
    pub fn on_presence(self, event: PresenceEvent, callback: P) -> (made: Self)
        ensures
            made.builder == (base::RealtimeChannelBuilder {
                presence_callbacks: made.builder.presence_callbacks,
                ..self.builder
            }),
            made.builder.presence_callbacks@ == self.builder.presence_callbacks@.push(
                (event, callback),
            ),
    {
        RealtimeChannelBuilder { builder: self.builder.on_presence(event, callback) }
    }

    /// Add a broadcast callback to this channel
    pub fn on_broadcast(self, event: String, callback: B) -> (made: Self)
        ensures
            made.builder == (base::RealtimeChannelBuilder {
                broadcast_callbacks: made.builder.broadcast_callbacks,
                ..self.builder
            }),
            made.builder.broadcast_callbacks@ == self.builder.broadcast_callbacks@.push(
                (event, callback),
            ),
    {
        RealtimeChannelBuilder { builder: self.builder.on_broadcast(event, callback) }
    }
}

} // verus!
