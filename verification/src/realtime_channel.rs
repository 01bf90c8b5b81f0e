use vstd::prelude::*;

use crate::identifier::{is_random_uuid, random_identifier};
use crate::message::payload::{
    AccessTokenPayload, BroadcastConfig, BroadcastPayload, JoinConfig, JoinPayload, Payload,
    PayloadStatus, PostgresChange, PostgresChangeModel, PostgresChangesEvent,
    PostgresChangesPayload, PresenceConfig, PresenceTrackPayload,
};
use crate::message::presence::{
    raw_model, PresenceDiff, PresenceEvent, PresenceModel, PresenceState, StateData,
};
use crate::message::{MessageEvent, PostgresChangeFilter, RealtimeMessage};
use crate::places::{as_places, chosen_places, places};
use crate::realtime_presence::{PresenceCall, RealtimePresence};
use crate::string_map::Deep;

verus! {

/// Channel states
#[derive(Debug, Clone, Copy, PartialEq, Eq, Structural)]
pub enum ChannelState {
    Closed,
    Errored,
    Joined,
    Joining,
    Leaving,
}

/// Error for channel send failures
#[derive(Debug)]
pub enum ChannelSendError {
    NoChannel,
    /// The client took no more messages; this one came back.
    SendError(RealtimeMessage),
    ChannelError(ChannelState),
}

/// What a channel can be asked for.
#[derive(Debug)]
pub enum ChannelManagerMessage {
    Subscribe,
    Unsubscribe,
    SubscribeBlocking,
    Broadcast { payload: BroadcastPayload },
    /// There is a new way to the socket.
    ClientTx { new_tx: SocketTx },
    GetState,
    GetTx,
    GetTopic,
    GetPresenceState,
    PresenceTrack { data: StateData },
    PresenceUntrack,
    /// The access token has become another one.
    ReAuth { access_token: String },
}

/// The name under which a client knows one of its channels.
#[derive(Debug, Clone, Copy, PartialEq, Eq, Structural)]
pub struct ChannelManager {
    pub id: usize,
}

/// The name of a way to a socket. Each connection has its own.
#[derive(Debug, Clone, Copy, PartialEq, Eq, Structural)]
pub struct SocketTx {
    pub id: usize,
}

/// What a message is sent for.
#[derive(Debug, Clone, Copy, PartialEq, Eq, Structural)]
pub enum SendPurpose {
    Subscribe,
    SubscribeBlocking,
    Unsubscribe,
    Broadcast,
    PresenceTrack,
    PresenceUntrack,
    ReAuth,
}

/// The answer to what a channel was asked for.
#[derive(Debug)]
pub enum ChannelReply {
    Done,
    Left(Result<ChannelState, ChannelSendError>),
    State(ChannelState),
    Topic(String),
    PresenceState(PresenceState),
}

/// What is to be done next about what a channel was asked for.
#[derive(Debug)]
pub enum ChannelAction {
    /// Hand the message to the socket, and report how that went.
    Send { to: SocketTx, message: RealtimeMessage, purpose: SendPurpose },
    /// Give the answer.
    Reply(ChannelReply),
    /// Answer with the way to this channel.
    GiveTx,
    /// Answer that it is done as soon as the channel has joined.
    AwaitJoined,
    Nothing,
    /// It could not be done, and nobody asked to hear of that.
    Fail(ChannelSendError),
}

/// What a message from the server asks of a channel.
#[derive(Debug)]
pub enum ChannelReaction {
    /// Call these broadcast callbacks.
    Broadcast { callbacks: Vec<usize>, data: StateData },
    /// Call these callbacks for postgres changes.
    PostgresChanges { callbacks: Vec<usize>, change: PostgresChangesPayload },
    /// Make these calls of presence callbacks.
    Presence { calls: Vec<PresenceCall> },
    /// It was the reply to the channel's join request.
    JoinReply,
    /// It was the reply to something else, and ends the channel's listening.
    Stopped,
    /// The channel has no use for it.
    Unmatched,
    /// The channel no longer listens.
    Unheard,
}

/// Channel structure
#[derive(Debug)]
pub struct RealtimeChannel<K, B, P> {
    pub topic: String,
    pub state: ChannelState,
    pub id: String,
    pub cdc_callbacks: Vec<(PostgresChangesEvent, PostgresChangeFilter, K)>,
    pub broadcast_callbacks: Vec<(String, B)>,
    /// Where the channel's messages go.
    pub client_tx: SocketTx,
    pub join_payload: JoinPayload,
    pub presence: RealtimePresence<P>,
    /// Whether the channel still takes in what the server sends.
    pub listening: bool,
}

/// The text of a reference, which is empty where there is none.
pub open spec fn ref_text(message_ref: Option<String>) -> Seq<char> {
    match message_ref {
        Some(text) => text@,
        None => Seq::empty(),
    }
}

impl<K, B, P> RealtimeChannel<K, B, P> {
    /// The reference of the request to leave the channel.
    pub open spec fn leave_ref(&self) -> Seq<char> {
        self.id@ + "+leave"@
    }

    /// Whether `message` asks the server to let this channel join.
    pub open spec fn is_join(&self, message: RealtimeMessage) -> bool {
        &&& message.is_for(MessageEvent::PhxJoin, self.topic@, Some(self.id@))
        &&& message.payload matches Payload::Join(payload) && payload.model()
            == self.join_payload.model()
    }

    /// Whether `message` tells the server that this channel leaves.
    pub open spec fn is_leave(&self, message: RealtimeMessage) -> bool {
        &&& message.is_for(MessageEvent::PhxLeave, self.topic@, Some(self.leave_ref()))
        &&& message.payload is Empty
    }

    /// Whether `message` broadcasts `payload` on this channel.
    pub open spec fn is_broadcast(&self, message: RealtimeMessage, payload: BroadcastPayload) -> bool {
        &&& message.is_for(MessageEvent::Broadcast, self.topic@, None)
        &&& message.payload == Payload::Broadcast(payload)
    }

    /// Whether `message` has the server track `data` for this channel.
    pub open spec fn is_track(&self, message: RealtimeMessage, data: StateData) -> bool {
        &&& message.is_for(MessageEvent::Presence, self.topic@, None)
        &&& message.payload == Payload::PresenceTrack(
            PresenceTrackPayload { event: PresenceEvent::Track, payload: data },
        )
    }

    /// Whether `message` has the server stop tracking this channel.
    pub open spec fn is_untrack(&self, message: RealtimeMessage) -> bool {
        &&& message.is_for(MessageEvent::Untrack, self.topic@, None)
        &&& message.payload is Empty
    }

    /// Whether `message` tells the server the channel's new access token.
    pub open spec fn is_reauth(&self, message: RealtimeMessage, access_token: Seq<char>) -> bool {
        &&& message.is_for(MessageEvent::AccessToken, self.topic@, None)
        &&& message.payload matches Payload::AccessToken(payload) && payload.access_token@
            == access_token
    }

    /// Whether there is nothing to leave.
    pub open spec fn is_away(&self) -> bool {
        self.state == ChannelState::Closed || self.state == ChannelState::Leaving
    }

    /// Readies a message to be sent on this channel: it gets the channel's
    /// topic. A channel that is leaving sends nothing.
    pub fn send(&self, message: RealtimeMessage) -> (ready: Result<RealtimeMessage, ChannelSendError>)
        ensures
            ready matches Ok(sent) ==> self.state != ChannelState::Leaving && sent.is_for(
                message.event,
                self.topic@,
                message.message_ref.model(),
            ) && sent.payload == message.payload && sent.message_ref == message.message_ref,
            ready matches Err(error) ==> self.state == ChannelState::Leaving && error
                == ChannelSendError::ChannelError(ChannelState::Leaving),
    {
        if self.state == ChannelState::Leaving {
            return Err(ChannelSendError::ChannelError(self.state));
        }
        let mut message = message;
        message.topic = self.topic.clone();
        Ok(message)
    }

    /// Starts to join the channel: returns the join request to send.
    pub fn subscribe(&mut self) -> (message: RealtimeMessage)
        ensures
            *final(self) == (RealtimeChannel { state: ChannelState::Joining, ..*old(self) }),
            old(self).is_join(message),
    {
        self.state = ChannelState::Joining;
        RealtimeMessage {
            event: MessageEvent::PhxJoin,
            topic: self.topic.clone(),
            payload: Payload::Join(self.join_payload.duplicate()),
            message_ref: Some(self.id.clone()),
        }
    }

    /// Starts to leave the channel: returns the message to send, if there is
    /// anything to leave.
    pub fn unsubscribe(&self) -> (message: Option<RealtimeMessage>)
        ensures
            message is None <==> self.is_away(),
            message matches Some(sent) ==> self.is_leave(sent),
    {
        if self.state == ChannelState::Closed || self.state == ChannelState::Leaving {
            return None;
        }
        let mut message_ref = self.id.clone();
        message_ref.append("+leave");
        Some(
            RealtimeMessage {
                event: MessageEvent::PhxLeave,
                topic: self.topic.clone(),
                payload: Payload::Empty {  },
                message_ref: Some(message_ref),
            },
        )
    }

    /// Ends leaving the channel, once the message is sent or has come back.
    pub fn left(&mut self, outcome: Result<(), RealtimeMessage>) -> (reply: Result<
        ChannelState,
        ChannelSendError,
    >)
        ensures
            outcome is Ok ==> *final(self) == (RealtimeChannel {
                state: ChannelState::Leaving,
                ..*old(self)
            }) && reply == Ok::<ChannelState, ChannelSendError>(ChannelState::Leaving),
            outcome matches Err(message) ==> *final(self) == *old(self) && reply == Err::<
                ChannelState,
                ChannelSendError,
            >(ChannelSendError::SendError(message)),
    {
        match outcome {
            Ok(()) => {
                self.state = ChannelState::Leaving;
                Ok(ChannelState::Leaving)
            },
            Err(message) => Err(ChannelSendError::SendError(message)),
        }
    }

    /// Track provided state in Realtime Presence
    pub fn track(&self, payload: StateData) -> (ready: Result<RealtimeMessage, ChannelSendError>)
        ensures
            ready matches Ok(message) ==> self.state != ChannelState::Leaving && self.is_track(
                message,
                payload,
            ),
            ready matches Err(error) ==> self.state == ChannelState::Leaving && error
                == ChannelSendError::ChannelError(ChannelState::Leaving),
    {
        self.send(
            RealtimeMessage {
                event: MessageEvent::Presence,
                topic: self.topic.clone(),
                payload: Payload::PresenceTrack(PresenceTrackPayload::from(payload)),
                message_ref: None,
            },
        )
    }

    /// Sends a message to stop tracking this channel's presence
    pub fn untrack(&self) -> (ready: Result<RealtimeMessage, ChannelSendError>)
        ensures
            ready matches Ok(message) ==> self.state != ChannelState::Leaving && self.is_untrack(
                message,
            ),
            ready matches Err(error) ==> self.state == ChannelState::Leaving && error
                == ChannelSendError::ChannelError(ChannelState::Leaving),
    {
        self.send(
            RealtimeMessage {
                event: MessageEvent::Untrack,
                topic: self.topic.clone(),
                payload: Payload::Empty {  },
                message_ref: None,
            },
        )
    }

    /// Sends `payload` to everyone on the channel.
    pub fn broadcast(&self, payload: BroadcastPayload) -> (ready: Result<
        RealtimeMessage,
        ChannelSendError,
    >)
        ensures
            ready matches Ok(message) ==> self.state != ChannelState::Leaving && self.is_broadcast(
                message,
                payload,
            ),
            ready matches Err(error) ==> self.state == ChannelState::Leaving && error
                == ChannelSendError::ChannelError(ChannelState::Leaving),
    {
        self.send(
            RealtimeMessage {
                event: MessageEvent::Broadcast,
                topic: String::new(),
                payload: Payload::Broadcast(payload),
                message_ref: None,
            },
        )
    }

    /// Takes over a new access token. Returns the message that tells the server
    /// of it, if the channel has joined; otherwise the next join request does.
    pub fn reauth(&mut self, access_token: String) -> (message: Option<RealtimeMessage>)
        ensures
            *final(self) == (RealtimeChannel {
                join_payload: JoinPayload {
                    access_token: final(self).join_payload.access_token,
                    ..old(self).join_payload
                },
                ..*old(self)
            }),
            final(self).join_payload.access_token@ == access_token@,
            message is Some <==> old(self).state == ChannelState::Joined,
            message matches Some(sent) ==> old(self).is_reauth(sent, access_token@),
    {
        self.join_payload.access_token = access_token.clone();
        if self.state != ChannelState::Joined {
            return None;
        }
        Some(
            RealtimeMessage {
                event: MessageEvent::AccessToken,
                topic: self.topic.clone(),
                payload: Payload::AccessToken(AccessTokenPayload { access_token }),
                message_ref: None,
            },
        )
    }
}

impl<K, B, P> RealtimeChannel<K, B, P> {
    /// Whether `action` readies a join request, and `after` is the channel that
    /// waits for the reply.
    pub open spec fn starts_joining(
        before: Self,
        after: Self,
        action: ChannelAction,
        purpose: SendPurpose,
    ) -> bool {
        &&& after == RealtimeChannel { state: ChannelState::Joining, ..before }
        &&& action matches ChannelAction::Send { to, message, purpose: sent_for } && to
            == before.client_tx && sent_for == purpose && before.is_join(message)
    }

    /// Whether `action` says that the channel is leaving and sends nothing.
    pub open spec fn refuses(action: ChannelAction) -> bool {
        action == ChannelAction::Fail(ChannelSendError::ChannelError(ChannelState::Leaving))
    }

    /// Whether `after` is the channel after it was asked for something, and
    /// `action` is what is to be done about it.
    pub open spec fn was_asked(
        before: Self,
        after: Self,
        request: ChannelManagerMessage,
        action: ChannelAction,
    ) -> bool {
        match request {
            ChannelManagerMessage::Subscribe => Self::starts_joining(
                before,
                after,
                action,
                SendPurpose::Subscribe,
            ),
            ChannelManagerMessage::SubscribeBlocking => Self::starts_joining(
                before,
                after,
                action,
                SendPurpose::SubscribeBlocking,
            ),
            ChannelManagerMessage::Unsubscribe => {
                &&& after == before
                &&& if before.is_away() {
                    action == ChannelAction::Reply(ChannelReply::Left(Ok(before.state)))
                } else {
                    action matches ChannelAction::Send { to, message, purpose } && to
                        == before.client_tx && purpose == SendPurpose::Unsubscribe && before.is_leave(message)
                }
            },
            ChannelManagerMessage::Broadcast { payload } => {
                &&& after == before
                &&& if before.state == ChannelState::Leaving {
                    Self::refuses(action)
                } else {
                    action matches ChannelAction::Send { to, message, purpose } && to
                        == before.client_tx && purpose == SendPurpose::Broadcast && before.is_broadcast(message, payload)
                }
            },
            ChannelManagerMessage::PresenceTrack { data } => {
                &&& after == before
                &&& if before.state == ChannelState::Leaving {
                    Self::refuses(action)
                } else {
                    action matches ChannelAction::Send { to, message, purpose } && to
                        == before.client_tx && purpose == SendPurpose::PresenceTrack && before.is_track(message, data)
                }
            },
            ChannelManagerMessage::PresenceUntrack => {
                &&& after == before
                &&& if before.state == ChannelState::Leaving {
                    Self::refuses(action)
                } else {
                    action matches ChannelAction::Send { to, message, purpose } && to
                        == before.client_tx && purpose == SendPurpose::PresenceUntrack && before.is_untrack(message)
                }
            },
            ChannelManagerMessage::ReAuth { access_token } => {
                &&& after == RealtimeChannel { join_payload: after.join_payload, ..before }
                &&& after.join_payload.config == before.join_payload.config
                &&& after.join_payload.access_token@ == access_token@
                &&& if before.state == ChannelState::Joined {
                    action matches ChannelAction::Send { to, message, purpose } && to
                        == before.client_tx && purpose == SendPurpose::ReAuth && before.is_reauth(message, access_token@)
                } else {
                    action == ChannelAction::Reply(ChannelReply::Done)
                }
            },
            ChannelManagerMessage::ClientTx { new_tx } => {
                &&& after == RealtimeChannel { client_tx: new_tx, ..before }
                &&& action == ChannelAction::Reply(ChannelReply::Done)
            },
            ChannelManagerMessage::GetTx => after == before && action == ChannelAction::GiveTx,
            ChannelManagerMessage::GetState => after == before && action == ChannelAction::Reply(
                ChannelReply::State(before.state),
            ),
            ChannelManagerMessage::GetTopic => {
                &&& after == before
                &&& action matches ChannelAction::Reply(ChannelReply::Topic(topic)) && topic@
                    == before.topic@
            },
            ChannelManagerMessage::GetPresenceState => {
                &&& after == before
                &&& action matches ChannelAction::Reply(ChannelReply::PresenceState(state))
                    && state.model() == before.presence.state.model()
            },
        }
    }

    /// Takes in what the channel is asked for. Returns what is to be done.
    pub fn manager_recv(&mut self, request: ChannelManagerMessage) -> (action: ChannelAction)
        ensures
            Self::was_asked(*old(self), *final(self), request, action),
    {
        match request {
            ChannelManagerMessage::Subscribe => {
                let message = self.subscribe();
                self.to_socket(message, SendPurpose::Subscribe)
            },
            ChannelManagerMessage::Unsubscribe => {
                match self.unsubscribe() {
                    Some(message) => self.to_socket(message, SendPurpose::Unsubscribe),
                    None => ChannelAction::Reply(ChannelReply::Left(Ok(self.state))),
                }
            },
            ChannelManagerMessage::SubscribeBlocking => {
                let message = self.subscribe();
                self.to_socket(message, SendPurpose::SubscribeBlocking)
            },
            ChannelManagerMessage::Broadcast { payload } => self.ready_to_send(
                self.broadcast(payload),
                SendPurpose::Broadcast,
            ),
            ChannelManagerMessage::ClientTx { new_tx } => {
                self.client_tx = new_tx;
                ChannelAction::Reply(ChannelReply::Done)
            },
            ChannelManagerMessage::GetState => ChannelAction::Reply(
                ChannelReply::State(self.state),
            ),
            ChannelManagerMessage::GetTx => ChannelAction::GiveTx,
            ChannelManagerMessage::GetTopic => ChannelAction::Reply(
                ChannelReply::Topic(self.topic.clone()),
            ),
            ChannelManagerMessage::PresenceTrack { data } => self.ready_to_send(
                self.track(data),
                SendPurpose::PresenceTrack,
            ),
            ChannelManagerMessage::PresenceUntrack => self.ready_to_send(
                self.untrack(),
                SendPurpose::PresenceUntrack,
            ),
            ChannelManagerMessage::GetPresenceState => ChannelAction::Reply(
                ChannelReply::PresenceState(self.presence.state.duplicate()),
            ),
            ChannelManagerMessage::ReAuth { access_token } => {
                match self.reauth(access_token) {
                    Some(message) => self.to_socket(message, SendPurpose::ReAuth),
                    None => ChannelAction::Reply(ChannelReply::Done),
                }
            },
        }
    }

    /// Whether `after` is the channel after a message for `purpose` was sent or
    /// came back, and `action` is what is to be done about it.
    pub open spec fn was_told(
        before: Self,
        after: Self,
        purpose: SendPurpose,
        outcome: Result<(), RealtimeMessage>,
        action: ChannelAction,
    ) -> bool {
        match purpose {
            SendPurpose::Subscribe => after == before && action == ChannelAction::Nothing,
            SendPurpose::SubscribeBlocking => after == before && action
                == ChannelAction::AwaitJoined,
            SendPurpose::Unsubscribe => match outcome {
                Ok(_) => {
                    &&& after == RealtimeChannel { state: ChannelState::Leaving, ..before }
                    &&& action == ChannelAction::Reply(
                        ChannelReply::Left(Ok(ChannelState::Leaving)),
                    )
                },
                Err(message) => {
                    &&& after == before
                    &&& action == ChannelAction::Reply(
                        ChannelReply::Left(Err(ChannelSendError::SendError(message))),
                    )
                },
            },
            SendPurpose::Broadcast => after == before && action == (match outcome {
                Ok(_) => ChannelAction::Nothing,
                Err(message) => ChannelAction::Fail(ChannelSendError::SendError(message)),
            }),
            _ => after == before && action == (match outcome {
                Ok(_) => ChannelAction::Reply(ChannelReply::Done),
                Err(message) => ChannelAction::Fail(ChannelSendError::SendError(message)),
            }),
        }
    }

    /// Takes in how the sending of a message went: it is sent, or the client
    /// took no more messages and it came back. Returns what is to be done.
    pub fn sent(&mut self, purpose: SendPurpose, outcome: Result<(), RealtimeMessage>) -> (action:
        ChannelAction)
        ensures
            Self::was_told(*old(self), *final(self), purpose, outcome, action),
    {
        match purpose {
            SendPurpose::Subscribe => ChannelAction::Nothing,
            SendPurpose::SubscribeBlocking => ChannelAction::AwaitJoined,
            SendPurpose::Unsubscribe => ChannelAction::Reply(
                ChannelReply::Left(self.left(outcome)),
            ),
            SendPurpose::Broadcast => match outcome {
                Ok(()) => ChannelAction::Nothing,
                Err(message) => ChannelAction::Fail(ChannelSendError::SendError(message)),
            },
            _ => match outcome {
                Ok(()) => ChannelAction::Reply(ChannelReply::Done),
                Err(message) => ChannelAction::Fail(ChannelSendError::SendError(message)),
            },
        }
    }

    /// Whether the channel has joined: what a blocking subscription waits for.
    pub fn is_joined(&self) -> (joined: bool)
        ensures
            joined == (self.state == ChannelState::Joined),
    {
        self.state == ChannelState::Joined
    }
}

impl<K, B, P> RealtimeChannel<K, B, P> {
    pub(crate) fn to_socket(&self, message: RealtimeMessage, purpose: SendPurpose) -> (action:
        ChannelAction)
        ensures
            action == (ChannelAction::Send { to: self.client_tx, message, purpose }),
    {
        ChannelAction::Send { to: self.client_tx, message, purpose }
    }

    fn ready_to_send(
        &self,
        ready: Result<RealtimeMessage, ChannelSendError>,
        purpose: SendPurpose,
    ) -> (action: ChannelAction)
        ensures
            action == (match ready {
                Ok(message) => ChannelAction::Send { to: self.client_tx, message, purpose },
                Err(error) => ChannelAction::Fail(error),
            }),
    {
        match ready {
            Ok(message) => self.to_socket(message, purpose),
            Err(error) => ChannelAction::Fail(error),
        }
    }
}

impl<K, B, P> RealtimeChannel<K, B, P> {
    /// Which callbacks hear of a broadcast event.
    pub open spec fn hears_broadcast(&self, event: Seq<char>) -> spec_fn(int) -> bool {
        |i: int| self.broadcast_callbacks@[i].0@ == event
    }

    /// The places of the callbacks for a broadcast event, in the order in which
    /// they were registered.
    pub open spec fn broadcast_places(&self, event: Seq<char>) -> Seq<int> {
        places(self.broadcast_callbacks@.len() as int, self.hears_broadcast(event))
    }

    /// Which callbacks that were registered for `event` hear of a message.
    pub open spec fn hears_change(
        &self,
        event: PostgresChangesEvent,
        message: RealtimeMessage,
    ) -> spec_fn(int) -> bool {
        |i: int| self.cdc_callbacks@[i].0 == event && self.cdc_callbacks@[i].1.accepts(message)
    }

    /// The places of the callbacks that were registered for `event` and hear of
    /// a message, in the order in which they were registered.
    pub open spec fn change_places(
        &self,
        event: PostgresChangesEvent,
        message: RealtimeMessage,
    ) -> Seq<int> {
        places(self.cdc_callbacks@.len() as int, self.hears_change(event, message))
    }

    /// Whether `after` is the channel after a message from the server, and
    /// `reaction` is what the message asks for.
    pub open spec fn heard(
        before: Self,
        after: Self,
        message: RealtimeMessage,
        reaction: ChannelReaction,
    ) -> bool {
        if !before.listening {
            after == before && reaction is Unheard
        } else {
            match message.payload {
                Payload::Broadcast(payload) => {
                    &&& after == before
                    &&& reaction matches ChannelReaction::Broadcast { callbacks, data }
                        && as_places(callbacks@) == before.broadcast_places(payload.event@) && data
                        == payload.payload
                },
                Payload::PostgresChanges(payload) => {
                    &&& after == before
                    &&& reaction matches ChannelReaction::PostgresChanges { callbacks, change } && as_places(callbacks@) == before.change_places(
                        payload.data.change_type,
                        message,
                    ) + before.change_places(PostgresChangesEvent::All, message) && change
                        == payload
                },
                Payload::Response(response) => if ref_text(message.message_ref) != before.id@ {
                    &&& after == RealtimeChannel { listening: false, ..before }
                    &&& reaction is Stopped
                } else if response.status == PayloadStatus::Success {
                    &&& after == RealtimeChannel { state: ChannelState::Joined, ..before }
                    &&& reaction is JoinReply
                } else {
                    after == before && reaction is JoinReply
                },
                Payload::PresenceDiff(diff) => {
                    &&& after == RealtimeChannel { presence: after.presence, ..before }
                    &&& reaction matches ChannelReaction::Presence { calls }
                        && RealtimePresence::took_diff(
                        before.presence,
                        after.presence,
                        raw_model(diff.joins),
                        diff.joins.keys(),
                        raw_model(diff.leaves),
                        diff.leaves.keys(),
                        calls@,
                    )
                },
                Payload::PresenceState(state) => {
                    &&& after == RealtimeChannel { presence: after.presence, ..before }
                    &&& reaction matches ChannelReaction::Presence { calls }
                        && RealtimePresence::took_state(
                        before.presence,
                        after.presence,
                        raw_model(state),
                        state.keys(),
                        calls@,
                    )
                },
                _ => after == before && reaction is Unmatched,
            }
        }
    }

    fn select_broadcast(&self, event: &String) -> (found: Vec<usize>)
        ensures
            as_places(found@) == self.broadcast_places(event@),
    {
        let mut found: Vec<usize> = Vec::new();
        let ghost chosen = self.hears_broadcast(event@);
        proof {
            assert(as_places(found@) =~= places(0, chosen));
        }
        for i in 0..self.broadcast_callbacks.len()
            invariant
                chosen == self.hears_broadcast(event@),
                as_places(found@) == places(i as int, chosen),
        {
            let ghost before = found@;
            if self.broadcast_callbacks[i].0 == *event {
                found.push(i);
                proof {
                    assert(as_places(found@) =~= as_places(before).push(i as int));
                }
            }
        }
        found
    }

    fn select_change(&self, event: PostgresChangesEvent, message: &RealtimeMessage) -> (found: Vec<
        usize,
    >)
        ensures
            as_places(found@) == self.change_places(event, *message),
    {
        let mut found: Vec<usize> = Vec::new();
        let ghost chosen = self.hears_change(event, *message);
        proof {
            assert(as_places(found@) =~= places(0, chosen));
        }
        for i in 0..self.cdc_callbacks.len()
            invariant
                chosen == self.hears_change(event, *message),
                as_places(found@) == places(i as int, chosen),
        {
            let ghost before = found@;
            if self.cdc_callbacks[i].0 == event && self.cdc_callbacks[i].1.check(message) {
                found.push(i);
                proof {
                    assert(as_places(found@) =~= as_places(before).push(i as int));
                }
            }
        }
        found
    }

    /// Takes in a message from the server. Returns what it asks for.
    ///
    /// A postgres change goes to the callbacks for its kind and then to those
    /// for all kinds, as far as their filters let it pass.
    pub fn client_recv(&mut self, message: RealtimeMessage) -> (reaction: ChannelReaction)
        ensures
            Self::heard(*old(self), *final(self), message, reaction),
            old(self).listening ==> (match message.payload {
                Payload::PresenceDiff(diff) => diff.joins.ordered() && diff.leaves.ordered(),
                Payload::PresenceState(state) => state.ordered()
                    && old(self).presence.state.0.ordered(),
                _ => true,
            }),
    {
        if !self.listening {
            return ChannelReaction::Unheard;
        }
        let found: Vec<usize> = match &message.payload {
            Payload::Broadcast(payload) => self.select_broadcast(&payload.event),
            Payload::PostgresChanges(payload) => {
                let mut found = self.select_change(payload.data.change_type, &message);
                let mut for_all = self.select_change(PostgresChangesEvent::All, &message);
                let ghost first = found@;
                let ghost second = for_all@;
                found.append(&mut for_all);
                proof {
                    assert(as_places(found@) =~= as_places(first) + as_places(second));
                }
                found
            },
            _ => Vec::new(),
        };
        match message.payload {
            Payload::Broadcast(payload) => ChannelReaction::Broadcast {
                callbacks: found,
                data: payload.payload,
            },
            Payload::PostgresChanges(payload) => ChannelReaction::PostgresChanges {
                callbacks: found,
                change: payload,
            },
            Payload::Response(response) => {
                let target_id = match message.message_ref {
                    Some(target_id) => target_id,
                    None => String::new(),
                };
                if target_id != self.id {
                    self.listening = false;
                    return ChannelReaction::Stopped;
                }
                if response.status == PayloadStatus::Success {
                    self.state = ChannelState::Joined;
                }
                ChannelReaction::JoinReply
            },
            Payload::PresenceDiff(diff) => {
                let calls = self.presence.sync_diff(PresenceDiff::from(diff));
                ChannelReaction::Presence { calls }
            },
            Payload::PresenceState(state) => {
                let calls = self.presence.sync(PresenceState::from(state));
                ChannelReaction::Presence { calls }
            },
            _ => ChannelReaction::Unmatched,
        }
    }
}

/// The topic that the server knows by a channel's name.
pub open spec fn full_topic(name: Seq<char>) -> Seq<char> {
    "realtime:"@ + name
}

fn write_topic(name: &String) -> (topic: String)
    ensures
        topic@ == full_topic(name@),
{
    let mut topic = "realtime:".to_owned();
    topic.append(name.as_str());
    topic
}

/// How a callback for postgres changes is announced to the server.
pub open spec fn announced<K>(
    registered: (PostgresChangesEvent, PostgresChangeFilter, K),
) -> PostgresChangeModel {
    PostgresChangeModel {
        event: registered.0,
        schema: registered.1.schema@,
        table: match registered.1.table {
            Some(table) => table@,
            None => Seq::empty(),
        },
        filter: registered.1.filter.model(),
    }
}

/// Whether the announced changes are those of the callbacks, in their order.
pub open spec fn announces<K>(
    changes: Seq<PostgresChangeModel>,
    callbacks: Seq<(PostgresChangesEvent, PostgresChangeFilter, K)>,
) -> bool {
    &&& changes.len() == callbacks.len()
    &&& forall|i: int| 0 <= i < changes.len() ==> #[trigger] changes[i] == announced(callbacks[i])
}

/// Builder struct for [RealtimeChannel]
#[derive(Debug)]
pub struct RealtimeChannelBuilder<K, B, P> {
    pub topic: String,
    pub broadcast: BroadcastConfig,
    pub presence: PresenceConfig,
    pub id: String,
    pub postgres_changes: Vec<PostgresChange>,
    pub cdc_callbacks: Vec<(PostgresChangesEvent, PostgresChangeFilter, K)>,
    pub broadcast_callbacks: Vec<(String, B)>,
    pub presence_callbacks: Vec<(PresenceEvent, P)>,
}

impl<K, B, P> RealtimeChannelBuilder<K, B, P> {
    /// Whether the builder announces exactly the postgres changes that it has
    /// callbacks for.
    pub open spec fn wf(&self) -> bool {
        announces(self.postgres_changes.model(), self.cdc_callbacks@)
    }

    /// Whether nothing was said of the channel but its name.
    pub open spec fn is_fresh(&self, name: Seq<char>) -> bool {
        &&& self.topic@ == full_topic(name)
        &&& self.broadcast == (BroadcastConfig { broadcast_self: false, ack: false })
        &&& self.presence.key is None
        &&& self.postgres_changes@.len() == 0
        &&& self.cdc_callbacks@.len() == 0
        &&& self.broadcast_callbacks@.len() == 0
        &&& self.presence_callbacks@.len() == 0
    }

    pub fn new(topic: String) -> (builder: Self)
        ensures
            builder.is_fresh(topic@),
            is_random_uuid(builder.id@),
            builder.wf(),
    {
        Self::with_id(topic, random_identifier())
    }

    /// A builder for a channel with the given identifier.
    pub fn with_id(topic: String, id: String) -> (builder: Self)
        ensures
            builder.is_fresh(topic@),
            builder.id == id,
            builder.wf(),
    {
        RealtimeChannelBuilder {
            topic: write_topic(&topic),
            broadcast: BroadcastConfig::default(),
            presence: PresenceConfig::default(),
            id,
            postgres_changes: Vec::new(),
            cdc_callbacks: Vec::new(),
            broadcast_callbacks: Vec::new(),
            presence_callbacks: Vec::new(),
        }
    }

    /// Set the topic of the channel
    pub fn topic(self, topic: String) -> (builder: Self)
        ensures
            builder == (RealtimeChannelBuilder { topic: builder.topic, ..self }),
            builder.topic@ == full_topic(topic@),
    {
        RealtimeChannelBuilder { topic: write_topic(&topic), ..self }
    }

    /// Set the broadcast config for this channel
    pub fn broadcast(self, broadcast_config: BroadcastConfig) -> (builder: Self)
        ensures
            builder == (RealtimeChannelBuilder { broadcast: broadcast_config, ..self }),
    {
        RealtimeChannelBuilder { broadcast: broadcast_config, ..self }
    }

    /// Set the presence config for this channel
    pub fn presence(self, presence_config: PresenceConfig) -> (builder: Self)
        ensures
            builder == (RealtimeChannelBuilder { presence: presence_config, ..self }),
    {
        RealtimeChannelBuilder { presence: presence_config, ..self }
    }

    /// Add a postgres changes callback to this channel
    pub fn on_postgres_change(
        self,
        event: PostgresChangesEvent,
        filter: PostgresChangeFilter,
        callback: K,
    ) -> (builder: Self)
        ensures
            builder == (RealtimeChannelBuilder {
                postgres_changes: builder.postgres_changes,
                cdc_callbacks: builder.cdc_callbacks,
                ..self
            }),
            builder.postgres_changes.model() == self.postgres_changes.model().push(
                announced((event, filter, callback)),
            ),
            builder.cdc_callbacks@ == self.cdc_callbacks@.push((event, filter, callback)),
            self.wf() ==> builder.wf(),
    {
        let mut builder = self;
        let change = PostgresChange {
            event,
            schema: filter.schema.clone(),
            table: match &filter.table {
                Some(table) => table.clone(),
                None => String::new(),
            },
            filter: filter.filter.duplicate(),
        };
        builder.postgres_changes.push(change);
        builder.cdc_callbacks.push((event, filter, callback));
        proof {
            assert(builder.postgres_changes.model() =~= self.postgres_changes.model().push(
                announced((event, filter, callback)),
            ));
        }
        builder
    }

    /// Add a presence callback to this channel
    pub fn on_presence(self, event: PresenceEvent, callback: P) -> (builder: Self)
        ensures
            builder == (RealtimeChannelBuilder {
                presence_callbacks: builder.presence_callbacks,
                ..self
            }),
            builder.presence_callbacks@ == self.presence_callbacks@.push((event, callback)),
    {
        let mut builder = self;
        builder.presence_callbacks.push((event, callback));
        builder
    }

    /// Add a broadcast callback to this channel
    pub fn on_broadcast(self, event: String, callback: B) -> (builder: Self)
        ensures
            builder == (RealtimeChannelBuilder {
                broadcast_callbacks: builder.broadcast_callbacks,
                ..self
            }),
            builder.broadcast_callbacks@ == self.broadcast_callbacks@.push((event, callback)),
    {
        let mut builder = self;
        builder.broadcast_callbacks.push((event, callback));
        builder
    }

    /// Whether `channel` is the one that this builder makes with a way to the
    /// socket and an access token.
    pub open spec fn makes(
        &self,
        channel: RealtimeChannel<K, B, P>,
        client_tx: SocketTx,
        access_token: Seq<char>,
    ) -> bool {
        &&& channel.client_tx == client_tx
        &&& channel.topic == self.topic
        &&& channel.state == ChannelState::Closed
        &&& channel.id == self.id
        &&& channel.cdc_callbacks == self.cdc_callbacks
        &&& channel.broadcast_callbacks == self.broadcast_callbacks
        &&& channel.join_payload.config == (JoinConfig {
            broadcast: self.broadcast,
            presence: self.presence,
            postgres_changes: self.postgres_changes,
        })
        &&& channel.join_payload.access_token@ == access_token
        &&& channel.presence.state.model() == PresenceModel::empty()
        &&& channel.presence.callbacks == self.presence_callbacks
        &&& channel.listening
    }

    /// Makes the channel, closed and listening.
    pub fn build_common(self, client_tx: SocketTx, access_token: String) -> (channel:
        RealtimeChannel<K, B, P>)
        ensures
            self.makes(channel, client_tx, access_token@),
            self.wf() ==> channel.wf(),
    {
        RealtimeChannel {
            topic: self.topic,
            state: ChannelState::Closed,
            id: self.id,
            cdc_callbacks: self.cdc_callbacks,
            broadcast_callbacks: self.broadcast_callbacks,
            client_tx,
            join_payload: JoinPayload {
                config: JoinConfig {
                    broadcast: self.broadcast,
                    presence: self.presence,
                    postgres_changes: self.postgres_changes,
                },
                access_token,
            },
            presence: RealtimePresence::from_channel_builder(self.presence_callbacks),
            listening: true,
        }
    }
}

impl<K, B, P> RealtimeChannel<K, B, P> {
    /// Whether the channel announces, when it joins, exactly the postgres
    /// changes that it has callbacks for.
    pub open spec fn wf(&self) -> bool {
        announces(self.join_payload.config.postgres_changes.model(), self.cdc_callbacks@)
    }
}

/// Whatever a channel is asked for, is told of its messages or hears from the
/// server, it keeps its topic, its identifier, its callbacks and what it
/// announces when it joins; only its state, its token and its way to the socket
/// change.
pub proof fn channel_stays_itself<K, B, P>(
    before: RealtimeChannel<K, B, P>,
    after: RealtimeChannel<K, B, P>,
    request: ChannelManagerMessage,
    purpose: SendPurpose,
    outcome: Result<(), RealtimeMessage>,
    message: RealtimeMessage,
    action: ChannelAction,
    reaction: ChannelReaction,
)
    requires
        RealtimeChannel::was_asked(before, after, request, action) || RealtimeChannel::was_told(
            before,
            after,
            purpose,
            outcome,
            action,
        ) || RealtimeChannel::heard(before, after, message, reaction),
    ensures
        after.topic == before.topic,
        after.id == before.id,
        after.cdc_callbacks == before.cdc_callbacks,
        after.broadcast_callbacks == before.broadcast_callbacks,
        after.presence.callbacks == before.presence.callbacks,
        after.join_payload.config == before.join_payload.config,
        after.wf() == before.wf(),
{
}

/// Every message that a channel sends is on its own topic, and goes to the socket
/// that the channel was last given.
pub proof fn channel_sends_on_its_topic<K, B, P>(
    before: RealtimeChannel<K, B, P>,
    after: RealtimeChannel<K, B, P>,
    request: ChannelManagerMessage,
    action: ChannelAction,
)
    requires
        RealtimeChannel::was_asked(before, after, request, action),
    ensures
        action matches ChannelAction::Send { to, message, .. } ==> message.topic@ == before.topic@
            && to == before.client_tx,
{
}

/// A channel that is leaving sends nothing, unless it is asked to join again.
pub proof fn leaving_channel_is_silent<K, B, P>(
    before: RealtimeChannel<K, B, P>,
    after: RealtimeChannel<K, B, P>,
    request: ChannelManagerMessage,
    action: ChannelAction,
)
    requires
        RealtimeChannel::was_asked(before, after, request, action),
        before.state == ChannelState::Leaving,
        !(request is Subscribe || request is SubscribeBlocking),
    ensures
        !(action is Send),
        after.state == ChannelState::Leaving,
{
}

/// A channel joins by the reply to its own join request, and by nothing else.
pub proof fn only_the_join_reply_joins<K, B, P>(
    before: RealtimeChannel<K, B, P>,
    after: RealtimeChannel<K, B, P>,
    message: RealtimeMessage,
    reaction: ChannelReaction,
)
    requires
        RealtimeChannel::heard(before, after, message, reaction),
        before.state != ChannelState::Joined,
    ensures
        after.state == ChannelState::Joined <==> before.listening && (message.payload matches
            Payload::Response(response) && response.status == PayloadStatus::Success) && ref_text(
            message.message_ref,
        ) == before.id@,
{
}

/// The successful reply to a channel's join request has the channel joined.
pub proof fn joining_ends_joined<K, B, P>(
    before: RealtimeChannel<K, B, P>,
    joining: RealtimeChannel<K, B, P>,
    after: RealtimeChannel<K, B, P>,
    request: ChannelManagerMessage,
    action: ChannelAction,
    reply: RealtimeMessage,
    reaction: ChannelReaction,
)
    requires
        before.listening,
        request is Subscribe || request is SubscribeBlocking,
        RealtimeChannel::was_asked(before, joining, request, action),
        action matches ChannelAction::Send { message, .. } && reply.message_ref.model()
            == message.message_ref.model(),
        reply.payload matches Payload::Response(response) && response.status
            == PayloadStatus::Success,
        RealtimeChannel::heard(joining, after, reply, reaction),
    ensures
        after == (RealtimeChannel { state: ChannelState::Joined, ..before }),
{
}

/// The reply to a channel's request to leave ends its listening, for good.
pub proof fn leaving_ends_listening<K, B, P>(
    before: RealtimeChannel<K, B, P>,
    stopped: RealtimeChannel<K, B, P>,
    after: RealtimeChannel<K, B, P>,
    leave: RealtimeMessage,
    reply: RealtimeMessage,
    later: RealtimeMessage,
    first: ChannelReaction,
    second: ChannelReaction,
)
    requires
        before.is_leave(leave),
        reply.payload is Response,
        reply.message_ref.model() == leave.message_ref.model(),
        RealtimeChannel::heard(before, stopped, reply, first),
        RealtimeChannel::heard(stopped, after, later, second),
    ensures
        !stopped.listening,
        after == stopped,
        second is Unheard,
{
    reveal_strlit("+leave");
    assert(before.leave_ref().len() > before.id@.len());
}

/// The join request that follows a new access token carries it.
pub proof fn next_join_carries_new_token<K, B, P>(
    before: RealtimeChannel<K, B, P>,
    renewed: RealtimeChannel<K, B, P>,
    access_token: String,
    action: ChannelAction,
    join: RealtimeMessage,
)
    requires
        RealtimeChannel::was_asked(
            before,
            renewed,
            ChannelManagerMessage::ReAuth { access_token },
            action,
        ),
        renewed.is_join(join),
    ensures
        join.payload matches Payload::Join(payload) && payload.access_token@ == access_token@
            && payload.config.model() == before.join_payload.config.model(),
{
}

/// A broadcast reaches a callback if and only if the callback was registered
/// for the event of the broadcast.
pub proof fn broadcast_reaches_its_callbacks<K, B, P>(
    before: RealtimeChannel<K, B, P>,
    after: RealtimeChannel<K, B, P>,
    message: RealtimeMessage,
    reaction: ChannelReaction,
    place: int,
)
    requires
        before.listening,
        message.payload is Broadcast,
        RealtimeChannel::heard(before, after, message, reaction),
        0 <= place < before.broadcast_callbacks@.len(),
    ensures
        reaction is Broadcast,
        as_places(reaction->Broadcast_callbacks@).contains(place) <==> before.broadcast_callbacks@[place].0@
            == message.payload->Broadcast_0.event@,
{
    let event = message.payload->Broadcast_0.event@;
    chosen_places(
        before.broadcast_callbacks@.len() as int,
        before.hears_broadcast(event),
        place,
    );
}

/// A postgres change reaches a callback if and only if the callback was
/// registered for that kind of change or for all kinds, and its filter lets the
/// change pass.
pub proof fn change_reaches_its_callbacks<K, B, P>(
    before: RealtimeChannel<K, B, P>,
    after: RealtimeChannel<K, B, P>,
    message: RealtimeMessage,
    reaction: ChannelReaction,
    place: int,
)
    requires
        before.listening,
        message.payload is PostgresChanges,
        RealtimeChannel::heard(before, after, message, reaction),
        0 <= place < before.cdc_callbacks@.len(),
    ensures
        reaction is PostgresChanges,
        as_places(reaction->PostgresChanges_callbacks@).contains(place) <==> {
            let registered = before.cdc_callbacks@[place];
            &&& registered.0 == message.payload->PostgresChanges_0.data.change_type || registered.0
                == PostgresChangesEvent::All
            &&& registered.1.accepts(message)
        },
{
    let kind = message.payload->PostgresChanges_0.data.change_type;
    let count = before.cdc_callbacks@.len() as int;
    chosen_places(count, before.hears_change(kind, message), place);
    chosen_places(count, before.hears_change(PostgresChangesEvent::All, message), place);
    let first = before.change_places(kind, message);
    let second = before.change_places(PostgresChangesEvent::All, message);
    if first.contains(place) {
        assert((first + second)[first.index_of(place)] == place);
    }
    if second.contains(place) {
        assert((first + second)[first.len() + second.index_of(place)] == place);
    }
}

/// What a channel is asked for when there is a new connection, in this order: to
/// use the new way to the socket, and to join.
pub open spec fn is_rejoin(requests: Seq<ChannelManagerMessage>, new_tx: SocketTx) -> bool {
    &&& requests.len() == 2
    &&& requests[0] == ChannelManagerMessage::ClientTx { new_tx }
    &&& requests[1] is Subscribe
}

/// Returns what a channel is to be asked for when there is a new connection, one
/// after the other.
pub fn rejoin_requests(new_tx: SocketTx) -> (requests: Vec<ChannelManagerMessage>)
    ensures
        is_rejoin(requests@, new_tx),
{
    let mut requests: Vec<ChannelManagerMessage> = Vec::new();
    requests.push(ChannelManagerMessage::ClientTx { new_tx });
    requests.push(ChannelManagerMessage::Subscribe);
    requests
}

/// A channel that is asked, one after the other, for what a new connection asks
/// of it sends its join request to the new socket, whatever it did before.
pub proof fn rejoining_uses_the_new_socket<K, B, P>(
    before: RealtimeChannel<K, B, P>,
    between: RealtimeChannel<K, B, P>,
    after: RealtimeChannel<K, B, P>,
    requests: Seq<ChannelManagerMessage>,
    new_tx: SocketTx,
    first: ChannelAction,
    second: ChannelAction,
)
    requires
        is_rejoin(requests, new_tx),
        RealtimeChannel::was_asked(before, between, requests[0], first),
        RealtimeChannel::was_asked(between, after, requests[1], second),
    ensures
        first == ChannelAction::Reply(ChannelReply::Done),
        second matches ChannelAction::Send { to, message, purpose } && to == new_tx
            && before.is_join(message) && purpose == SendPurpose::Subscribe,
        after == (RealtimeChannel {
            client_tx: new_tx,
            state: ChannelState::Joining,
            ..before
        }),
{
}

} // verus!
