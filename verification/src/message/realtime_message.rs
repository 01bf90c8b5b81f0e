use vstd::prelude::*;

use crate::json::{json_plain, json_string, plain_text_is_only_quoted};
use crate::message::payload::Payload;
use crate::string_map::Deep;

verus! {

/// Structure of messages sent to and from the server
#[derive(Debug, Clone)]
pub struct RealtimeMessage {
    pub event: MessageEvent,
    pub topic: String,
    pub payload: Payload,
    pub message_ref: Option<String>,
}

impl RealtimeMessage {
    /// Whether the message is for `event` on `topic`, with the given reference.
    pub open spec fn is_for(
        &self,
        event: MessageEvent,
        topic: Seq<char>,
        message_ref: Option<Seq<char>>,
    ) -> bool {
        &&& self.event == event
        &&& self.topic@ == topic
        &&& self.message_ref.model() == message_ref
    }

    /// The message that keeps a connection open.
    pub fn heartbeat() -> (message: RealtimeMessage)
        ensures
            message.is_for(MessageEvent::Heartbeat, "phoenix"@, Some(""@)),
            message.payload is Empty,
    {
        RealtimeMessage {
            event: MessageEvent::Heartbeat,
            topic: "phoenix".to_owned(),
            payload: Payload::Empty {  },
            message_ref: Some("".to_owned()),
        }
    }
}

impl Default for RealtimeMessage {
    fn default() -> (message: Self)
        ensures
            message.is_for(MessageEvent::Broadcast, Seq::empty(), None),
            message.payload matches Payload::Broadcast(inner) && inner.is_default(),
    {
        RealtimeMessage {
            event: MessageEvent::default(),
            topic: String::new(),
            payload: Payload::default(),
            message_ref: None,
        }
    }
}

/// Realtime message event list
#[derive(Debug, Clone, Copy, PartialEq, Eq, Structural)]
pub enum MessageEvent {
    PhxClose,
    PhxError,
    PhxJoin,
    PhxReply,
    PhxLeave,
    AccessToken,
    Presence,
    System,
    Heartbeat,
    PostgresChanges,
    PresenceState,
    PresenceDiff,
    Track,
    Untrack,
    Broadcast,
}

impl Default for MessageEvent {
    fn default() -> (event: Self)
        ensures
            event == MessageEvent::Broadcast,
    {
        MessageEvent::Broadcast
    }
}

impl MessageEvent {
    /// The name that the event has in a message.
    pub open spec fn wire_name(self) -> Seq<char> {
        match self {
            MessageEvent::PhxClose => "phx_close"@,
            MessageEvent::PhxError => "phx_error"@,
            MessageEvent::PhxJoin => "phx_join"@,
            MessageEvent::PhxReply => "phx_reply"@,
            MessageEvent::PhxLeave => "phx_leave"@,
            MessageEvent::AccessToken => "access_token"@,
            MessageEvent::Presence => "presence"@,
            MessageEvent::System => "system"@,
            MessageEvent::Heartbeat => "heartbeat"@,
            MessageEvent::PostgresChanges => "postgres_changes"@,
            MessageEvent::PresenceState => "presence_state"@,
            MessageEvent::PresenceDiff => "presence_diff"@,
            MessageEvent::Track => "track"@,
            MessageEvent::Untrack => "untrack"@,
            MessageEvent::Broadcast => "broadcast"@,
        }
    }

    pub(crate) fn name(self) -> (name: &'static str)
        ensures
            name@ == self.wire_name(),
    {
        match self {
            MessageEvent::PhxClose => "phx_close",
            MessageEvent::PhxError => "phx_error",
            MessageEvent::PhxJoin => "phx_join",
            MessageEvent::PhxReply => "phx_reply",
            MessageEvent::PhxLeave => "phx_leave",
            MessageEvent::AccessToken => "access_token",
            MessageEvent::Presence => "presence",
            MessageEvent::System => "system",
            MessageEvent::Heartbeat => "heartbeat",
            MessageEvent::PostgresChanges => "postgres_changes",
            MessageEvent::PresenceState => "presence_state",
            MessageEvent::PresenceDiff => "presence_diff",
            MessageEvent::Track => "track",
            MessageEvent::Untrack => "untrack",
            MessageEvent::Broadcast => "broadcast",
        }
    }
}

/// A message's event, written as JSON, is its name between double quotes.
pub proof fn event_is_written_quoted(event: MessageEvent)
    ensures
        json_string(event.wire_name()) == seq!['"'] + event.wire_name() + seq!['"'],
{
    let name = event.wire_name();
    match event {
        MessageEvent::PhxClose => {
            reveal_strlit("phx_close");
            assert(name =~= seq!['p', 'h', 'x', '_', 'c', 'l', 'o', 's', 'e']);
        },
        MessageEvent::PhxError => {
            reveal_strlit("phx_error");
            assert(name =~= seq!['p', 'h', 'x', '_', 'e', 'r', 'r', 'o', 'r']);
        },
        MessageEvent::PhxJoin => {
            reveal_strlit("phx_join");
            assert(name =~= seq!['p', 'h', 'x', '_', 'j', 'o', 'i', 'n']);
        },
        MessageEvent::PhxReply => {
            reveal_strlit("phx_reply");
            assert(name =~= seq!['p', 'h', 'x', '_', 'r', 'e', 'p', 'l', 'y']);
        },
        MessageEvent::PhxLeave => {
            reveal_strlit("phx_leave");
            assert(name =~= seq!['p', 'h', 'x', '_', 'l', 'e', 'a', 'v', 'e']);
        },
        MessageEvent::AccessToken => {
            reveal_strlit("access_token");
            assert(name =~= seq!['a', 'c', 'c', 'e', 's', 's', '_', 't', 'o', 'k', 'e', 'n']);
        },
        MessageEvent::Presence => {
            reveal_strlit("presence");
            assert(name =~= seq!['p', 'r', 'e', 's', 'e', 'n', 'c', 'e']);
        },
        MessageEvent::System => {
            reveal_strlit("system");
            assert(name =~= seq!['s', 'y', 's', 't', 'e', 'm']);
        },
        MessageEvent::Heartbeat => {
            reveal_strlit("heartbeat");
            assert(name =~= seq!['h', 'e', 'a', 'r', 't', 'b', 'e', 'a', 't']);
        },
        MessageEvent::PostgresChanges => {
            reveal_strlit("postgres_changes");
            assert(name =~= seq!['p', 'o', 's', 't', 'g', 'r', 'e', 's', '_', 'c', 'h', 'a', 'n', 'g', 'e', 's']);
        },
        MessageEvent::PresenceState => {
            reveal_strlit("presence_state");
            assert(name =~= seq!['p', 'r', 'e', 's', 'e', 'n', 'c', 'e', '_', 's', 't', 'a', 't', 'e']);
        },
        MessageEvent::PresenceDiff => {
            reveal_strlit("presence_diff");
            assert(name =~= seq!['p', 'r', 'e', 's', 'e', 'n', 'c', 'e', '_', 'd', 'i', 'f', 'f']);
        },
        MessageEvent::Track => {
            reveal_strlit("track");
            assert(name =~= seq!['t', 'r', 'a', 'c', 'k']);
        },
        MessageEvent::Untrack => {
            reveal_strlit("untrack");
            assert(name =~= seq!['u', 'n', 't', 'r', 'a', 'c', 'k']);
        },
        MessageEvent::Broadcast => {
            reveal_strlit("broadcast");
            assert(name =~= seq!['b', 'r', 'o', 'a', 'd', 'c', 'a', 's', 't']);
        },
    }
    assert forall|i: int| 0 <= i < name.len() implies json_plain(#[trigger] name[i]) by {}
    plain_text_is_only_quoted(name);
}

} // verus!
