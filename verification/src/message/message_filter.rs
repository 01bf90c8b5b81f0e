use vstd::prelude::*;

use crate::json::{json_string, text_to_json};
use crate::message::payload::{Payload, PostgresChangesEvent};
use crate::message::postgres_change_filter::{in_table, is_in_table, reports_change};
use crate::message::realtime_message::{MessageEvent, RealtimeMessage};
use crate::string_map::Deep;

verus! {

#[derive(Debug, Clone)]
pub enum MessageFilterEvent {
    PostgresCDC(PostgresChangesEvent),
    MessageEvent(MessageEvent),
    Custom(String),
}

impl Default for MessageFilterEvent {
    fn default() -> (event: Self)
        ensures
            event matches MessageFilterEvent::Custom(name) && name@ == ""@,
    {
        MessageFilterEvent::Custom("".to_owned())
    }
}

/// A filter by kind of event
#[derive(Debug, Clone)]
pub struct MessageFilter {
    pub event: MessageFilterEvent,
    pub schema: String,
    pub table: Option<String>,
    pub filter: Option<String>,
}

impl Default for MessageFilter {
    fn default() -> (filter: Self)
        ensures
            filter.event matches MessageFilterEvent::Custom(name) && name@ == ""@,
            filter.schema@ == Seq::<char>::empty(),
            filter.table is None,
            filter.filter is None,
    {
        MessageFilter {
            event: MessageFilterEvent::default(),
            schema: String::new(),
            table: None,
            filter: None,
        }
    }
}

impl MessageFilter {
    /// Whether a message passes the filter.
    ///
    /// - A filter for changes lets pass the changes of its schema and table
    ///   that are of its kind.
    /// - A filter for message events lets nothing pass.
    /// - A filter by name lets pass the broadcasts of that name, and every
    ///   message whose event, written as JSON, is that name.
    pub open spec fn accepts(&self, message: RealtimeMessage) -> bool {
        match self.event {
            MessageFilterEvent::PostgresCDC(kind) => {
                message.payload matches Payload::PostgresChanges(payload) && {
                    &&& in_table(payload.data, self.schema@, self.table.model())
                    &&& kind == PostgresChangesEvent::All || payload.data.change_type == kind
                }
            },
            MessageFilterEvent::MessageEvent(_) => false,
            MessageFilterEvent::Custom(name) => {
                ||| message.payload matches Payload::Broadcast(payload) && payload.event@ == name@
                ||| name@ == json_string(message.event.wire_name())
            },
        }
    }

    /// Hands back the messages that pass the filter, and drops all others.
    pub fn check(self, message: RealtimeMessage) -> (passed: Option<RealtimeMessage>)
        ensures
            passed == (if self.accepts(message) {
                Some(message)
            } else {
                None
            }),
    {
        match &self.event {
            MessageFilterEvent::PostgresCDC(kind) => {
                let passes: bool = match &message.payload {
                    Payload::PostgresChanges(payload) => is_in_table(
                        &payload.data,
                        &self.schema,
                        &self.table,
                    ) && (*kind == PostgresChangesEvent::All || payload.data.change_type == *kind),
                    _ => false,
                };
                if passes {
                    return Some(message);
                }
            },
            MessageFilterEvent::MessageEvent(_event) => {},
            MessageFilterEvent::Custom(name) => {
                let broadcast: bool = match &message.payload {
                    Payload::Broadcast(payload) => *name == payload.event,
                    _ => false,
                };
                if broadcast {
                    return Some(message);
                }
                match text_to_json(message.event.name()) {
                    Ok(written) => {
                        if *name == written {
                            return Some(message);
                        }
                    },
                    Err(_) => {},
                }
            },
        }
        None
    }
}

/// A filter for all changes lets pass the messages that report a change of its
/// schema and table, of whatever kind; a filter for one kind lets pass those of
/// them that are of that kind.
pub proof fn kind_narrows_all(filter: MessageFilter, all: MessageFilter, message: RealtimeMessage)
    requires
        filter.event is PostgresCDC,
        all == (MessageFilter {
            event: MessageFilterEvent::PostgresCDC(PostgresChangesEvent::All),
            ..filter
        }),
    ensures
        all.accepts(message) == reports_change(message, filter.schema@, filter.table.model()),
        filter.accepts(message) ==> all.accepts(message),
        all.accepts(message) ==> (filter.accepts(message) <==> {
            let kind = filter.event->PostgresCDC_0;
            kind == PostgresChangesEvent::All
                || message.payload->PostgresChanges_0.data.change_type == kind
        }),
{
}

} // verus!
