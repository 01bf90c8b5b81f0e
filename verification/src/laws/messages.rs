//! Messages, and the filters that let them pass.
use vstd::prelude::*;

use crate::constants;
use crate::duration::Duration;
use crate::json::json_string;
use crate::message::cdc_message_filter::CdcMessageFilter;
use crate::message::event_is_written_quoted;
use crate::message::message_filter::{MessageFilter, MessageFilterEvent};
use crate::message::payload::{
    BroadcastConfig, BroadcastPayload, JoinConfig, JoinPayload, Payload, PostgresChange,
    PostgresChangesEvent, PresenceConfig, PresenceTrackPayload,
};
use crate::message::presence::{PresenceEvent, RawPresenceMeta, RawPresenceMetas, StateData};
use crate::message::{MessageEvent, PostgresChangeFilter, RealtimeMessage};
use crate::string_map::Deep;

verus! {

/// A change passes a filter if and only if its schema is the filter's schema,
/// character for character, and its table is the filter's table, if the filter
/// names one. Nothing else passes.
pub proof fn changes_pass_by_schema_and_table(
    filter: PostgresChangeFilter,
    message: RealtimeMessage,
    passes: bool,
)
    requires
        call_ensures(PostgresChangeFilter::check, (&filter, &message), passes),
    ensures
        passes ==> message.payload is PostgresChanges,
        message.payload matches Payload::PostgresChanges(payload) ==> (passes <==> {
            &&& payload.data.schema@ == filter.schema@
            &&& match filter.table {
                Some(table) => payload.data.table@ == table@,
                None => true,
            }
        }),
{
}

/// A filter that hands changes back hands back exactly those of its schema and
/// table, as they came.
pub proof fn changes_come_back_by_schema_and_table(
    filter: CdcMessageFilter,
    message: RealtimeMessage,
    passed: Option<RealtimeMessage>,
)
    requires
        call_ensures(CdcMessageFilter::check, (&filter, message), passed),
    ensures
        passed matches Some(back) ==> back == message && message.payload is PostgresChanges,
        message.payload matches Payload::PostgresChanges(payload) ==> (passed is Some <==> {
            &&& payload.data.schema@ == filter.schema@
            &&& match filter.table {
                Some(table) => payload.data.table@ == table@,
                None => true,
            }
        }),
{
}

/// A filter for a kind of change hands back exactly the changes of that kind, or
/// of every kind where it is for all, that are of its schema and table.
pub proof fn changes_come_back_by_kind(
    filter: MessageFilter,
    kind: PostgresChangesEvent,
    message: RealtimeMessage,
    passed: Option<RealtimeMessage>,
)
    requires
        call_ensures(MessageFilter::check, (filter, message), passed),
        filter.event == MessageFilterEvent::PostgresCDC(kind),
    ensures
        passed matches Some(back) ==> back == message && message.payload is PostgresChanges,
        message.payload matches Payload::PostgresChanges(payload) ==> (passed is Some <==> {
            &&& payload.data.schema@ == filter.schema@
            &&& match filter.table {
                Some(table) => payload.data.table@ == table@,
                None => true,
            }
            &&& kind == payload.data.change_type || kind == PostgresChangesEvent::All
        }),
{
}

/// A filter for a message event hands nothing back.
pub proof fn message_events_do_not_come_back(
    filter: MessageFilter,
    message: RealtimeMessage,
    passed: Option<RealtimeMessage>,
)
    requires
        call_ensures(MessageFilter::check, (filter, message), passed),
        filter.event is MessageEvent,
    ensures
        passed is None,
{
}

/// The event of a message as JSON has it.
pub open spec fn written_event(event: MessageEvent) -> Seq<char> {
    match event {
        MessageEvent::PhxClose => "\"phx_close\""@,
        MessageEvent::PhxError => "\"phx_error\""@,
        MessageEvent::PhxJoin => "\"phx_join\""@,
        MessageEvent::PhxReply => "\"phx_reply\""@,
        MessageEvent::PhxLeave => "\"phx_leave\""@,
        MessageEvent::AccessToken => "\"access_token\""@,
        MessageEvent::Presence => "\"presence\""@,
        MessageEvent::System => "\"system\""@,
        MessageEvent::Heartbeat => "\"heartbeat\""@,
        MessageEvent::PostgresChanges => "\"postgres_changes\""@,
        MessageEvent::PresenceState => "\"presence_state\""@,
        MessageEvent::PresenceDiff => "\"presence_diff\""@,
        MessageEvent::Track => "\"track\""@,
        MessageEvent::Untrack => "\"untrack\""@,
        MessageEvent::Broadcast => "\"broadcast\""@,
    }
}

proof fn lemma_written_event(event: MessageEvent)
    ensures
        json_string(event.wire_name()) == written_event(event),
{
    event_is_written_quoted(event);
    match event {
        MessageEvent::PhxClose => {
            reveal_strlit("phx_close");
            reveal_strlit("\"phx_close\"");
        },
        MessageEvent::PhxError => {
            reveal_strlit("phx_error");
            reveal_strlit("\"phx_error\"");
        },
        MessageEvent::PhxJoin => {
            reveal_strlit("phx_join");
            reveal_strlit("\"phx_join\"");
        },
        MessageEvent::PhxReply => {
            reveal_strlit("phx_reply");
            reveal_strlit("\"phx_reply\"");
        },
        MessageEvent::PhxLeave => {
            reveal_strlit("phx_leave");
            reveal_strlit("\"phx_leave\"");
        },
        MessageEvent::AccessToken => {
            reveal_strlit("access_token");
            reveal_strlit("\"access_token\"");
        },
        MessageEvent::Presence => {
            reveal_strlit("presence");
            reveal_strlit("\"presence\"");
        },
        MessageEvent::System => {
            reveal_strlit("system");
            reveal_strlit("\"system\"");
        },
        MessageEvent::Heartbeat => {
            reveal_strlit("heartbeat");
            reveal_strlit("\"heartbeat\"");
        },
        MessageEvent::PostgresChanges => {
            reveal_strlit("postgres_changes");
            reveal_strlit("\"postgres_changes\"");
        },
        MessageEvent::PresenceState => {
            reveal_strlit("presence_state");
            reveal_strlit("\"presence_state\"");
        },
        MessageEvent::PresenceDiff => {
            reveal_strlit("presence_diff");
            reveal_strlit("\"presence_diff\"");
        },
        MessageEvent::Track => {
            reveal_strlit("track");
            reveal_strlit("\"track\"");
        },
        MessageEvent::Untrack => {
            reveal_strlit("untrack");
            reveal_strlit("\"untrack\"");
        },
        MessageEvent::Broadcast => {
            reveal_strlit("broadcast");
            reveal_strlit("\"broadcast\"");
        },
    }
    assert(seq!['"'] + event.wire_name() + seq!['"'] =~= written_event(event));
}

/// A filter by name hands back exactly the broadcasts of that name, and the
/// messages whose event, as JSON has it, is that name.
pub proof fn names_come_back(
    filter: MessageFilter,
    name: String,
    message: RealtimeMessage,
    passed: Option<RealtimeMessage>,
)
    requires
        call_ensures(MessageFilter::check, (filter, message), passed),
        filter.event == MessageFilterEvent::Custom(name),
    ensures
        passed matches Some(back) ==> back == message,
        passed is Some <==> {
            ||| message.payload matches Payload::Broadcast(payload) && payload.event@ == name@
            ||| name@ == written_event(message.event)
        },
{
    lemma_written_event(message.event);
}

/// What keeps a connection open is a heartbeat on the topic of the socket
/// itself, with nothing in it.
pub proof fn heartbeat_is_empty(message: RealtimeMessage)
    requires
        call_ensures(RealtimeMessage::heartbeat, (), message),
    ensures
        message.event == MessageEvent::Heartbeat,
        message.topic@ == "phoenix"@,
        message.payload is Empty,
        message.message_ref matches Some(text) && text@ == ""@,
{
}

/// A broadcast payload holds the event and the data that it was made of.
pub proof fn broadcast_payload_holds_its_data(
    event: String,
    data: StateData,
    payload: BroadcastPayload,
)
    requires
        call_ensures(BroadcastPayload::new, (event, data), payload),
    ensures
        payload.event@ == event@,
        payload.payload == data,
        payload.broadcast_type@ == "broadcast"@,
{
}

/// What is to be tracked is tracked as it is.
pub proof fn tracked_data_stays(data: StateData, payload: PresenceTrackPayload)
    requires
        call_ensures(<PresenceTrackPayload as From<StateData>>::from, (data,), payload),
    ensures
        payload.event == PresenceEvent::Track,
        payload.payload == data,
{
}

/// Whether two texts, if there are any, are the same.
pub open spec fn same_text(a: Option<String>, b: Option<String>) -> bool {
    match (a, b) {
        (Some(a), Some(b)) => a@ == b@,
        (None, None) => true,
        _ => false,
    }
}

/// Whether two announced changes say the same.
pub open spec fn same_change(a: PostgresChange, b: PostgresChange) -> bool {
    &&& a.event == b.event
    &&& a.schema@ == b.schema@
    &&& a.table@ == b.table@
    &&& same_text(a.filter, b.filter)
}

/// Whether two configurations say the same.
pub open spec fn same_config(a: JoinConfig, b: JoinConfig) -> bool {
    &&& a.broadcast == b.broadcast
    &&& same_text(a.presence.key, b.presence.key)
    &&& a.postgres_changes@.len() == b.postgres_changes@.len()
    &&& forall|i: int|
        0 <= i < a.postgres_changes@.len() ==> same_change(
            #[trigger] a.postgres_changes@[i],
            b.postgres_changes@[i],
        )
}

pub(crate) proof fn lemma_same_config(a: JoinConfig, b: JoinConfig)
    requires
        a.model() == b.model(),
    ensures
        same_config(a, b),
{
    assert(a.postgres_changes.model().len() == b.postgres_changes.model().len());
    assert forall|i: int| 0 <= i < a.postgres_changes@.len() implies same_change(
        #[trigger] a.postgres_changes@[i],
        b.postgres_changes@[i],
    ) by {
        assert(a.postgres_changes.model()[i] == a.postgres_changes@[i].model());
        assert(b.postgres_changes.model()[i] == b.postgres_changes@[i].model());
    }
}

/// A copy of what a channel announces when it joins says the same.
pub proof fn copied_join_says_the_same(payload: JoinPayload, copy: JoinPayload)
    requires
        call_ensures(<JoinPayload as Deep>::duplicate, (&payload,), copy),
    ensures
        copy.access_token@ == payload.access_token@,
        same_config(copy.config, payload.config),
{
    lemma_same_config(copy.config, payload.config);
}

/// A copy of a configuration says the same.
pub proof fn copied_config_says_the_same(config: JoinConfig, copy: JoinConfig)
    requires
        call_ensures(<JoinConfig as Deep>::duplicate, (&config,), copy),
    ensures
        same_config(copy, config),
{
    lemma_same_config(copy, config);
}

/// A copy of an announced change says the same.
pub proof fn copied_change_says_the_same(change: PostgresChange, copy: PostgresChange)
    requires
        call_ensures(<PostgresChange as Deep>::duplicate, (&change,), copy),
    ensures
        same_change(copy, change),
{
}

/// A span is below a second if and only if it has no whole second and less than
/// a thousand million nanoseconds.
pub proof fn short_spans_are_below_a_second(span: Duration, below: bool)
    requires
        call_ensures(Duration::is_below_second, (&span,), below),
    ensures
        below <==> span.secs == 0 && span.nanos < 1_000_000_000,
{
}

/// A span of whole seconds has just these.
pub proof fn whole_seconds(secs: u64, span: Duration)
    requires
        call_ensures(Duration::from_secs, (secs,), span),
    ensures
        span.secs == secs,
        span.nanos == 0,
{
}

/// Whether a payload is the broadcast of which nothing was said.
pub open spec fn is_default_broadcast(payload: BroadcastPayload) -> bool {
    &&& payload.event@ == "event_missing"@
    &&& forall|key: Seq<char>| !#[trigger] payload.payload@.contains_key(key)
    &&& payload.broadcast_type@ == "broadcast"@
}

/// A message of which nothing was said is a broadcast on no topic.
pub proof fn default_message_is_a_broadcast(
    message: RealtimeMessage,
    payload: Payload,
    broadcast: BroadcastPayload,
    event: MessageEvent,
    plain: constants::MessageEvent,
)
    requires
        call_ensures(<RealtimeMessage as Default>::default, (), message),
        call_ensures(<Payload as Default>::default, (), payload),
        call_ensures(<BroadcastPayload as Default>::default, (), broadcast),
        call_ensures(<MessageEvent as Default>::default, (), event),
        call_ensures(<constants::MessageEvent as Default>::default, (), plain),
    ensures
        event == MessageEvent::Broadcast,
        plain == constants::MessageEvent::Broadcast,
        message.event == event,
        message.topic@.len() == 0,
        message.message_ref is None,
        message.payload matches Payload::Broadcast(inner) && is_default_broadcast(inner),
        payload matches Payload::Broadcast(inner) && is_default_broadcast(inner),
        is_default_broadcast(broadcast),
{
}

/// A configuration of which nothing was said asks for nothing.
pub proof fn default_config_asks_for_nothing(
    payload: JoinPayload,
    config: JoinConfig,
    broadcast: BroadcastConfig,
    presence: PresenceConfig,
    kind: PostgresChangesEvent,
    change: PostgresChange,
)
    requires
        call_ensures(<JoinPayload as Default>::default, (), payload),
        call_ensures(<JoinConfig as Default>::default, (), config),
        call_ensures(<BroadcastConfig as Default>::default, (), broadcast),
        call_ensures(<PresenceConfig as Default>::default, (), presence),
        call_ensures(<PostgresChangesEvent as Default>::default, (), kind),
        call_ensures(<PostgresChange as Default>::default, (), change),
    ensures
        !broadcast.broadcast_self && !broadcast.ack,
        presence.key is None,
        config.broadcast == broadcast,
        config.presence.key is None,
        config.postgres_changes@.len() == 0,
        same_config(payload.config, config),
        payload.access_token@.len() == 0,
        kind == PostgresChangesEvent::All,
        change.event == kind,
        change.schema@.len() == 0,
        change.table@.len() == 0,
        change.filter is None,
{
}

/// A filter of which nothing was said names no schema, no table and no rows.
pub proof fn default_filters_name_nothing(
    filter: PostgresChangeFilter,
    changes: CdcMessageFilter,
    messages: MessageFilter,
    event: MessageFilterEvent,
)
    requires
        call_ensures(<PostgresChangeFilter as Default>::default, (), filter),
        call_ensures(<CdcMessageFilter as Default>::default, (), changes),
        call_ensures(<MessageFilter as Default>::default, (), messages),
        call_ensures(<MessageFilterEvent as Default>::default, (), event),
    ensures
        filter.schema@.len() == 0 && filter.table is None && filter.filter is None,
        changes.schema@.len() == 0 && changes.table is None && changes.filter is None,
        messages.schema@.len() == 0 && messages.table is None && messages.filter is None,
        messages.event matches MessageFilterEvent::Custom(name) && name@.len() == 0,
        event matches MessageFilterEvent::Custom(name) && name@.len() == 0,
{
    reveal_strlit("");
}

/// Presence data of which nothing was said is empty, and is there to be tracked.
pub proof fn default_presence_data_is_empty(
    payload: PresenceTrackPayload,
    meta: RawPresenceMeta,
    metas: RawPresenceMetas,
    key: Seq<char>,
)
    requires
        call_ensures(<PresenceTrackPayload as Default>::default, (), payload),
        call_ensures(<RawPresenceMeta as Default>::default, (), meta),
        call_ensures(<RawPresenceMetas as Default>::default, (), metas),
    ensures
        payload.event == PresenceEvent::Track,
        !payload.payload@.contains_key(key),
        meta.phx_ref@.len() == 0,
        !meta.state_data@.contains_key(key),
        metas.metas@.len() == 0,
{
}

} // verus!
