use realtime_rs::constants;
use realtime_rs::message::cdc_message_filter::CdcMessageFilter;
use realtime_rs::message::message_filter::{MessageFilter, MessageFilterEvent};
use realtime_rs::message::payload::{
    BroadcastConfig, BroadcastPayload, JoinConfig, JoinPayload, Payload, PostgresChange,
    PostgresChangeData, PostgresChangesEvent, PostgresChangesPayload, PresenceConfig,
    PresenceTrackPayload,
};
use realtime_rs::message::presence::PresenceEvent;
use realtime_rs::message::{MessageEvent, PostgresChangeFilter, RealtimeMessage};
use realtime_rs::string_map::StringMap;

fn text(value: &str) -> String {
    value.to_string()
}

fn change(kind: PostgresChangesEvent, schema: &str, table: &str) -> RealtimeMessage {
    RealtimeMessage {
        event: MessageEvent::PostgresChanges,
        topic: text("realtime:topic"),
        payload: Payload::PostgresChanges(PostgresChangesPayload {
            data: PostgresChangeData {
                columns: vec![],
                commit_timestamp: text("now"),
                errors: None,
                old_record: None,
                record: None,
                change_type: kind,
                schema: text(schema),
                table: text(table),
            },
            ids: vec![],
        }),
        message_ref: None,
    }
}

fn broadcast(event: &str) -> RealtimeMessage {
    RealtimeMessage {
        payload: Payload::Broadcast(BroadcastPayload::new(text(event), StringMap::new())),
        ..RealtimeMessage::default()
    }
}

#[test]
fn the_heartbeat_goes_to_phoenix() {
    let message = RealtimeMessage::heartbeat();
    assert_eq!(message.event, MessageEvent::Heartbeat);
    assert_eq!(message.topic, "phoenix");
    assert!(matches!(message.payload, Payload::Empty {}));
    assert_eq!(message.message_ref, Some(text("")));
}

#[test]
fn the_default_message_is_a_broadcast_without_event() {
    let message = RealtimeMessage::default();
    assert_eq!(message.event, MessageEvent::Broadcast);
    assert_eq!(message.topic, "");
    assert_eq!(message.message_ref, None);
    match message.payload {
        Payload::Broadcast(payload) => {
            assert_eq!(payload.event, "event_missing");
            assert_eq!(payload.broadcast_type, "broadcast");
            assert_eq!(payload.payload.len(), 0);
        }
        other => panic!("unexpected payload {:?}", other),
    }
}

#[test]
fn a_broadcast_payload_has_its_type() {
    let mut data = StringMap::new();
    data.insert(text("count"), serde_json::Value::from(3));
    let payload = BroadcastPayload::new(text("ev"), data);
    assert_eq!(payload.event, "ev");
    assert_eq!(payload.broadcast_type, "broadcast");
    assert_eq!(payload.payload.get(&text("count")), Some(&serde_json::Value::from(3)));
}

#[test]
fn tracked_data_has_the_track_event() {
    let mut data = StringMap::new();
    data.insert(text("who"), serde_json::Value::from("me"));
    let payload = PresenceTrackPayload::from(data);
    assert_eq!(payload.event, PresenceEvent::Track);
    assert_eq!(payload.payload.get(&text("who")), Some(&serde_json::Value::from("me")));
    assert_eq!(PresenceTrackPayload::default().payload.len(), 0);
}

#[test]
fn defaults_say_nothing() {
    let join = JoinPayload::default();
    assert_eq!(join.access_token, "");
    assert_eq!(join.config.broadcast, BroadcastConfig { broadcast_self: false, ack: false });
    assert!(PresenceConfig::default().key.is_none());
    assert!(JoinConfig::default().postgres_changes.is_empty());
    let change = PostgresChange::default();
    assert_eq!(change.event, PostgresChangesEvent::All);
    assert_eq!(change.schema, "");
    assert_eq!(change.table, "");
    assert!(change.filter.is_none());
    assert_eq!(constants::MessageEvent::default(), constants::MessageEvent::Broadcast);
    assert_eq!(constants::DEFAULT_TIMEOUT, 10000);
    assert_eq!(constants::WS_CLOSE_NORMAL, 1000);
}

#[test]
fn a_change_filter_goes_by_schema_and_table() {
    let filter = PostgresChangeFilter {
        schema: text("public"),
        table: Some(text("todos")),
        filter: Some(text("id=eq.1")),
    };
    assert!(filter.check(&change(PostgresChangesEvent::Insert, "public", "todos")));
    assert!(!filter.check(&change(PostgresChangesEvent::Insert, "public", "other")));
    assert!(!filter.check(&change(PostgresChangesEvent::Insert, "private", "todos")));
    assert!(!filter.check(&broadcast("todos")));
}

#[test]
fn a_change_filter_without_a_table_takes_every_table() {
    let filter = PostgresChangeFilter { schema: text("public"), ..Default::default() };
    assert!(filter.check(&change(PostgresChangesEvent::Delete, "public", "todos")));
    assert!(filter.check(&change(PostgresChangesEvent::Delete, "public", "other")));
    assert!(!filter.check(&change(PostgresChangesEvent::Delete, "", "todos")));
}

#[test]
fn a_cdc_filter_hands_back_what_passes() {
    let filter =
        CdcMessageFilter { schema: text("public"), table: Some(text("todos")), filter: None };
    let passed = filter.check(change(PostgresChangesEvent::Update, "public", "todos"));
    match passed.unwrap().payload {
        Payload::PostgresChanges(payload) => assert_eq!(payload.data.table, "todos"),
        other => panic!("unexpected payload {:?}", other),
    }
    assert!(filter.check(change(PostgresChangesEvent::Update, "public", "other")).is_none());
    assert!(filter.check(broadcast("x")).is_none());
    assert!(CdcMessageFilter::default()
        .check(change(PostgresChangesEvent::Update, "", "anything"))
        .is_some());
}

#[test]
fn a_filter_for_one_kind_of_change() {
    let filter = MessageFilter {
        event: MessageFilterEvent::PostgresCDC(PostgresChangesEvent::Insert),
        schema: text("public"),
        table: None,
        filter: None,
    };
    assert!(filter.clone().check(change(PostgresChangesEvent::Insert, "public", "t")).is_some());
    assert!(filter.clone().check(change(PostgresChangesEvent::Update, "public", "t")).is_none());
    assert!(filter.clone().check(change(PostgresChangesEvent::Insert, "other", "t")).is_none());
    assert!(filter.check(broadcast("x")).is_none());
}

#[test]
fn a_filter_for_all_kinds_takes_every_kind() {
    let filter = MessageFilter {
        event: MessageFilterEvent::PostgresCDC(PostgresChangesEvent::All),
        schema: text("public"),
        table: Some(text("t")),
        filter: None,
    };
    assert!(filter.clone().check(change(PostgresChangesEvent::Insert, "public", "t")).is_some());
    assert!(filter.clone().check(change(PostgresChangesEvent::Delete, "public", "t")).is_some());
    assert!(filter.check(change(PostgresChangesEvent::Delete, "public", "u")).is_none());
}

#[test]
fn a_filter_for_message_events_lets_nothing_pass() {
    let filter = MessageFilter {
        event: MessageFilterEvent::MessageEvent(MessageEvent::Broadcast),
        ..MessageFilter::default()
    };
    assert!(filter.check(broadcast("x")).is_none());
}

#[test]
fn a_filter_by_name_takes_broadcasts_and_quoted_events() {
    let named = |name: &str| MessageFilter {
        event: MessageFilterEvent::Custom(text(name)),
        ..MessageFilter::default()
    };
    assert!(named("x").check(broadcast("x")).is_some());
    assert!(named("x").check(broadcast("y")).is_none());
    // the event of a message is compared in its JSON form, quotes and all
    assert!(named("\"broadcast\"").check(broadcast("y")).is_some());
    assert!(named("broadcast").check(broadcast("y")).is_none());
    let heartbeat = RealtimeMessage::heartbeat();
    assert!(named("\"heartbeat\"").check(heartbeat.clone()).is_some());
    assert!(named("heartbeat").check(heartbeat).is_none());
    let changes = change(PostgresChangesEvent::Insert, "public", "t");
    assert!(named("\"postgres_changes\"").check(changes).is_some());
    assert!(matches!(MessageFilterEvent::default(), MessageFilterEvent::Custom(name) if name == ""));
}
