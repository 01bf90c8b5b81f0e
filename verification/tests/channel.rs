use realtime_rs::message::payload::{
    BroadcastConfig, BroadcastPayload, JoinResponsePayload, Payload, PayloadStatus,
    PostgresChangeData, PostgresChangesEvent, PostgresChangesList, PostgresChangesPayload,
    PresenceConfig,
};
use realtime_rs::message::presence::{
    PresenceEvent, RawPresenceDiff, RawPresenceMeta, RawPresenceMetas, RawPresenceState,
};
use realtime_rs::message::{MessageEvent, PostgresChangeFilter, RealtimeMessage};
use realtime_rs::realtime_channel::{
    ChannelAction, ChannelManagerMessage, ChannelReaction, ChannelReply, ChannelSendError,
    rejoin_requests, ChannelState, RealtimeChannel, RealtimeChannelBuilder, SendPurpose, SocketTx,
};
use realtime_rs::string_map::StringMap;

type Channel = RealtimeChannel<&'static str, &'static str, &'static str>;

fn text(value: &str) -> String {
    value.to_string()
}

fn channel() -> Channel {
    RealtimeChannelBuilder::with_id(text("room"), text("id-1")).build_common(SocketTx { id: 1 }, text("token"))
}

fn in_state(state: ChannelState) -> Channel {
    let mut channel = channel();
    channel.state = state;
    channel
}

fn reply(message_ref: Option<&str>, status: PayloadStatus) -> RealtimeMessage {
    RealtimeMessage {
        event: MessageEvent::PhxReply,
        topic: text("realtime:room"),
        payload: Payload::Response(JoinResponsePayload {
            response: PostgresChangesList { postgres_changes: vec![] },
            status,
        }),
        message_ref: message_ref.map(text),
    }
}

fn change(kind: PostgresChangesEvent, table: &str) -> RealtimeMessage {
    RealtimeMessage {
        event: MessageEvent::PostgresChanges,
        topic: text("realtime:room"),
        payload: Payload::PostgresChanges(PostgresChangesPayload {
            data: PostgresChangeData {
                columns: vec![],
                commit_timestamp: text("now"),
                errors: None,
                old_record: None,
                record: None,
                change_type: kind,
                schema: text("public"),
                table: text(table),
            },
            ids: vec![4],
        }),
        message_ref: None,
    }
}

fn broadcast(event: &str) -> RealtimeMessage {
    let mut data = StringMap::new();
    data.insert(text("count"), serde_json::Value::from(5));
    RealtimeMessage {
        payload: Payload::Broadcast(BroadcastPayload::new(text(event), data)),
        ..RealtimeMessage::default()
    }
}

fn sent(action: ChannelAction) -> (RealtimeMessage, SendPurpose) {
    match action {
        ChannelAction::Send { to, message, purpose } => {
            assert_eq!(to, SocketTx { id: 1 });
            (message, purpose)
        }
        other => panic!("nothing to send: {:?}", other),
    }
}

#[test]
fn a_new_builder_names_the_topic_and_draws_an_id() {
    let one: RealtimeChannelBuilder<(), (), ()> = RealtimeChannelBuilder::new(text("room"));
    let two: RealtimeChannelBuilder<(), (), ()> = RealtimeChannelBuilder::new(text("room"));
    assert_eq!(one.topic, "realtime:room");
    assert_eq!(one.broadcast, BroadcastConfig { broadcast_self: false, ack: false });
    assert!(one.presence.key.is_none());
    assert!(one.postgres_changes.is_empty());
    assert_eq!(one.id.len(), 36);
    assert_eq!(one.id.as_bytes()[14], b'4');
    assert_ne!(one.id, two.id);
    assert_eq!(one.topic(text("other")).topic, "realtime:other");
}

#[test]
fn a_built_channel_is_closed_and_announces_its_callbacks() {
    let built: Channel = RealtimeChannelBuilder::with_id(text("room"), text("id-1"))
        .broadcast(BroadcastConfig { broadcast_self: true, ack: false })
        .presence(PresenceConfig { key: Some(text("key")) })
        .on_postgres_change(
            PostgresChangesEvent::Insert,
            PostgresChangeFilter {
                schema: text("public"),
                table: Some(text("todos")),
                filter: Some(text("id=eq.1")),
            },
            "todos",
        )
        .on_postgres_change(
            PostgresChangesEvent::All,
            PostgresChangeFilter { schema: text("public"), table: None, filter: None },
            "all",
        )
        .on_presence(PresenceEvent::Sync, "sync")
        .on_broadcast(text("ev"), "broadcast")
        .build_common(SocketTx { id: 1 }, text("token"));
    assert_eq!(built.state, ChannelState::Closed);
    assert!(built.listening);
    assert_eq!(built.join_payload.access_token, "token");
    assert!(built.join_payload.config.broadcast.broadcast_self);
    assert_eq!(built.join_payload.config.presence.key, Some(text("key")));
    let announced = &built.join_payload.config.postgres_changes;
    assert_eq!(announced.len(), 2);
    assert_eq!(announced[0].event, PostgresChangesEvent::Insert);
    assert_eq!(announced[0].schema, "public");
    assert_eq!(announced[0].table, "todos");
    assert_eq!(announced[0].filter, Some(text("id=eq.1")));
    assert_eq!(announced[1].event, PostgresChangesEvent::All);
    assert_eq!(announced[1].table, "");
    assert_eq!(announced[1].filter, None);
    assert_eq!(built.presence.callbacks.len(), 1);
    assert_eq!(built.broadcast_callbacks[0].0, "ev");
}

#[test]
fn subscribing_asks_to_join() {
    let mut channel = channel();
    let (message, purpose) = sent(channel.manager_recv(ChannelManagerMessage::Subscribe));
    assert_eq!(purpose, SendPurpose::Subscribe);
    assert_eq!(message.event, MessageEvent::PhxJoin);
    assert_eq!(message.topic, "realtime:room");
    assert_eq!(message.message_ref, Some(text("id-1")));
    match message.payload {
        Payload::Join(join) => assert_eq!(join.access_token, "token"),
        other => panic!("unexpected payload {:?}", other),
    }
    assert_eq!(channel.state, ChannelState::Joining);
    assert!(!channel.is_joined());
    assert!(matches!(channel.sent(SendPurpose::Subscribe, Ok(())), ChannelAction::Nothing));
}

#[test]
fn a_blocking_subscription_waits_for_the_reply() {
    let mut channel = channel();
    let (message, purpose) = sent(channel.manager_recv(ChannelManagerMessage::SubscribeBlocking));
    assert_eq!(purpose, SendPurpose::SubscribeBlocking);
    assert_eq!(message.event, MessageEvent::PhxJoin);
    assert!(matches!(channel.sent(purpose, Ok(())), ChannelAction::AwaitJoined));
    let reaction = channel.client_recv(reply(Some("id-1"), PayloadStatus::Success));
    assert!(matches!(reaction, ChannelReaction::JoinReply));
    assert!(channel.is_joined());
}

#[test]
fn a_refused_join_leaves_the_channel_joining() {
    let mut channel = in_state(ChannelState::Joining);
    let reaction = channel.client_recv(reply(Some("id-1"), PayloadStatus::Error));
    assert!(matches!(reaction, ChannelReaction::JoinReply));
    assert_eq!(channel.state, ChannelState::Joining);
    assert!(channel.listening);
}

#[test]
fn a_reply_to_something_else_ends_the_listening() {
    for message_ref in [Some("id-1+leave"), Some("other"), None] {
        let mut channel = in_state(ChannelState::Joined);
        let reaction = channel.client_recv(reply(message_ref, PayloadStatus::Success));
        assert!(matches!(reaction, ChannelReaction::Stopped));
        assert!(!channel.listening);
        assert_eq!(channel.state, ChannelState::Joined);
        let later = channel.client_recv(broadcast("ev"));
        assert!(matches!(later, ChannelReaction::Unheard));
    }
}

#[test]
fn leaving_sends_the_leave_message() {
    let mut channel = in_state(ChannelState::Joined);
    let (message, purpose) = sent(channel.manager_recv(ChannelManagerMessage::Unsubscribe));
    assert_eq!(purpose, SendPurpose::Unsubscribe);
    assert_eq!(message.event, MessageEvent::PhxLeave);
    assert_eq!(message.topic, "realtime:room");
    assert_eq!(message.message_ref, Some(text("id-1+leave")));
    assert!(matches!(message.payload, Payload::Empty {}));
    assert_eq!(channel.state, ChannelState::Joined);
    match channel.sent(purpose, Ok(())) {
        ChannelAction::Reply(ChannelReply::Left(Ok(state))) => {
            assert_eq!(state, ChannelState::Leaving)
        }
        other => panic!("unexpected action {:?}", other),
    }
    assert_eq!(channel.state, ChannelState::Leaving);
}

#[test]
fn a_leave_message_that_comes_back_is_reported() {
    let mut channel = in_state(ChannelState::Errored);
    let (message, purpose) = sent(channel.manager_recv(ChannelManagerMessage::Unsubscribe));
    match channel.sent(purpose, Err(message)) {
        ChannelAction::Reply(ChannelReply::Left(Err(ChannelSendError::SendError(message)))) => {
            assert_eq!(message.event, MessageEvent::PhxLeave)
        }
        other => panic!("unexpected action {:?}", other),
    }
    assert_eq!(channel.state, ChannelState::Errored);
}

#[test]
fn there_is_nothing_to_leave_when_away() {
    for state in [ChannelState::Closed, ChannelState::Leaving] {
        let mut channel = in_state(state);
        match channel.manager_recv(ChannelManagerMessage::Unsubscribe) {
            ChannelAction::Reply(ChannelReply::Left(Ok(reported))) => assert_eq!(reported, state),
            other => panic!("unexpected action {:?}", other),
        }
        assert_eq!(channel.state, state);
    }
}

#[test]
fn a_broadcast_goes_out_on_the_topic() {
    let mut channel = channel();
    let payload = BroadcastPayload::new(text("ev"), StringMap::new());
    let (message, purpose) =
        sent(channel.manager_recv(ChannelManagerMessage::Broadcast { payload }));
    assert_eq!(message.event, MessageEvent::Broadcast);
    assert_eq!(message.topic, "realtime:room");
    assert_eq!(message.message_ref, None);
    assert!(matches!(&message.payload, Payload::Broadcast(inner) if inner.event == "ev"));
    assert!(matches!(channel.sent(purpose, Ok(())), ChannelAction::Nothing));
    assert!(matches!(
        channel.sent(purpose, Err(message)),
        ChannelAction::Fail(ChannelSendError::SendError(_))
    ));
}

#[test]
fn tracking_and_untracking() {
    let mut channel = in_state(ChannelState::Joined);
    let mut data = StringMap::new();
    data.insert(text("who"), serde_json::Value::from("me"));
    let (message, purpose) = sent(channel.manager_recv(ChannelManagerMessage::PresenceTrack { data }));
    assert_eq!(message.event, MessageEvent::Presence);
    assert_eq!(message.message_ref, None);
    match message.payload {
        Payload::PresenceTrack(track) => {
            assert_eq!(track.event, PresenceEvent::Track);
            assert_eq!(track.payload.get(&text("who")), Some(&serde_json::Value::from("me")));
        }
        other => panic!("unexpected payload {:?}", other),
    }
    assert!(matches!(channel.sent(purpose, Ok(())), ChannelAction::Reply(ChannelReply::Done)));

    let (message, purpose) = sent(channel.manager_recv(ChannelManagerMessage::PresenceUntrack));
    assert_eq!(message.event, MessageEvent::Untrack);
    assert!(matches!(message.payload, Payload::Empty {}));
    assert!(matches!(
        channel.sent(purpose, Err(message)),
        ChannelAction::Fail(ChannelSendError::SendError(_))
    ));
}

#[test]
fn a_leaving_channel_sends_nothing() {
    let requests = vec![
        ChannelManagerMessage::Broadcast { payload: BroadcastPayload::default() },
        ChannelManagerMessage::PresenceTrack { data: StringMap::new() },
        ChannelManagerMessage::PresenceUntrack,
    ];
    for request in requests {
        let mut channel = in_state(ChannelState::Leaving);
        assert!(matches!(
            channel.manager_recv(request),
            ChannelAction::Fail(ChannelSendError::ChannelError(ChannelState::Leaving))
        ));
    }
    let leaving = in_state(ChannelState::Leaving);
    assert!(matches!(
        leaving.send(RealtimeMessage::heartbeat()),
        Err(ChannelSendError::ChannelError(ChannelState::Leaving))
    ));
    let open = in_state(ChannelState::Errored);
    assert_eq!(open.send(RealtimeMessage::heartbeat()).unwrap().topic, "realtime:room");
}

#[test]
fn a_new_token_is_told_at_once_or_with_the_next_join() {
    let mut joined = in_state(ChannelState::Joined);
    let request = ChannelManagerMessage::ReAuth { access_token: text("new") };
    let (message, purpose) = sent(joined.manager_recv(request));
    assert_eq!(purpose, SendPurpose::ReAuth);
    assert_eq!(message.event, MessageEvent::AccessToken);
    assert_eq!(message.message_ref, None);
    assert!(matches!(&message.payload, Payload::AccessToken(p) if p.access_token == "new"));
    assert!(matches!(joined.sent(purpose, Ok(())), ChannelAction::Reply(ChannelReply::Done)));

    let mut closed = channel();
    let request = ChannelManagerMessage::ReAuth { access_token: text("new") };
    assert!(matches!(
        closed.manager_recv(request),
        ChannelAction::Reply(ChannelReply::Done)
    ));
    let (message, _) = sent(closed.manager_recv(ChannelManagerMessage::Subscribe));
    assert!(matches!(message.payload, Payload::Join(join) if join.access_token == "new"));
}

#[test]
fn questions_are_answered() {
    let mut channel = in_state(ChannelState::Errored);
    assert!(matches!(
        channel.manager_recv(ChannelManagerMessage::GetState),
        ChannelAction::Reply(ChannelReply::State(ChannelState::Errored))
    ));
    assert!(matches!(
        channel.manager_recv(ChannelManagerMessage::GetTopic),
        ChannelAction::Reply(ChannelReply::Topic(topic)) if topic == "realtime:room"
    ));
    assert!(matches!(
        channel.manager_recv(ChannelManagerMessage::GetPresenceState),
        ChannelAction::Reply(ChannelReply::PresenceState(state)) if state.0.len() == 0
    ));
    assert!(matches!(channel.manager_recv(ChannelManagerMessage::GetTx), ChannelAction::GiveTx));
    assert!(matches!(
        channel.manager_recv(ChannelManagerMessage::ClientTx { new_tx: SocketTx { id: 8 } }),
        ChannelAction::Reply(ChannelReply::Done)
    ));
}

#[test]
fn a_new_connection_is_used_for_the_next_join() {
    let mut channel = in_state(ChannelState::Leaving);
    let mut requests = rejoin_requests(SocketTx { id: 5 }).into_iter();
    assert!(matches!(
        channel.manager_recv(requests.next().unwrap()),
        ChannelAction::Reply(ChannelReply::Done)
    ));
    assert_eq!(channel.client_tx, SocketTx { id: 5 });
    assert_eq!(channel.state, ChannelState::Leaving);
    match channel.manager_recv(requests.next().unwrap()) {
        ChannelAction::Send { to, message, purpose } => {
            assert_eq!(to, SocketTx { id: 5 });
            assert_eq!(message.event, MessageEvent::PhxJoin);
            assert_eq!(purpose, SendPurpose::Subscribe);
        }
        other => panic!("unexpected action {:?}", other),
    }
    assert_eq!(channel.state, ChannelState::Joining);
    assert!(requests.next().is_none());
}

#[test]
fn a_broadcast_reaches_the_callbacks_for_its_event() {
    let mut channel: Channel = RealtimeChannelBuilder::with_id(text("room"), text("id-1"))
        .on_broadcast(text("ev"), "first")
        .on_broadcast(text("other"), "second")
        .on_broadcast(text("ev"), "third")
        .build_common(SocketTx { id: 1 }, text("token"));
    match channel.client_recv(broadcast("ev")) {
        ChannelReaction::Broadcast { callbacks, data } => {
            assert_eq!(callbacks, vec![0, 2]);
            assert_eq!(data.get(&text("count")), Some(&serde_json::Value::from(5)));
        }
        other => panic!("unexpected reaction {:?}", other),
    }
    match channel.client_recv(broadcast("nobody")) {
        ChannelReaction::Broadcast { callbacks, .. } => assert!(callbacks.is_empty()),
        other => panic!("unexpected reaction {:?}", other),
    }
}

fn for_changes() -> Channel {
    let public = |table: Option<&str>| PostgresChangeFilter {
        schema: text("public"),
        table: table.map(text),
        filter: None,
    };
    RealtimeChannelBuilder::with_id(text("room"), text("id-1"))
        .on_postgres_change(PostgresChangesEvent::All, public(None), "all")
        .on_postgres_change(PostgresChangesEvent::Insert, public(Some("todos")), "insert todos")
        .on_postgres_change(PostgresChangesEvent::Delete, public(None), "delete")
        .on_postgres_change(PostgresChangesEvent::Insert, public(None), "insert")
        .build_common(SocketTx { id: 1 }, text("token"))
}

#[test]
fn a_change_reaches_its_kind_first_and_then_all() {
    let mut channel = for_changes();
    match channel.client_recv(change(PostgresChangesEvent::Insert, "todos")) {
        ChannelReaction::PostgresChanges { callbacks, change } => {
            assert_eq!(callbacks, vec![1, 3, 0]);
            assert_eq!(change.ids, vec![4]);
        }
        other => panic!("unexpected reaction {:?}", other),
    }
    match channel.client_recv(change(PostgresChangesEvent::Insert, "notes")) {
        ChannelReaction::PostgresChanges { callbacks, .. } => assert_eq!(callbacks, vec![3, 0]),
        other => panic!("unexpected reaction {:?}", other),
    }
    match channel.client_recv(change(PostgresChangesEvent::Update, "todos")) {
        ChannelReaction::PostgresChanges { callbacks, .. } => assert_eq!(callbacks, vec![0]),
        other => panic!("unexpected reaction {:?}", other),
    }
}

#[test]
fn a_change_of_all_kinds_is_heard_twice() {
    let mut channel = for_changes();
    match channel.client_recv(change(PostgresChangesEvent::All, "todos")) {
        ChannelReaction::PostgresChanges { callbacks, .. } => assert_eq!(callbacks, vec![0, 0]),
        other => panic!("unexpected reaction {:?}", other),
    }
}

fn raw(id: &str, phx_ref: &str) -> RawPresenceState {
    let mut raw = StringMap::new();
    raw.insert(
        text(id),
        RawPresenceMetas {
            metas: vec![RawPresenceMeta { phx_ref: text(phx_ref), state_data: StringMap::new() }],
        },
    );
    raw
}

#[test]
fn presence_messages_change_who_is_present() {
    let mut channel: Channel = RealtimeChannelBuilder::with_id(text("room"), text("id-1"))
        .on_presence(PresenceEvent::Join, "join")
        .build_common(SocketTx { id: 1 }, text("token"));
    let whole = RealtimeMessage {
        payload: Payload::PresenceState(raw("a", "1")),
        ..RealtimeMessage::default()
    };
    match channel.client_recv(whole) {
        ChannelReaction::Presence { calls } => {
            assert_eq!(calls.len(), 1);
            assert_eq!(calls[0].callback, 0);
            assert_eq!(calls[0].id, "a");
        }
        other => panic!("unexpected reaction {:?}", other),
    }
    let diff = RealtimeMessage {
        payload: Payload::PresenceDiff(RawPresenceDiff {
            joins: raw("b", "2"),
            leaves: raw("a", "1"),
        }),
        ..RealtimeMessage::default()
    };
    assert!(matches!(channel.client_recv(diff), ChannelReaction::Presence { .. }));
    assert!(!channel.presence.state.0.contains_key(&text("a")));
    assert!(channel.presence.state.0.get(&text("b")).unwrap().contains_key(&text("2")));
}

#[test]
fn other_messages_are_of_no_use() {
    let mut channel = channel();
    let reaction = channel.client_recv(RealtimeMessage::heartbeat());
    assert!(matches!(reaction, ChannelReaction::Unmatched));
    assert!(channel.listening);
}
