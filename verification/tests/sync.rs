use realtime_rs::duration::Duration;
use realtime_rs::message::payload::{
    BroadcastConfig, BroadcastPayload, JoinResponsePayload, Payload, PayloadStatus,
    PostgresChangesEvent, PostgresChangesList, PresenceConfig,
};
use realtime_rs::message::presence::{
    PresenceEvent, RawPresenceDiff, RawPresenceMeta, RawPresenceMetas, RawPresenceState,
};
use realtime_rs::message::{MessageEvent, PostgresChangeFilter, RealtimeMessage};
use realtime_rs::realtime_channel::{ChannelAction, ChannelReaction, ChannelReply, SendPurpose};
use realtime_rs::realtime_client::{ClientAction, ClientReply};
use realtime_rs::string_map::StringMap;
use realtime_rs::sync::{
    AuthError, ChannelManager, ChannelManagerMessage, ChannelSendError, ChannelState,
    ClientManagerMessage, ConnectError, ConnectionState, MonitorError, NextMessageError,
    RealtimeChannel, RealtimeChannelBuilder, RealtimeClient, RealtimeClientBuilder, ReconnectFn,
    SocketError, SocketTx, TryRecvError,
};
use tungstenite::http::header::HeaderName;
use tungstenite::http::{HeaderMap, HeaderValue};

type Channel = RealtimeChannel<(), (), ()>;

fn text(value: &str) -> String {
    value.to_string()
}

fn on_topic(topic: &str) -> RealtimeMessage {
    RealtimeMessage { topic: text(topic), ..RealtimeMessage::default() }
}

fn loud(message: RealtimeMessage) -> RealtimeMessage {
    RealtimeMessage { topic: format!("{}!", message.topic), ..message }
}

fn twice(message: RealtimeMessage) -> RealtimeMessage {
    RealtimeMessage { topic: format!("{}{}", message.topic, message.topic), ..message }
}

fn channel(state: ChannelState) -> Channel {
    let builder = RealtimeClientBuilder::new(text("http://localhost"), text("key"));
    let mut client = builder.build::<()>();
    client.client.connected(SocketTx { id: 1 });
    let mut channel: Channel =
        RealtimeChannelBuilder::new(text("room")).build(&mut client, ChannelManager { id: 1 });
    assert_eq!(channel.channel.state, ChannelState::Closed);
    channel.channel.state = state;
    channel
}

#[test]
fn errors_are_put_in_words() {
    assert_eq!(NextMessageError::WouldBlock.to_text(), "WouldBlock");
    assert_eq!(NextMessageError::NoChannel.to_text(), "NoChannel");
    assert_eq!(NextMessageError::ChannelClosed.to_text(), "ChannelClosed");
    assert_eq!(NextMessageError::ClientClosed.to_text(), "ClientClosed");
    assert_eq!(
        NextMessageError::TryRecvError(TryRecvError::Empty).to_text(),
        "TryRecvError(Empty)"
    );
    for error in [
        SocketError::NoSocket,
        SocketError::NoRead,
        SocketError::NoWrite,
        SocketError::Disconnected,
        SocketError::WouldBlock,
        SocketError::TooManyRetries,
        SocketError::HandshakeError,
    ] {
        let outer = NextMessageError::SocketError(error);
        assert_eq!(outer.to_text(), format!("{:?}", outer));
    }
    for error in [
        MonitorError::ReconnectError,
        MonitorError::MaxReconnects,
        MonitorError::WouldBlock,
        MonitorError::Disconnected,
    ] {
        let outer = NextMessageError::MonitorError(error);
        assert_eq!(outer.to_text(), format!("{:?}", outer));
    }
    assert_ne!(AuthError::BadLogin, AuthError::MalformedData);
    assert_ne!(ConnectError::BadUri, ConnectError::MaxRetries);
}

#[test]
fn a_sync_builder_starts_with_the_defaults() {
    let builder = RealtimeClient::builder(text("http://localhost"), text("key"));
    assert_eq!(builder.connection_timeout, Duration { secs: 10, nanos: 0 });
    assert_eq!(builder.max_events_per_second, 10);
    assert!(builder.auth_url.is_none());
    assert_eq!(builder.get_auth_url(), "http://localhost");
    assert_eq!(builder.builder.heartbeat_interval, Duration { secs: 29, nanos: 0 });
    assert_eq!(builder.builder.reconnect_max_attempts, usize::MAX);
    assert_eq!((builder.builder.reconnect_interval.0)(9), Duration { secs: 10, nanos: 0 });
}

#[test]
fn a_sync_builder_takes_its_options() {
    let mut params = StringMap::new();
    params.insert(text("a"), text("1"));
    let mut headers = HeaderMap::new();
    headers.insert("x-client-info", HeaderValue::from_static("someone else"));
    let mut more = HeaderMap::new();
    more.insert("x-more", HeaderValue::from_static("more"));
    let builder = RealtimeClientBuilder::new(text("http://localhost"), text("key"))
        .access_token(text("token"))
        .set_headers(headers)
        .add_headers(more)
        .params(params)
        .heartbeat_interval(Duration::from_secs(3))
        .reconnect_interval(ReconnectFn::new(|_attempts: usize| Duration::from_secs(4)))
        .reconnect_max_attempts(2)
        .auth_url(text("http://auth"))
        .max_events_per_second(99)
        .encode(loud)
        .decode(twice);
    assert_eq!(builder.get_auth_url(), "http://auth");
    assert_eq!(builder.builder.headers.get("x-client-info").unwrap(), "realtime-rs/0.1.0");
    assert_eq!(builder.builder.headers.get("x-more").unwrap(), "more");
    let client = builder.build::<()>();
    assert_eq!(client.client.access_token, "token");
    assert_eq!(client.client.heartbeat_interval, Duration { secs: 3, nanos: 0 });
    assert_eq!(client.client.reconnect_max_attempts, 2);
    assert_eq!(client.max_events_per_second, 99);
    assert_eq!(client.next_ref.len(), 36);
    assert_eq!(client.get_status(), ConnectionState::Closed);
    assert_eq!(client.get_status(), ConnectionState::default());
    let request = client.client.build_request().unwrap().unwrap();
    assert_eq!(
        request.uri,
        "ws://localhost/realtime/v1/websocket?apikey=token&vsn=1.0.0&a=1"
    );
}

#[test]
fn the_timeout_is_at_least_a_second() {
    let timeout = |secs: u64, nanos: u32| {
        RealtimeClientBuilder::new(text("http://localhost"), text("key"))
            .connection_timeout(Duration { secs, nanos })
            .connection_timeout
    };
    assert_eq!(timeout(0, 999_999_999), Duration { secs: 1, nanos: 0 });
    assert_eq!(timeout(0, 0), Duration { secs: 1, nanos: 0 });
    assert_eq!(timeout(1, 0), Duration { secs: 1, nanos: 0 });
    assert_eq!(timeout(1, 5), Duration { secs: 1, nanos: 5 });
    assert_eq!(timeout(60, 0), Duration { secs: 60, nanos: 0 });
}

#[test]
fn the_status_follows_the_connection() {
    let mut client =
        RealtimeClientBuilder::new(text("http://localhost"), text("key")).build::<()>();
    client.client.connected(SocketTx { id: 1 });
    assert_eq!(client.get_status(), ConnectionState::Open);
    client.client.frame_failed();
    assert_eq!(client.get_status(), ConnectionState::Reconnect);
    client.client.stream_ended();
    assert_eq!(client.get_status(), ConnectionState::Reconnecting);
}

#[test]
fn middleware_runs_before_the_channels() {
    let mut client = RealtimeClientBuilder::new(text("http://localhost"), text("key"))
        .build::<fn(RealtimeMessage) -> RealtimeMessage>();
    client.client.add_channel(ChannelManager { id: 3 });
    client.client.add_channel(ChannelManager { id: 4 });
    let topics = vec![text("a"), text("a!a!")];
    let delivery = client.receive(on_topic("a"), &topics);
    assert_eq!(delivery.message.topic, "a");
    assert_eq!(delivery.channels, vec![ChannelManager { id: 3 }]);

    let first = client.add_middleware(loud);
    let second = client.add_middleware(twice);
    assert_ne!(first, second);
    assert_eq!(first.len(), 36);
    let delivery = client.receive(on_topic("a"), &topics);
    assert_eq!(delivery.message.topic, "a!a!");
    assert_eq!(delivery.channels, vec![ChannelManager { id: 4 }]);

    client.remove_middleware(first);
    assert_eq!(client.middleware.len(), 1);
    assert_eq!(client.middleware[0].0, second);
    assert_eq!(client.run_middleware(on_topic("a")).topic, "aa");
    client.remove_middleware(text("unknown")).remove_middleware(second);
    assert!(client.middleware.is_empty());
    assert_eq!(client.run_middleware(on_topic("a")).topic, "a");
}

#[test]
fn middleware_replaces_what_stood_under_its_identifier() {
    let mut client = RealtimeClientBuilder::new(text("http://localhost"), text("key"))
        .build::<fn(RealtimeMessage) -> RealtimeMessage>();
    client.put_middleware(text("x"), loud);
    client.put_middleware(text("x"), twice);
    assert_eq!(client.middleware.len(), 1);
    assert_eq!(client.run_middleware(on_topic("a")).topic, "aa");
}

#[test]
fn a_sync_client_answers() {
    let mut client =
        RealtimeClientBuilder::new(text("http://localhost"), text("key")).build::<()>();
    assert!(matches!(
        client.manager_recv(ClientManagerMessage::Connect),
        ClientAction::Connect
    ));
    client.client.connected(SocketTx { id: 1 });
    assert!(matches!(
        client.manager_recv(ClientManagerMessage::GetWsTx),
        ClientAction::Reply(ClientReply::WsTx(SocketTx { id: 1 }))
    ));
    client.manager_recv(ClientManagerMessage::AddChannel { manager: ChannelManager { id: 5 } });
    let channels = client.set_auth(text("new"));
    assert_eq!(channels, vec![ChannelManager { id: 5 }]);
    assert_eq!(client.client.access_token, "new");
    assert!(matches!(
        client.manager_recv(ClientManagerMessage::GetAccessToken),
        ClientAction::Reply(_)
    ));
}

#[test]
fn a_sync_channel_joins() {
    let mut channel = channel(ChannelState::Closed);
    let id = channel.channel.id.clone();
    let action = channel.manager_recv(ChannelManagerMessage::SubscribeBlocking);
    match action {
        ChannelAction::Send { to, message, purpose } => {
            assert_eq!(to, SocketTx { id: 1 });
            assert_eq!(message.event, MessageEvent::PhxJoin);
            assert!(matches!(channel.sent(purpose), ChannelAction::AwaitJoined));
        }
        other => panic!("unexpected action {:?}", other),
    }
    assert!(matches!(channel.sent(SendPurpose::Subscribe), ChannelAction::Nothing));
    let reaction = channel.client_recv(RealtimeMessage {
        payload: Payload::Response(JoinResponsePayload {
            response: PostgresChangesList { postgres_changes: vec![] },
            status: PayloadStatus::Success,
        }),
        message_ref: Some(id),
        ..RealtimeMessage::default()
    });
    assert!(matches!(reaction, ChannelReaction::JoinReply));
    assert!(matches!(
        channel.manager_recv(ChannelManagerMessage::State),
        ChannelAction::Reply(ChannelReply::State(ChannelState::Joined))
    ));
    assert!(matches!(
        channel.manager_recv(ChannelManagerMessage::GetTopic),
        ChannelAction::Reply(ChannelReply::Topic(topic)) if topic == "realtime:room"
    ));
    assert!(matches!(channel.manager_recv(ChannelManagerMessage::GetTx), ChannelAction::GiveTx));
    assert!(matches!(
        channel.manager_recv(ChannelManagerMessage::ClientTx { new_tx: SocketTx { id: 2 } }),
        ChannelAction::Reply(ChannelReply::Done)
    ));
    assert_eq!(channel.channel.client_tx, SocketTx { id: 2 });
}

#[test]
fn a_sync_channel_keeps_quiet_about_failed_broadcasts() {
    let mut leaving = channel(ChannelState::Leaving);
    let payload = BroadcastPayload::default();
    assert!(matches!(
        leaving.manager_recv(ChannelManagerMessage::Broadcast { payload }),
        ChannelAction::Nothing
    ));
    let mut joined = channel(ChannelState::Joined);
    let payload = BroadcastPayload::default();
    assert!(matches!(
        joined.manager_recv(ChannelManagerMessage::Broadcast { payload }),
        ChannelAction::Send { purpose: SendPurpose::Broadcast, .. }
    ));
    assert!(matches!(joined.manager_recv(ChannelManagerMessage::Subscribe), ChannelAction::Send { .. }));
}

fn raw_state(id: &str, phx_ref: &str) -> RawPresenceState {
    let mut raw = StringMap::new();
    raw.insert(
        text(id),
        RawPresenceMetas {
            metas: vec![RawPresenceMeta { phx_ref: text(phx_ref), state_data: StringMap::new() }],
        },
    );
    raw
}

#[test]
fn a_sync_channel_knows_who_is_present() {
    let mut client =
        RealtimeClientBuilder::new(text("http://localhost"), text("key")).build::<()>();
    client.client.connected(SocketTx { id: 1 });
    let mut channel: RealtimeChannel<(), (), &str> = RealtimeChannelBuilder::new(text("room"))
        .on_presence(PresenceEvent::Sync, "sync")
        .on_presence(PresenceEvent::Leave, "leave")
        .build(&mut client, ChannelManager { id: 1 });
    let whole = RealtimeMessage {
        payload: Payload::PresenceState(raw_state("a", "1")),
        ..RealtimeMessage::default()
    };
    match channel.client_recv(whole) {
        ChannelReaction::Presence { calls } => {
            assert_eq!(calls.len(), 1);
            assert_eq!(calls[0].callback, 0);
            assert_eq!(calls[0].id, "a");
            assert_eq!(calls[0].old_state.0.len(), 0);
            assert_eq!(calls[0].new_state.0.len(), 1);
        }
        other => panic!("unexpected reaction {:?}", other),
    }
    assert!(channel.presence_state().0.contains_key(&text("a")));
    let diff = RealtimeMessage {
        payload: Payload::PresenceDiff(RawPresenceDiff {
            joins: raw_state("b", "2"),
            leaves: raw_state("a", "1"),
        }),
        ..RealtimeMessage::default()
    };
    match channel.client_recv(diff) {
        ChannelReaction::Presence { calls } => {
            assert_eq!(calls.len(), 1);
            assert_eq!(calls[0].callback, 1);
        }
        other => panic!("unexpected reaction {:?}", other),
    }
    assert!(!channel.presence_state().0.contains_key(&text("a")));
    assert!(channel.presence_state().0.contains_key(&text("b")));
}

#[test]
fn a_sync_client_sends_to_its_socket() {
    let mut client =
        RealtimeClientBuilder::new(text("http://localhost"), text("key")).build::<()>();
    client.client.connected(SocketTx { id: 4 });
    let (to, message) = client.send(on_topic("realtime:room"));
    assert_eq!(to, SocketTx { id: 4 });
    assert_eq!(message.topic, "realtime:room");
}

#[test]
fn a_sync_builder_refuses_too_many_headers() {
    let mut headers = HeaderMap::new();
    for i in 0..24576usize {
        let name: HeaderName = format!("x-{}", i).parse().unwrap();
        headers.insert(name, HeaderValue::from_static("v"));
    }
    let builder = RealtimeClientBuilder::new(text("http://localhost"), text("key"))
        .max_events_per_second(7);
    let builder = builder.checked_set_headers(headers.clone()).err().unwrap();
    let builder = builder.checked_add_headers(headers.clone()).err().unwrap();
    assert_eq!(builder.max_events_per_second, 7);
    assert_eq!(builder.builder.headers.len(), 1);
    let mut headers = HeaderMap::new();
    headers.insert("x-other", HeaderValue::from_static("other"));
    let builder = builder.checked_set_headers(headers.clone()).ok().unwrap();
    let builder = builder.checked_add_headers(headers).ok().unwrap();
    assert_eq!(builder.builder.headers.len(), 2);
    assert_eq!(builder.max_events_per_second, 7);
}

#[test]
fn what_a_sync_channel_sends() {
    let mut channel = channel(ChannelState::Joined);
    assert_eq!(channel.track(StringMap::new()).unwrap().event, MessageEvent::Presence);
    assert_eq!(channel.untrack().unwrap().event, MessageEvent::Untrack);
    assert_eq!(channel.send(RealtimeMessage::heartbeat()).unwrap().topic, "realtime:room");
    assert_eq!(channel.set_auth(text("new")).unwrap().event, MessageEvent::AccessToken);
    assert_eq!(channel.channel.join_payload.access_token, "new");
    assert_eq!(channel.unsubscribe().unwrap().event, MessageEvent::PhxLeave);
    assert!(matches!(channel.left(Ok(())), Ok(ChannelState::Leaving)));
    assert!(channel.unsubscribe().is_none());
    assert!(channel.set_auth(text("newer")).is_none());
    assert!(matches!(
        channel.track(StringMap::new()),
        Err(ChannelSendError::ChannelError(ChannelState::Leaving))
    ));
    assert!(matches!(
        channel.left(Err(RealtimeMessage::heartbeat())),
        Err(ChannelSendError::SendError(_))
    ));
}

#[test]
fn a_sync_channel_in_debug_output() {
    let channel = channel(ChannelState::Closed);
    assert_eq!(
        channel.debug_text(),
        "RealtimeChannel { name: \"realtime:room\", callbacks: [TODO DEBUG]}"
    );
}

#[test]
fn a_sync_channel_builder_takes_its_options() {
    let made: RealtimeChannelBuilder<u8, u8, u8> = RealtimeChannelBuilder::new(text("room"))
        .topic(text("other"))
        .broadcast(BroadcastConfig { broadcast_self: true, ack: true })
        .presence(PresenceConfig { key: Some(text("k")) })
        .on_postgres_change(PostgresChangesEvent::Delete, PostgresChangeFilter::default(), 1)
        .on_presence(PresenceEvent::Leave, 2)
        .on_broadcast(text("ev"), 3);
    assert_eq!(made.builder.topic, "realtime:other");
    assert!(made.builder.broadcast.ack);
    assert_eq!(made.builder.presence.key, Some(text("k")));
    assert_eq!(made.builder.postgres_changes[0].event, PostgresChangesEvent::Delete);
    assert_eq!(made.builder.cdc_callbacks[0].2, 1);
    assert_eq!(made.builder.presence_callbacks[0], (PresenceEvent::Leave, 2));
    assert_eq!(made.builder.broadcast_callbacks[0], (text("ev"), 3));
}
