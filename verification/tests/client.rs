use realtime_rs::duration::Duration;
use realtime_rs::message::payload::{BroadcastPayload, Payload};
use realtime_rs::message::RealtimeMessage;
use realtime_rs::realtime_channel::{
    ChannelManager, ChannelManagerMessage, ChannelReaction, ChannelState, RealtimeChannel,
    RealtimeChannelBuilder, SocketTx,
};
use realtime_rs::realtime_client::{
    backoff, default_reconnect, ChannelLook, ClientAction, ClientManagerMessage, ClientReply,
    ClientState, ConnectError, ConnectStep, RealtimeClientBuilder, ReconnectFn, Retry,
};
use realtime_rs::string_map::StringMap;
use tungstenite::http::header::HeaderName;
use tungstenite::http::{HeaderMap, HeaderValue};

fn text(value: &str) -> String {
    value.to_string()
}

fn on_topic(topic: &str) -> RealtimeMessage {
    RealtimeMessage { topic: text(topic), ..RealtimeMessage::default() }
}

fn look(state: ChannelState, topic: &str) -> ChannelLook {
    ChannelLook { state, topic: text(topic) }
}

#[test]
fn the_backoff_steps_up_to_ten_seconds() {
    let waits: Vec<u64> = (0..7).map(|attempts| backoff(attempts).secs).collect();
    assert_eq!(waits, vec![0, 1, 2, 5, 10, 10, 10]);
    assert_eq!(backoff(usize::MAX), Duration { secs: 10, nanos: 0 });
    assert_eq!((default_reconnect().0)(3), Duration { secs: 5, nanos: 0 });
}

#[test]
fn a_builder_starts_with_the_defaults() {
    let builder = RealtimeClientBuilder::new(text("http://localhost"), text("key"));
    assert_eq!(builder.heartbeat_interval, Duration { secs: 29, nanos: 0 });
    assert_eq!(builder.reconnect_max_attempts, usize::MAX);
    assert_eq!(builder.endpoint, "http://localhost");
    assert_eq!(builder.access_token, "key");
    assert!(builder.params.is_none());
    assert!(builder.encode.is_none());
    assert!(builder.decode.is_none());
    assert_eq!(builder.headers.len(), 1);
    assert_eq!(builder.headers.get("X-Client-Info").unwrap(), "realtime-rs/0.1.0");
    assert_eq!((builder.reconnect_interval.0)(2), Duration { secs: 2, nanos: 0 });
}

#[test]
fn the_headers_always_name_the_client() {
    let mut given = HeaderMap::new();
    given.insert("x-client-info", HeaderValue::from_static("someone else"));
    given.insert("x-other", HeaderValue::from_static("other"));
    let builder = RealtimeClientBuilder::new(text("http://localhost"), text("key"))
        .set_headers(given.clone());
    assert_eq!(builder.headers.get("x-client-info").unwrap(), "realtime-rs/0.1.0");
    assert_eq!(builder.headers.get("x-other").unwrap(), "other");
    let mut more = HeaderMap::new();
    more.append("x-other", HeaderValue::from_static("one"));
    more.append("x-other", HeaderValue::from_static("two"));
    more.insert("x-client-info", HeaderValue::from_static("someone else"));
    let builder = builder.add_headers(more);
    assert_eq!(builder.headers.get("x-client-info").unwrap(), "realtime-rs/0.1.0");
    let others: Vec<&HeaderValue> = builder.headers.get_all("x-other").iter().collect();
    assert_eq!(others, vec!["one", "two"]);
    let request = builder.connect().build_request().unwrap().unwrap();
    assert_eq!(request.headers.get("x-client-info").unwrap(), "realtime-rs/0.1.0");
}

#[test]
fn setting_headers_drops_those_before() {
    let mut first = HeaderMap::new();
    first.insert("x-first", HeaderValue::from_static("1"));
    let mut second = HeaderMap::new();
    second.insert("x-second", HeaderValue::from_static("2"));
    let builder = RealtimeClientBuilder::new(text("http://localhost"), text("key"))
        .set_headers(first)
        .set_headers(second);
    assert!(builder.headers.get("x-first").is_none());
    assert_eq!(builder.headers.len(), 2);
}

#[test]
fn a_client_gives_up_after_its_attempts() {
    let client = RealtimeClientBuilder::new(text("http://localhost"), text("key"))
        .reconnect_max_attempts(3)
        .connect();
    assert_eq!(
        client.connection_failed(0),
        Retry::After { failures: 1, wait: Duration { secs: 1, nanos: 0 } }
    );
    assert_eq!(
        client.connection_failed(1),
        Retry::After { failures: 2, wait: Duration { secs: 2, nanos: 0 } }
    );
    assert_eq!(client.connection_failed(2), Retry::GiveUp(ConnectError::MaxRetries));
    let never = RealtimeClientBuilder::new(text("http://localhost"), text("key"))
        .reconnect_max_attempts(0)
        .connect();
    assert_eq!(never.connection_failed(0), Retry::GiveUp(ConnectError::MaxRetries));
}

#[test]
fn a_client_waits_as_it_was_told() {
    let client = RealtimeClientBuilder::new(text("http://localhost"), text("key"))
        .reconnect_interval(ReconnectFn::new(|attempts: usize| Duration {
            secs: attempts as u64 * 7,
            nanos: 1,
        }))
        .connect();
    assert_eq!(
        client.connection_failed(1),
        Retry::After { failures: 2, wait: Duration { secs: 14, nanos: 1 } }
    );
}

#[test]
fn the_states_of_a_connection() {
    let mut client =
        RealtimeClientBuilder::new(text("http://localhost"), text("key")).connect();
    assert_eq!(client.state, ClientState::Closed);
    assert_eq!(client.state, ClientState::default());
    assert!(client.ws_tx.is_none());
    client.add_channel(ChannelManager { id: 4 });
    client.add_channel(ChannelManager { id: 2 });
    let rejoins = client.connected(SocketTx { id: 3 });
    let channels: Vec<ChannelManager> = rejoins.iter().map(|rejoin| rejoin.manager).collect();
    assert_eq!(channels, vec![ChannelManager { id: 4 }, ChannelManager { id: 2 }]);
    for rejoin in rejoins {
        assert_eq!(rejoin.requests.len(), 2);
        assert!(matches!(
            rejoin.requests[0],
            ChannelManagerMessage::ClientTx { new_tx: SocketTx { id: 3 } }
        ));
        assert!(matches!(rejoin.requests[1], ChannelManagerMessage::Subscribe));
    }
    assert_eq!(client.state, ClientState::Open);
    assert_eq!(client.ws_tx, Some(SocketTx { id: 3 }));
    assert!(!client.stream_ended());
    assert_eq!(client.state, ClientState::Open);
    client.frame_failed();
    assert_eq!(client.state, ClientState::Reconnect);
    assert!(client.stream_ended());
    assert_eq!(client.state, ClientState::Reconnecting);
    assert!(!client.stream_ended());
}

#[test]
fn a_message_goes_to_the_open_channels_of_its_topic() {
    let mut client =
        RealtimeClientBuilder::new(text("http://localhost"), text("key")).connect();
    for id in 0..4 {
        client.add_channel(ChannelManager { id });
    }
    let looks = vec![
        look(ChannelState::Joined, "realtime:a"),
        look(ChannelState::Closed, "realtime:a"),
        look(ChannelState::Joined, "realtime:b"),
        look(ChannelState::Leaving, "realtime:a"),
    ];
    let delivery = client.receive(on_topic("realtime:a"), &looks);
    assert_eq!(delivery.channels, vec![ChannelManager { id: 0 }, ChannelManager { id: 3 }]);
    assert_eq!(delivery.message.topic, "realtime:a");
    assert_eq!(
        client.channels,
        vec![ChannelManager { id: 0 }, ChannelManager { id: 2 }, ChannelManager { id: 3 }]
    );
}

#[test]
fn messages_go_through_the_interceptors() {
    let mut client = RealtimeClientBuilder::new(text("http://localhost"), text("key"))
        .encode(|message: RealtimeMessage| RealtimeMessage {
            topic: text("encoded"),
            ..message
        })
        .decode(|message: RealtimeMessage| RealtimeMessage {
            topic: text("decoded"),
            ..message
        })
        .connect();
    client.add_channel(ChannelManager { id: 9 });
    assert_eq!(client.outgoing(on_topic("plain")).topic, "encoded");
    let delivery =
        client.receive(on_topic("plain"), &vec![look(ChannelState::Joined, "decoded")]);
    assert_eq!(delivery.message.topic, "decoded");
    assert_eq!(delivery.channels, vec![ChannelManager { id: 9 }]);
    let plain = RealtimeClientBuilder::new(text("http://localhost"), text("key")).connect();
    assert_eq!(plain.outgoing(on_topic("plain")).topic, "plain");
}

#[test]
fn what_a_client_is_asked_for() {
    let mut client =
        RealtimeClientBuilder::new(text("http://localhost"), text("key")).connect();
    assert!(matches!(
        client.manager_recv(ClientManagerMessage::Connect),
        ClientAction::Connect
    ));
    client.connected(SocketTx { id: 1 });
    assert!(matches!(
        client.manager_recv(ClientManagerMessage::GetWsTx),
        ClientAction::Reply(ClientReply::WsTx(SocketTx { id: 1 }))
    ));
    assert!(matches!(
        client.manager_recv(ClientManagerMessage::GetAccessToken),
        ClientAction::Reply(ClientReply::AccessToken(token)) if token == "key"
    ));
    assert!(matches!(
        client.manager_recv(ClientManagerMessage::GetAccessTokenArc),
        ClientAction::ShareAccessToken
    ));
    assert!(matches!(
        client.manager_recv(ClientManagerMessage::GetState),
        ClientAction::Reply(ClientReply::State(ClientState::Open))
    ));
    assert!(matches!(
        client.manager_recv(ClientManagerMessage::AddChannel { manager: ChannelManager { id: 1 } }),
        ClientAction::Reply(ClientReply::Channel(ChannelManager { id: 1 }))
    ));
    match client.manager_recv(ClientManagerMessage::Disconnect) {
        ClientAction::Disconnect { channels } => {
            assert_eq!(channels, vec![ChannelManager { id: 1 }])
        }
        other => panic!("unexpected action {:?}", other),
    }
}

#[test]
fn a_new_token_cascades_to_the_channels() {
    let mut client =
        RealtimeClientBuilder::new(text("http://localhost"), text("key")).connect();
    client.connected(SocketTx { id: 1 });
    let mut channel: RealtimeChannel<(), (), ()> =
        RealtimeChannelBuilder::with_id(text("room"), text("id"))
            .build(&mut client, ChannelManager { id: 7 });
    assert_eq!(channel.join_payload.access_token, "key");
    assert_eq!(channel.client_tx, SocketTx { id: 1 });
    assert_eq!(client.channels, vec![ChannelManager { id: 7 }]);
    channel.state = ChannelState::Joined;
    let request = ClientManagerMessage::SetAccessToken { access_token: text("new") };
    match client.manager_recv(request) {
        ClientAction::ReAuth { channels, access_token } => {
            assert_eq!(channels, vec![ChannelManager { id: 7 }]);
            let message = channel.reauth(access_token).unwrap();
            assert!(matches!(message.payload, Payload::AccessToken(p) if p.access_token == "new"));
        }
        other => panic!("unexpected action {:?}", other),
    }
    assert_eq!(client.access_token, "new");
    assert_eq!(channel.join_payload.access_token, "new");
}

#[test]
fn disconnecting_gives_the_configuration_back() {
    let mut params = StringMap::new();
    params.insert(text("b"), text("2"));
    params.insert(text("a"), text("1"));
    let mut headers = HeaderMap::new();
    headers.insert("x-other", HeaderValue::from_static("other"));
    let mut client = RealtimeClientBuilder::new(text("http://localhost"), text("key"))
        .params(params)
        .set_headers(headers)
        .heartbeat_interval(Duration::from_secs(5))
        .reconnect_max_attempts(8)
        .connect();
    client.connected(SocketTx { id: 1 });
    client.manager_recv(ClientManagerMessage::SetAccessToken { access_token: text("new") });
    let builder = client.disconnect();
    assert_eq!(client.state, ClientState::Closed);
    assert_eq!(builder.access_token, "new");
    assert_eq!(builder.endpoint, "http://localhost");
    assert_eq!(builder.heartbeat_interval, Duration { secs: 5, nanos: 0 });
    assert_eq!(builder.reconnect_max_attempts, 8);
    assert_eq!(builder.headers.get("x-other").unwrap(), "other");
    assert_eq!(builder.headers.get("x-client-info").unwrap(), "realtime-rs/0.1.0");
    let params = builder.params.as_ref().unwrap();
    assert_eq!(params.key_at(0), "b");
    assert_eq!(params.value_at(1), "1");
    let again = builder.access_token(text("third")).connect();
    assert_eq!(again.access_token, "third");
    assert_eq!(again.state, ClientState::Closed);
}

#[test]
fn a_broadcast_arrives_on_the_other_channel() {
    let mut client =
        RealtimeClientBuilder::new(text("http://localhost"), text("key")).connect();
    client.connected(SocketTx { id: 1 });
    let sender: RealtimeChannel<(), &str, ()> =
        RealtimeChannelBuilder::new(text("room")).build(&mut client, ChannelManager { id: 0 });
    let mut receiver: RealtimeChannel<(), &str, ()> = RealtimeChannelBuilder::new(text("room"))
        .on_broadcast(text("other"), "not this one")
        .on_broadcast(text("ev"), "this one")
        .build(&mut client, ChannelManager { id: 1 });
    let mut data = StringMap::new();
    data.insert(text("count"), serde_json::Value::from(1));
    let sent = sender.broadcast(BroadcastPayload::new(text("ev"), data)).unwrap();
    let looks = vec![
        look(ChannelState::Closed, &sender.topic),
        look(ChannelState::Joined, &receiver.topic),
    ];
    let delivery = client.receive(sent, &looks);
    assert_eq!(delivery.channels, vec![ChannelManager { id: 1 }]);
    match receiver.client_recv(delivery.message) {
        ChannelReaction::Broadcast { callbacks, data } => {
            assert_eq!(callbacks, vec![1]);
            assert_eq!(data.get(&text("count")), Some(&serde_json::Value::from(1)));
        }
        other => panic!("unexpected reaction {:?}", other),
    }
}

#[test]
fn connecting_goes_through_after_some_failures() {
    let mut client = RealtimeClientBuilder::new(text("http://localhost"), text("key"))
        .reconnect_max_attempts(4)
        .reconnect_interval(ReconnectFn::new(|attempts: usize| Duration {
            secs: attempts as u64,
            nanos: 0,
        }))
        .connect();
    client.add_channel(ChannelManager { id: 6 });
    let mut failures = 0;
    for attempt in 1..4usize {
        match client.connect_ws(failures, None) {
            ConnectStep::Again { failures: so_far, wait } => {
                assert_eq!(so_far, attempt);
                assert_eq!(wait, Duration { secs: attempt as u64, nanos: 0 });
                failures = so_far;
            }
            other => panic!("unexpected step {:?}", other),
        }
        assert_eq!(client.state, ClientState::Closed);
    }
    match client.connect_ws(failures, Some(SocketTx { id: 2 })) {
        ConnectStep::Connected { rejoins } => {
            assert_eq!(rejoins.len(), 1);
            assert_eq!(rejoins[0].manager, ChannelManager { id: 6 });
        }
        other => panic!("unexpected step {:?}", other),
    }
    assert_eq!(client.state, ClientState::Open);
    assert_eq!(client.channels, vec![ChannelManager { id: 6 }]);
}

#[test]
fn connecting_gives_up_with_an_error() {
    let mut client = RealtimeClientBuilder::new(text("http://localhost"), text("key"))
        .reconnect_max_attempts(2)
        .connect();
    assert!(matches!(client.connect_ws(0, None), ConnectStep::Again { failures: 1, .. }));
    assert!(matches!(
        client.connect_ws(1, None),
        ConnectStep::Failed(ConnectError::MaxRetries)
    ));
    assert_eq!(client.state, ClientState::Closed);
    assert!(client.ws_tx.is_none());
}

fn many_headers(count: usize) -> HeaderMap {
    let mut headers = HeaderMap::new();
    for i in 0..count {
        let name: HeaderName = format!("x-{}", i).parse().unwrap();
        headers.insert(name, HeaderValue::from_static("v"));
    }
    headers
}

#[test]
fn a_client_takes_many_headers() {
    let builder = || RealtimeClientBuilder::new(text("http://localhost"), text("key"));
    let made = builder().checked_set_headers(many_headers(7000)).ok().unwrap();
    assert_eq!(made.headers.len(), 7001);
    assert_eq!(made.headers.get("x-6999").unwrap(), "v");
    assert_eq!(made.headers.get("x-client-info").unwrap(), "realtime-rs/0.1.0");
    let request = made.connect().build_request().unwrap().unwrap();
    assert_eq!(request.headers.len(), 7007);
    assert_eq!(request.headers.get("x-0").unwrap(), "v");
    assert_eq!(request.headers.get("authorization").unwrap(), "Bearer key");

    let made = builder().checked_add_headers(many_headers(7000)).ok().unwrap();
    assert_eq!(made.headers.len(), 7001);
    let made = made.checked_add_headers(many_headers(7010)).ok().unwrap();
    assert_eq!(made.headers.len(), 7011);

    let made = builder().set_headers(many_headers(6552));
    assert_eq!(made.headers.len(), 6553);
    let made = builder().add_headers(many_headers(6552));
    assert_eq!(made.headers.len(), 6553);
}

#[test]
fn too_many_headers_are_refused() {
    let builder = || RealtimeClientBuilder::new(text("http://localhost"), text("key"));
    let full = many_headers(24576);
    let same = builder().checked_set_headers(full.clone()).err().unwrap();
    assert_eq!(same.headers.len(), 1);
    let same = builder().checked_add_headers(full.clone()).err().unwrap();
    assert_eq!(same.headers.len(), 1);
    assert_eq!(same.headers.get("x-client-info").unwrap(), "realtime-rs/0.1.0");

    let made = builder().checked_set_headers(many_headers(24575)).ok().unwrap();
    assert_eq!(made.headers.len(), 24576);
    assert!(made.connect().build_request().is_none());

    let mut client = RealtimeClientBuilder::new(text("http://a b"), text("key")).connect();
    client.headers = full;
    assert!(matches!(client.build_request(), Some(Err(ConnectError::BadUri))));
}

#[test]
fn merged_headers_keep_their_values() {
    let mut secret = HeaderValue::from_static("secret");
    secret.set_sensitive(true);
    let mut more = HeaderMap::new();
    more.append("x-one", HeaderValue::from_static("a"));
    more.append("x-two", HeaderValue::from_static(""));
    more.append("x-one", secret);
    more.append("x-one", HeaderValue::from_bytes(&[b'\t', 0x80, 0xff]).unwrap());
    let mut held = HeaderMap::new();
    held.append("x-one", HeaderValue::from_static("old"));
    held.append("x-one", HeaderValue::from_static("older"));
    held.append("x-zero", HeaderValue::from_static("kept"));
    let builder = RealtimeClientBuilder::new(text("http://localhost"), text("key"))
        .set_headers(held)
        .add_headers(more);
    let check = |headers: &HeaderMap| {
        let ones: Vec<&HeaderValue> = headers.get_all("x-one").iter().collect();
        assert_eq!(ones.len(), 3);
        assert_eq!(ones[0], "a");
        assert_eq!(ones[1], "secret");
        assert_eq!(ones[2].as_bytes(), &[b'\t', 0x80, 0xff][..]);
        assert!(!ones[0].is_sensitive());
        assert!(ones[1].is_sensitive());
        assert!(!ones[2].is_sensitive());
        assert_eq!(headers.get("x-two").unwrap(), "");
        assert_eq!(headers.get("x-zero").unwrap(), "kept");
    };
    check(&builder.headers);
    assert_eq!(builder.headers.keys().count(), 4);
    check(&builder.connect().build_request().unwrap().unwrap().headers);
}

#[test]
fn a_header_may_have_any_name_of_a_header() {
    let long = "a".repeat(65535);
    for name in ["!\"#$%&'*+-.^_`|~09az", "X-UPPER", long.as_str()] {
        let mut more = HeaderMap::new();
        let name = HeaderName::from_bytes(name.as_bytes()).unwrap();
        more.insert(name.clone(), HeaderValue::from_static("v"));
        let builder = RealtimeClientBuilder::new(text("http://localhost"), text("key"))
            .add_headers(more);
        assert_eq!(builder.headers.get(&name).unwrap(), "v");
        assert_eq!(builder.headers.len(), 2);
    }
}
