use realtime_rs::message::presence::{
    PhxMap, PresenceDiff, PresenceEvent, PresenceState, RawPresenceDiff, RawPresenceMeta,
    RawPresenceMetas, RawPresenceState, StateData,
};
use realtime_rs::realtime_presence::RealtimePresence;
use realtime_rs::string_map::StringMap;

fn text(value: &str) -> String {
    value.to_string()
}

fn data(key: &str, value: i32) -> StateData {
    let mut data = StringMap::new();
    data.insert(text(key), serde_json::Value::from(value));
    data
}

fn one(id: &str, phx_ref: &str, value: i32) -> (String, PhxMap) {
    let mut refs = StringMap::new();
    refs.insert(text(phx_ref), data("n", value));
    (text(id), refs)
}

fn state(items: Vec<(String, PhxMap)>) -> PresenceState {
    PresenceState::from_iter(items)
}

fn ids(state: &PresenceState) -> Vec<String> {
    let mut ids = Vec::new();
    for i in 0..state.0.len() {
        ids.push(state.0.key_at(i).clone());
    }
    ids
}

fn number(state: &PresenceState, id: &str, phx_ref: &str) -> Option<serde_json::Value> {
    state.0.get(&text(id))?.get(&text(phx_ref))?.get(&text("n")).cloned()
}

#[test]
fn a_later_id_replaces_an_earlier_one() {
    let made = state(vec![one("a", "1", 1), one("b", "2", 2), one("a", "3", 3)]);
    assert_eq!(ids(&made), vec![text("a"), text("b")]);
    assert_eq!(number(&made, "a", "1"), None);
    assert_eq!(number(&made, "a", "3"), Some(serde_json::Value::from(3)));
}

#[test]
fn flattening_keeps_the_references() {
    let made = state(vec![one("a", "1", 1), one("b", "2", 2)]);
    let flat = made.get_phx_map();
    assert_eq!(flat.len(), 2);
    assert_eq!(
        flat.get(&text("1")).unwrap().get(&text("n")),
        Some(&serde_json::Value::from(1))
    );
    assert_eq!(
        flat.get(&text("2")).unwrap().get(&text("n")),
        Some(&serde_json::Value::from(2))
    );
}

#[test]
fn raw_metas_are_keyed_by_reference() {
    let mut raw: RawPresenceState = StringMap::new();
    raw.insert(
        text("a"),
        RawPresenceMetas {
            metas: vec![
                RawPresenceMeta { phx_ref: text("1"), state_data: data("n", 1) },
                RawPresenceMeta { phx_ref: text("2"), state_data: data("n", 2) },
                RawPresenceMeta { phx_ref: text("1"), state_data: data("n", 3) },
            ],
        },
    );
    raw.insert(text("b"), RawPresenceMetas::default());
    let made = PresenceState::from(raw.clone());
    assert_eq!(ids(&made), vec![text("a"), text("b")]);
    assert_eq!(number(&made, "a", "1"), Some(serde_json::Value::from(3)));
    assert_eq!(number(&made, "a", "2"), Some(serde_json::Value::from(2)));
    assert_eq!(made.0.get(&text("b")).unwrap().len(), 0);
    let diff = PresenceDiff::from(RawPresenceDiff { joins: raw, leaves: StringMap::new() });
    assert_eq!(ids(&diff.joins), vec![text("a"), text("b")]);
    assert_eq!(ids(&diff.leaves), Vec::<String>::new());
    assert_eq!(RawPresenceMeta::default().phx_ref, "");
}

fn presence() -> RealtimePresence<&'static str> {
    RealtimePresence::from_channel_builder(vec![
        (PresenceEvent::Leave, "leave"),
        (PresenceEvent::Join, "join"),
        (PresenceEvent::Sync, "sync"),
        (PresenceEvent::Join, "join too"),
    ])
}

#[test]
fn joins_come_before_leaves() {
    let mut presence = presence();
    let calls = presence.sync_diff(PresenceDiff {
        joins: state(vec![one("a", "1", 1), one("b", "2", 2)]),
        leaves: PresenceState::default(),
    });
    let heard: Vec<(usize, String)> = calls.iter().map(|c| (c.callback, c.id.clone())).collect();
    assert_eq!(heard, vec![(1, text("a")), (3, text("a")), (1, text("b")), (3, text("b"))]);
    assert_eq!(ids(&calls[0].old_state), Vec::<String>::new());
    assert_eq!(ids(&calls[0].new_state), vec![text("a"), text("b")]);
    assert_eq!(ids(&presence.state), vec![text("a"), text("b")]);

    let calls = presence.sync_diff(PresenceDiff {
        joins: state(vec![one("c", "3", 3)]),
        leaves: state(vec![one("a", "1", 1), one("b", "2", 2)]),
    });
    let heard: Vec<(usize, String)> = calls.iter().map(|c| (c.callback, c.id.clone())).collect();
    assert_eq!(heard, vec![(1, text("c")), (3, text("c")), (0, text("a")), (0, text("b"))]);
    // each leave is heard with the state that the earlier ones have left
    assert_eq!(ids(&calls[2].old_state), vec![text("a"), text("b")]);
    assert_eq!(ids(&calls[3].old_state), vec![text("b")]);
    assert_eq!(ids(&calls[3].new_state), vec![text("a"), text("b")]);
    assert_eq!(ids(&presence.state), vec![text("c")]);
}

#[test]
fn an_empty_change_is_not_heard() {
    let mut presence = presence();
    presence.sync(state(vec![one("a", "1", 1)]));
    let calls = presence
        .sync_diff(PresenceDiff { joins: PresenceState::default(), leaves: PresenceState::default() });
    assert!(calls.is_empty());
    assert_eq!(ids(&presence.state), vec![text("a")]);
}

#[test]
fn leaving_takes_back_a_join() {
    let mut presence = presence();
    presence.sync(state(vec![one("a", "1", 1)]));
    presence.sync_diff(PresenceDiff {
        joins: state(vec![one("b", "2", 2)]),
        leaves: PresenceState::default(),
    });
    presence.sync_diff(PresenceDiff {
        joins: PresenceState::default(),
        leaves: state(vec![one("b", "2", 2)]),
    });
    assert_eq!(ids(&presence.state), vec![text("a")]);
    assert_eq!(number(&presence.state, "a", "1"), Some(serde_json::Value::from(1)));
}

#[test]
fn an_id_that_leaves_and_joins_at_once_is_there_anew() {
    let mut presence = presence();
    presence.sync(state(vec![one("a", "1", 1)]));
    presence.sync_diff(PresenceDiff {
        joins: state(vec![one("a", "2", 2)]),
        leaves: state(vec![one("a", "1", 1)]),
    });
    assert_eq!(number(&presence.state, "a", "1"), None);
    assert_eq!(number(&presence.state, "a", "2"), Some(serde_json::Value::from(2)));
}

#[test]
fn a_whole_state_replaces_the_old_one() {
    let mut presence = presence();
    presence.sync(state(vec![one("a", "1", 1)]));
    let calls = presence.sync(state(vec![one("a", "9", 9), one("b", "2", 2)]));
    assert_eq!(ids(&presence.state), vec![text("a"), text("b")]);
    assert_eq!(number(&presence.state, "a", "1"), None);
    assert_eq!(number(&presence.state, "a", "9"), Some(serde_json::Value::from(9)));
    let heard: Vec<(usize, String)> = calls.iter().map(|c| (c.callback, c.id.clone())).collect();
    assert_eq!(
        heard,
        vec![
            (1, text("a")),
            (3, text("a")),
            (1, text("b")),
            (3, text("b")),
            (0, text("a")),
            (2, text("a")),
            (2, text("b")),
        ]
    );
    // who leaves, leaves with no reference
    assert_eq!(calls[4].new_state.0.get(&text("a")).unwrap().len(), 0);
    // the sync callbacks hear of the state before and the new one
    assert_eq!(number(&calls[5].old_state, "a", "1"), Some(serde_json::Value::from(1)));
    assert_eq!(number(&calls[5].new_state, "b", "2"), Some(serde_json::Value::from(2)));
}
