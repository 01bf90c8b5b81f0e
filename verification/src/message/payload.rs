use serde_json::Value;
use vstd::prelude::*;

use crate::message::presence::{PresenceEvent, RawPresenceDiff, RawPresenceState, StateData};
use crate::string_map::{Deep, StringMap};

verus! {

/// Message payload, enum allows each payload type to be contained in
/// a message without needing a separate struct per message type.
#[derive(Debug, Clone)]
pub enum Payload {
    Join(JoinPayload),
    Response(JoinResponsePayload),
    System(SystemPayload),
    AccessToken(AccessTokenPayload),
    PostgresChanges(PostgresChangesPayload),
    Broadcast(BroadcastPayload),
    PresenceState(RawPresenceState),
    PresenceDiff(RawPresenceDiff),
    Reply(ReplyPayload),
    PresenceTrack(PresenceTrackPayload),
    Empty {},
}

impl Default for Payload {
    fn default() -> (payload: Self)
        ensures
            payload matches Payload::Broadcast(inner) && inner.is_default(),
    {
        Payload::Broadcast(BroadcastPayload::default())
    }
}

#[derive(Debug, Clone)]
pub struct ReplyPayload {
    pub response: Value,
    pub status: String,
}

/// Data to track with presence
#[derive(Debug, Clone)]
pub struct PresenceTrackPayload {
    pub event: PresenceEvent,
    pub payload: StateData,
}

impl Default for PresenceTrackPayload {
    fn default() -> (payload: Self)
        ensures
            payload.event == PresenceEvent::Track,
            payload.payload@ == Map::<Seq<char>, Value>::empty(),
    {
        PresenceTrackPayload { event: PresenceEvent::Track, payload: StringMap::new() }
    }
}

impl From<StateData> for PresenceTrackPayload {
    fn from(value: StateData) -> (payload: Self) {
        PresenceTrackPayload { event: PresenceEvent::Track, payload: value }
    }
}

impl vstd::std_specs::convert::FromSpecImpl<StateData> for PresenceTrackPayload {
    open spec fn obeys_from_spec() -> bool {
        true
    }

    open spec fn from_spec(value: StateData) -> Self {
        PresenceTrackPayload { event: PresenceEvent::Track, payload: value }
    }
}

/// Payload for broadcast messages
#[derive(Debug, Clone)]
pub struct BroadcastPayload {
    pub event: String,
    pub payload: StateData,
    pub broadcast_type: String,
}

impl BroadcastPayload {
    /// What a payload holds of which nothing was said.
    pub open spec fn is_default(&self) -> bool {
        &&& self.event@ == "event_missing"@
        &&& self.payload@ == Map::<Seq<char>, Value>::empty()
        &&& self.broadcast_type@ == "broadcast"@
    }

    pub fn new(event: String, payload: StateData) -> (made: Self)
        ensures
            made.event == event,
            made.payload == payload,
            made.broadcast_type@ == "broadcast"@,
    {
        BroadcastPayload { event, payload, broadcast_type: "broadcast".to_owned() }
    }
}

impl Default for BroadcastPayload {
    fn default() -> (payload: Self)
        ensures
            payload.is_default(),
    {
        BroadcastPayload {
            event: "event_missing".to_owned(),
            payload: StringMap::new(),
            broadcast_type: "broadcast".to_owned(),
        }
    }
}

/// Payload wrapper for postgres changes
#[derive(Debug, Clone)]
pub struct PostgresChangesPayload {
    pub data: PostgresChangeData,
    pub ids: Vec<usize>,
}

/// Received data regarding a postgres change
#[derive(Debug, Clone)]
pub struct PostgresChangeData {
    pub columns: Vec<PostgresColumn>,
    pub commit_timestamp: String,
    pub errors: Option<String>,
    pub old_record: Option<PostgresOldDataRef>,
    pub record: Option<StateData>,
    pub change_type: PostgresChangesEvent,
    pub schema: String,
    pub table: String,
}

#[derive(Debug, Clone)]
pub struct PostgresColumn {
    pub name: String,
    pub column_type: String,
}

#[derive(Debug, Clone)]
pub struct PostgresOldDataRef {
    pub id: isize,
}

#[derive(Debug, Clone)]
pub struct AccessTokenPayload {
    pub access_token: String,
}

/// Subscription result payload
#[derive(Debug, Clone)]
pub struct SystemPayload {
    pub channel: String,
    pub extension: String,
    pub message: String,
    pub status: PayloadStatus,
}

/// Subscription configuration payload wrapper
#[derive(Debug, Clone)]
pub struct JoinPayload {
    pub config: JoinConfig,
    pub access_token: String,
}

/// The model of a [`JoinPayload`].
pub struct JoinModel {
    pub config: JoinConfigModel,
    pub access_token: Seq<char>,
}

impl Deep for JoinPayload {
    type Model = JoinModel;

    open spec fn model(&self) -> JoinModel {
        JoinModel { config: self.config.model(), access_token: self.access_token@ }
    }

    fn duplicate(&self) -> (copy: Self) {
        JoinPayload { config: self.config.duplicate(), access_token: self.access_token.clone() }
    }
}

impl Default for JoinPayload {
    fn default() -> (payload: Self)
        ensures
            payload.config.is_default(),
            payload.access_token@ == Seq::<char>::empty(),
    {
        JoinPayload { config: JoinConfig::default(), access_token: String::new() }
    }
}

/// Subscription configuration data
#[derive(Debug, Clone)]
pub struct JoinConfig {
    pub broadcast: BroadcastConfig,
    pub presence: PresenceConfig,
    pub postgres_changes: Vec<PostgresChange>,
}

/// The model of a [`JoinConfig`].
pub struct JoinConfigModel {
    pub broadcast: BroadcastConfig,
    pub presence_key: Option<Seq<char>>,
    pub postgres_changes: Seq<PostgresChangeModel>,
}

impl JoinConfig {
    /// What a configuration holds of which nothing was said.
    pub open spec fn is_default(&self) -> bool {
        &&& self.broadcast == (BroadcastConfig { broadcast_self: false, ack: false })
        &&& self.presence.key is None
        &&& self.postgres_changes@.len() == 0
    }
}

impl Deep for JoinConfig {
    type Model = JoinConfigModel;

    open spec fn model(&self) -> JoinConfigModel {
        JoinConfigModel {
            broadcast: self.broadcast,
            presence_key: self.presence.key.model(),
            postgres_changes: self.postgres_changes.model(),
        }
    }

    fn duplicate(&self) -> (copy: Self) {
        JoinConfig {
            broadcast: self.broadcast,
            presence: PresenceConfig { key: self.presence.key.duplicate() },
            postgres_changes: self.postgres_changes.duplicate(),
        }
    }
}

impl Default for JoinConfig {
    fn default() -> (config: Self)
        ensures
            config.is_default(),
    {
        JoinConfig {
            broadcast: BroadcastConfig::default(),
            presence: PresenceConfig::default(),
            postgres_changes: Vec::new(),
        }
    }
}

/// Channel broadcast options
#[derive(Debug, Clone, Copy, PartialEq, Eq, Structural)]
pub struct BroadcastConfig {
    pub broadcast_self: bool,
    pub ack: bool,
}

impl Default for BroadcastConfig {
    fn default() -> (config: Self)
        ensures
            config == (BroadcastConfig { broadcast_self: false, ack: false }),
    {
        BroadcastConfig { broadcast_self: false, ack: false }
    }
}

/// Channel presence options
#[derive(Debug, Clone)]
pub struct PresenceConfig {
    pub key: Option<String>,
}

impl Default for PresenceConfig {
    fn default() -> (config: Self)
        ensures
            config.key is None,
    {
        PresenceConfig { key: None }
    }
}

#[derive(Debug, Clone, Copy, PartialEq, Eq, Hash, Structural)]
pub enum PostgresChangesEvent {
    All,
    Insert,
    Update,
    Delete,
}

impl Default for PostgresChangesEvent {
    fn default() -> (event: Self)
        ensures
            event == PostgresChangesEvent::All,
    {
        PostgresChangesEvent::All
    }
}

#[derive(Debug, Clone)]
pub struct PostgresChange {
    pub event: PostgresChangesEvent,
    pub schema: String,
    pub table: String,
    pub filter: Option<String>,
}

/// The model of a [`PostgresChange`].
pub struct PostgresChangeModel {
    pub event: PostgresChangesEvent,
    pub schema: Seq<char>,
    pub table: Seq<char>,
    pub filter: Option<Seq<char>>,
}

impl Deep for PostgresChange {
    type Model = PostgresChangeModel;

    open spec fn model(&self) -> PostgresChangeModel {
        PostgresChangeModel {
            event: self.event,
            schema: self.schema@,
            table: self.table@,
            filter: self.filter.model(),
        }
    }

    fn duplicate(&self) -> (copy: Self) {
        PostgresChange {
            event: self.event,
            schema: self.schema.clone(),
            table: self.table.clone(),
            filter: self.filter.duplicate(),
        }
    }
}

impl Default for PostgresChange {
    fn default() -> (change: Self)
        ensures
            change.event == PostgresChangesEvent::All,
            change.schema@ == Seq::<char>::empty(),
            change.table@ == Seq::<char>::empty(),
            change.filter is None,
    {
        PostgresChange {
            event: PostgresChangesEvent::default(),
            schema: String::new(),
            table: String::new(),
            filter: None,
        }
    }
}

#[derive(Debug, Clone)]
pub struct JoinResponsePayload {
    pub response: PostgresChangesList,
    pub status: PayloadStatus,
}

#[derive(Debug, Clone)]
pub struct PostgresChangesList {
    pub postgres_changes: Vec<PostgresChange>,
}

#[derive(Debug, Clone, Copy, PartialEq, Eq, Structural)]
pub enum PayloadStatus {
    Success,
    Error,
}

} // verus!
