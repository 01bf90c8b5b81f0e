use vstd::prelude::*;

verus! {

pub const DEFAULT_TIMEOUT: usize = 10000;

pub const WS_CLOSE_NORMAL: usize = 1000;

#[derive(Debug, Clone, Copy, PartialEq, Eq, Structural)]
pub enum SocketState {
    Connecting,
    Open,
    Closing,
    Closed,
}

#[derive(Debug, Clone, Copy, PartialEq, Eq, Structural)]
pub enum ConnectionState {
    Connecting,
    Open,
    Closing,
    Closed,
}

#[derive(Debug, Clone, Copy, PartialEq, Eq, Structural)]
pub enum ChannelState {
    Closed,
    Errored,
    Joined,
    Joining,
    Leaving,
}

#[derive(Debug, Clone, Copy, PartialEq, Eq, Structural)]
pub enum MessageEvent {
    Close,
    Error,
    Join,
    Reply,
    Leave,
    AccessToken,
    PresenceState,
    System,
    Heartbeat,
    PostgresChanges,
    Broadcast,
}

impl Default for MessageEvent {
    fn default() -> (event: Self)
        ensures
            event == MessageEvent::Broadcast,
    {
        MessageEvent::Broadcast
    }
}

#[derive(Debug, Clone, Copy, PartialEq, Eq, Structural)]
pub enum Transport {
    WebSocket,
}

} // verus!
