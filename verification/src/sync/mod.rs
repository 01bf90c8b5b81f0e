//! The client with middleware on the messages that it receives.
mod realtime_channel;
mod realtime_client;

pub use realtime_channel::{
    quoted, ChannelManager, ChannelManagerMessage, ChannelSendError, ChannelState, RealtimeChannel,
    RealtimeChannelBuilder, SocketTx,
};
pub use realtime_client::{
    client_request, connection_state, has_topic, no_middleware_no_change,
    removed_middleware_is_gone, removing_undoes_adding, runs_on_any, runs_to, without_middleware,
    AuthError, ClientManagerMessage, ConnectError, ConnectionState, MonitorError, NextMessageError,
    RealtimeClient, RealtimeClientBuilder, ReconnectFn, SocketError, TryRecvError,
};
