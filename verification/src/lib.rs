//! The protocol and the decisions of a client for Supabase Realtime.
//!
//! The library holds everything that a connection decides: the messages, the
//! filters, the state of channels and of their presence, the state of the
//! client, the request that opens the socket and the rules of reconnecting.
//! What performs the decisions (sockets, tasks, timers) stands outside it.
use vstd::prelude::*;

pub mod constants;
pub mod duration;
pub mod headers;
pub mod identifier;
pub mod json;
pub mod laws;
pub mod message;
pub mod places;
pub mod realtime_channel;
pub mod realtime_client;
pub mod realtime_presence;
pub mod request;
pub mod string_map;
pub mod sync;
pub mod uri;

verus! {

} // verus!
