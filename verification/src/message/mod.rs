//! The messages that go to and come from the server.
mod postgres_change_filter;
mod realtime_message;

pub mod cdc_message_filter;
pub mod message_filter;
pub mod payload;
pub mod presence;
pub use postgres_change_filter::{in_table, reports_change, PostgresChangeFilter};
pub use realtime_message::{event_is_written_quoted, MessageEvent, RealtimeMessage};
