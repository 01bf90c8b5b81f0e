use vstd::prelude::*;

use crate::message::payload::Payload;
use crate::message::postgres_change_filter::{is_in_table, reports_change};
use crate::message::realtime_message::RealtimeMessage;
use crate::string_map::Deep;

verus! {

/// Incoming message filter for local callbacks
#[derive(Debug, Clone)]
pub struct CdcMessageFilter {
    pub schema: String,
    pub table: Option<String>,
    pub filter: Option<String>,
}

impl Default for CdcMessageFilter {
    fn default() -> (filter: Self)
        ensures
            filter.schema@ == Seq::<char>::empty(),
            filter.table is None,
            filter.filter is None,
    {
        CdcMessageFilter { schema: String::new(), table: None, filter: None }
    }
}

impl CdcMessageFilter {
    /// Hands back the messages that report a change of the filter's schema and
    /// table, and drops all others. The row filter is applied by the server and
    /// does not count here.
    pub fn check(&self, message: RealtimeMessage) -> (passed: Option<RealtimeMessage>)
        ensures
            passed == (if reports_change(message, self.schema@, self.table.model()) {
                Some(message)
            } else {
                None
            }),
    {
        let passes: bool = match &message.payload {
            Payload::PostgresChanges(payload) => is_in_table(
                &payload.data,
                &self.schema,
                &self.table,
            ),
            _ => false,
        };
        if passes {
            Some(message)
        } else {
            None
        }
    }
}

} // verus!
