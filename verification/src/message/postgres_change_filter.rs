use vstd::prelude::*;

use crate::message::payload::{Payload, PostgresChangeData};
use crate::message::realtime_message::RealtimeMessage;
use crate::string_map::Deep;

verus! {

/// Incoming message filter for local callbacks
#[derive(Debug, Clone)]
pub struct PostgresChangeFilter {
    pub schema: String,
    pub table: Option<String>,
    pub filter: Option<String>,
}

/// Whether a change is one of the given schema and, if a table is given, of
/// that table.
pub open spec fn in_table(data: PostgresChangeData, schema: Seq<char>, table: Option<Seq<char>>) -> bool {
    &&& data.schema@ == schema
    &&& table matches Some(name) ==> data.table@ == name
}

/// Whether a message reports a change of the given schema and table.
pub open spec fn reports_change(
    message: RealtimeMessage,
    schema: Seq<char>,
    table: Option<Seq<char>>,
) -> bool {
    message.payload matches Payload::PostgresChanges(payload) && in_table(
        payload.data,
        schema,
        table,
    )
}

/// Whether the change in `data` is one of `schema` and, if a table is given,
/// of that table.
pub(crate) fn is_in_table(data: &PostgresChangeData, schema: &String, table: &Option<String>) -> (yes:
    bool)
    ensures
        yes == in_table(*data, schema@, table.model()),
{
    if let Some(name) = table {
        if *name != data.table {
            return false;
        }
    }
    data.schema == *schema
}

impl Default for PostgresChangeFilter {
    fn default() -> (filter: Self)
        ensures
            filter.schema@ == Seq::<char>::empty(),
            filter.table is None,
            filter.filter is None,
    {
        PostgresChangeFilter { schema: String::new(), table: None, filter: None }
    }
}

impl PostgresChangeFilter {
    /// Whether a message passes the filter.
    pub open spec fn accepts(&self, message: RealtimeMessage) -> bool {
        reports_change(message, self.schema@, self.table.model())
    }

    /// Lets the changes of the filter's schema and table pass. The row filter
    /// is applied by the server and does not count here.
    pub fn check(&self, message: &RealtimeMessage) -> (passes: bool)
        ensures
            passes == self.accepts(*message),
    {
        match &message.payload {
            Payload::PostgresChanges(payload) => is_in_table(
                &payload.data,
                &self.schema,
                &self.table,
            ),
            _ => false,
        }
    }
}

} // verus!
