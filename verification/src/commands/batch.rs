//! Running several literal statements given as one text.

use vstd::prelude::*;
use rusqlite::Connection;
use crate::engine;
use crate::error::{engine_text, BridgeError};

verus! {

/// Runs the statements of `batch_sql` in order, with no parameters.
///
/// The engine stops at the first statement that fails; what ran before it
/// stays applied unless the text itself opened a transaction. The failure
/// carries the engine's text. An empty text holds nothing to run and
/// succeeds.
pub fn execute_batch(connection: &Connection, batch_sql: &str) -> (r: Result<(), BridgeError>)
    ensures
        r matches Err(e) ==> e@ is BatchFailed && e@.has_engine_text(),
        batch_sql@.len() == 0 ==> r is Ok,
{
    match engine::run_batch(connection, batch_sql) {
        Ok(()) => Ok(()),
        Err(failure) => Err(BridgeError::BatchFailed(engine_text(&failure))),
    }
}

} // verus!
