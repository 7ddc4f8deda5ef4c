//! Running one statement that changes data.

use vstd::prelude::*;
use rusqlite::{Connection, Statement};
use crate::bind::{
    all_unnamed, bind_named, has_missing, names_absent_parameter, reports_first_missing,
};
use crate::engine::{self, compiled, placeholders_of};
use crate::error::{engine_text, BindFailureModel, BridgeError, ErrorModel};
use crate::types::NamedParameters;
use crate::value::DynamicValue;

verus! {

/// What running a compiled update returns, as far as its placeholders and
/// the parameters decide it.
///
/// A missing parameter is reported, the first one by name, and that is the
/// only outcome then: the statement does not run. With none missing the
/// engine decides, and a failure is either a value that it refused or the
/// failure of the run, with the engine's text.
pub open spec fn update_outcome(
    names: Seq<Option<Seq<char>>>,
    parameters: Map<Seq<char>, DynamicValue>,
    r: Result<(), BridgeError>,
) -> bool {
    if has_missing(names, parameters) {
        r matches Err(e) && reports_first_missing(names, parameters, e@)
    } else {
        r matches Err(e) ==> e@.has_engine_text() && ({
            ||| e@ is ExecutionFailed
            ||| e@ matches ErrorModel::BindFailed(BindFailureModel::Engine(_)) && !all_unnamed(names)
        })
    }
}

/// What an update returns that is compiled first: the failure to compile
/// it, or what running the compiled statement returns.
pub open spec fn change_outcome(
    connection: Connection,
    sql: Seq<char>,
    parameters: Map<Seq<char>, DynamicValue>,
    r: Result<(), BridgeError>,
) -> bool {
    ||| r matches Err(e) && e@ is PrepareFailed && e@.has_engine_text()
    ||| exists|statement: Statement<'_>|
        #![trigger compiled(statement, connection, sql)]
        compiled(statement, connection, sql) && update_outcome(
            placeholders_of(statement),
            parameters,
            r,
        )
}

/// Binds `parameters` to the named placeholders of a compiled statement
/// and runs it to completion.
pub fn update_prepared(statement: &mut Statement<'_>, parameters: &NamedParameters) -> (r: Result<
    (),
    BridgeError,
>)
    ensures
        update_outcome(placeholders_of(*old(statement)), parameters@, r),
{
    bind_named(statement, parameters)?;
    match engine::run_statement(statement) {
        Ok(_) => Ok(()),
        Err(failure) => Err(BridgeError::ExecutionFailed(engine_text(&failure))),
    }
}

/// Compiles `sql`, binds `parameters` to its named placeholders and runs
/// it to completion.
///
/// The statement does not run unless it compiled and every parameter was
/// bound. It runs in whatever transaction the connection is in. Unless the
/// text fails to compile, the result is what running the compiled statement
/// returns: a placeholder of it that `parameters` lacks is reported, the
/// first one by name, and nothing runs.
pub fn execute_update(connection: &Connection, sql: &str, parameters: &NamedParameters) -> (r:
    Result<(), BridgeError>)
    ensures
        change_outcome(*connection, sql@, parameters@, r),
        r matches Err(e) ==> (e@ is PrepareFailed || e@ is BindFailed || e@ is ExecutionFailed)
            && e@.has_engine_text(),
        r matches Err(e) ==> names_absent_parameter(parameters@, e@),
{
    let mut statement = match engine::prepare(connection, sql) {
        Ok(statement) => statement,
        Err(failure) => {
            return Err(BridgeError::PrepareFailed(engine_text(&failure)));
        },
    };
    let ghost before = statement;
    let r = update_prepared(&mut statement, parameters);
    assert(compiled(before, *connection, sql@));
    r
}

} // verus!
