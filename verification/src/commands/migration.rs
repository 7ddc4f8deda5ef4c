//! Applying ordered migration steps.

use vstd::prelude::*;
use rusqlite::Connection;
use crate::engine;
use crate::error::{engine_text, is_engine_text, BridgeError, ErrorModel};
use crate::types::{MigrationStep, Migrations};

verus! {

/// The place of a statement in a list of steps.
#[derive(Clone, Copy, Debug, PartialEq, Eq)]
pub struct Place {
    pub step: usize,
    pub statement: usize,
}

/// What a run does next: it runs the statement at a place, or it is over
/// with a result.
#[derive(Debug, PartialEq, Eq)]
pub enum Move {
    Run(Place),
    Finish(Result<(), BridgeError>),
}

/// The step has a statement that is not the empty text.
pub open spec fn has_statement(step: MigrationStep) -> bool {
    exists|j: int| 0 <= j < step.sql@.len() && (#[trigger] step.sql@[j])@.len() > 0
}

/// The failure of a step, but for the engine's text.
pub open spec fn fails_in(failure: ErrorModel, step: MigrationStep) -> bool {
    &&& failure matches ErrorModel::MigrationFailed { version, description, .. }
    &&& version == step.version
    &&& description == step.description@
}

/// There is a statement at the place.
pub open spec fn is_statement(steps: Seq<MigrationStep>, step: int, statement: int) -> bool {
    0 <= step < steps.len() && 0 <= statement < steps[step].sql@.len()
}

/// The first place comes before the second in the order of a run: steps in
/// the order given, and within a step its statements in order.
pub open spec fn comes_before(step: int, statement: int, other: int, other_statement: int) -> bool {
    step < other || (step == other && statement < other_statement)
}

/// `found` is the first statement at or after the place.
pub open spec fn is_first_from(
    steps: Seq<MigrationStep>,
    step: int,
    statement: int,
    found: Place,
) -> bool {
    &&& is_statement(steps, found.step as int, found.statement as int)
    &&& !comes_before(found.step as int, found.statement as int, step, statement)
    &&& forall|i: int, j: int|
        #[trigger] is_statement(steps, i, j) && !comes_before(i, j, step, statement)
            ==> !comes_before(i, j, found.step as int, found.statement as int)
}

/// No statement stands at or after the place.
pub open spec fn none_from(steps: Seq<MigrationStep>, step: int, statement: int) -> bool {
    forall|i: int, j: int| #[trigger] is_statement(steps, i, j) ==> comes_before(i, j, step, statement)
}

/// The move that leads on from a place: to the first statement at or after
/// it, or to the end of the run where there is none.
pub open spec fn leads_on(steps: Seq<MigrationStep>, step: int, statement: int, next: Move) -> bool {
    match next {
        Move::Run(found) => is_first_from(steps, step, statement, found),
        Move::Finish(result) => result is Ok && none_from(steps, step, statement),
    }
}

/// The failure that a step reports when one of its statements fails with
/// the given text.
pub fn step_failure(step: &MigrationStep, message: String) -> (e: BridgeError)
    ensures
        e@ == (ErrorModel::MigrationFailed {
            version: step.version as int,
            description: step.description@,
            message: message@,
        }),
{
    BridgeError::MigrationFailed {
        version: step.version,
        description: step.description.clone(),
        message,
    }
}

/// The first statement at or after a place, in the order of a run. Steps
/// without a statement are passed over.
pub fn statement_from(migrations: &Migrations, step: usize, statement: usize) -> (r: Option<Place>)
    ensures
        match r {
            Some(found) => is_first_from(migrations@, step as int, statement as int, found),
            None => none_from(migrations@, step as int, statement as int),
        },
{
    let mut i: usize = step;
    let mut j: usize = statement;
    while i < migrations.len()
        invariant
            !comes_before(i as int, j as int, step as int, statement as int),
            forall|a: int, b: int|
                #[trigger] is_statement(migrations@, a, b) && !comes_before(
                    a,
                    b,
                    step as int,
                    statement as int,
                ) ==> !comes_before(a, b, i as int, j as int),
        decreases migrations@.len() - i,
    {
        if j < migrations[i].sql.len() {
            return Some(Place { step: i, statement: j });
        }
        i = i + 1;
        j = 0;
    }
    None
}

/// The first move of a run: the first statement of the list, or success at
/// once where the list has no statement.
pub fn first_move(migrations: &Migrations) -> (next: Move)
    ensures
        leads_on(migrations@, 0, 0, next),
{
    match statement_from(migrations, 0, 0) {
        Some(found) => Move::Run(found),
        None => Move::Finish(Ok(())),
    }
}

/// The move after a statement has run.
///
/// A statement that failed ends the run at once, with the failure of its
/// step and the text given: nothing after it runs. A statement that
/// succeeded leads on to the statement after it, in the order of the run,
/// or to success where it was the last.
pub fn next_move(migrations: &Migrations, ran: Place, outcome: Result<(), String>) -> (next: Move)
    requires
        is_statement(migrations@, ran.step as int, ran.statement as int),
    ensures
        match outcome {
            Ok(()) => leads_on(migrations@, ran.step as int, ran.statement + 1, next),
            Err(message) => next matches Move::Finish(Err(e)) && e@
                == (ErrorModel::MigrationFailed {
                version: migrations@[ran.step as int].version as int,
                description: migrations@[ran.step as int].description@,
                message: message@,
            }),
        },
{
    match outcome {
        Ok(()) => {
            assert(ran.statement < migrations@[ran.step as int].sql.len());
            match statement_from(migrations, ran.step, ran.statement + 1) {
                Some(found) => Move::Run(found),
                None => Move::Finish(Ok(())),
            }
        },
        Err(message) => Move::Finish(Err(step_failure(&migrations[ran.step], message))),
    }
}

/// What a run returns, whatever the engine answers: a failure is that of
/// one of the steps, which has a statement, with the engine's text; and a
/// list without a statement succeeds.
pub open spec fn run_outcome(steps: Seq<MigrationStep>, r: Result<(), BridgeError>) -> bool {
    &&& r matches Err(e) ==> e@.has_engine_text() && exists|i: int|
        #![auto]
        0 <= i < steps.len() && fails_in(e@, steps[i]) && has_statement(steps[i])
    &&& (forall|i: int| 0 <= i < steps.len() ==> !has_statement(#[trigger] steps[i])) ==> r is Ok
}

/// Applies the steps in the order given and stops at the first that fails.
///
/// Between two steps the run is idle; while a step is applied its
/// statements run one by one; the first failure ends the run for good. The
/// steps are not sorted, and no record of applied versions is read or kept,
/// so a second run executes every statement again. The failure names the
/// version and description of the step that failed; no step after it is
/// touched. Which statement runs next is decided by `first_move` and
/// `next_move` alone.
pub fn execute_migration(connection: &Connection, migrations: &Migrations) -> (r: Result<
    (),
    BridgeError,
>)
    ensures
        run_outcome(migrations@, r),
{
    let mut next = first_move(migrations);
    loop
        invariant
            next matches Move::Run(place) ==> is_statement(
                migrations@,
                place.step as int,
                place.statement as int,
            ),
            next matches Move::Finish(result) ==> run_outcome(migrations@, result),
        decreases
            (if let Move::Run(place) = next {
                migrations@.len() - place.step
            } else {
                0
            }),
            (if let Move::Run(place) = next {
                migrations@[place.step as int].sql@.len() - place.statement
            } else {
                0
            }),
    {
        match next {
            Move::Finish(result) => {
                return result;
            },
            Move::Run(place) => {
                let sql = migrations[place.step].sql[place.statement].as_str();
                let outcome = match engine::run_batch(connection, sql) {
                    Ok(()) => Ok(()),
                    Err(failure) => Err(engine_text(&failure)),
                };
                proof {
                    if outcome is Err {
                        assert(migrations@[place.step as int].sql@[place.statement as int]@.len()
                            > 0);
                        assert(has_statement(migrations@[place.step as int]));
                        assert(is_engine_text(outcome->Err_0@));
                    }
                }
                next = next_move(migrations, place, outcome);
            },
        }
    }
}

} // verus!
