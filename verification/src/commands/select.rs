//! Running one query and collecting its rows.

use vstd::prelude::*;
use rusqlite::{Connection, Row, Statement};
use crate::bind::{
    all_unnamed, bind_named, has_missing, names_absent_parameter, reports_first_missing,
};
use crate::engine::{
    self, cells_of, column_texts, columns_of, compiled, has_text_columns, placeholders_of,
    reads_text,
};
use crate::error::{engine_text, BindFailureModel, BridgeError, ErrorModel};
use crate::types::{NamedParameters, ResultList, ResultRow};
use crate::value::{dynamic_of, from_native, DynamicModel, DynamicValue, NativeModel, NativeValue};

verus! {

/// The texts of a list of names.
pub open spec fn texts_of(names: Seq<String>) -> Seq<Seq<char>> {
    Seq::new(names.len(), |i: int| names[i]@)
}

/// The readings of a list of cells.
pub open spec fn models_of(cells: Seq<NativeValue>) -> Seq<NativeModel> {
    Seq::new(cells.len(), |i: int| cells[i]@)
}

/// The reading of a row: each name with the reading of its value.
pub open spec fn row_model(row: Map<Seq<char>, DynamicValue>) -> Map<Seq<char>, DynamicModel> {
    Map::new(|name: Seq<char>| row.contains_key(name), |name: Seq<char>| row[name]@)
}

/// The row that the first `count` cells spell out: each cell's dynamic
/// value under the name at its position, a later cell replacing an earlier
/// one of the same name. The first cell without a dynamic value is the
/// failure.
pub open spec fn row_upto(names: Seq<Seq<char>>, cells: Seq<NativeModel>, count: int) -> Result<
    Map<Seq<char>, DynamicModel>,
    ErrorModel,
>
    decreases count,
{
    if count <= 0 {
        Ok(Map::empty())
    } else {
        match row_upto(names, cells, count - 1) {
            Err(failure) => Err(failure),
            Ok(row) => match dynamic_of(cells[count - 1]) {
                Ok(value) => Ok(row.insert(names[count - 1], value)),
                Err(failure) => Err(failure),
            },
        }
    }
}

/// The row that names and cells spell out, position by position, as far as
/// both reach.
pub open spec fn row_of(names: Seq<Seq<char>>, cells: Seq<NativeModel>) -> Result<
    Map<Seq<char>, DynamicModel>,
    ErrorModel,
> {
    row_upto(names, cells, if names.len() <= cells.len() { names.len() as int } else {
        cells.len() as int
    })
}

/// The reading of the outcome of building a row.
pub open spec fn decoded_row(r: Result<ResultRow, BridgeError>) -> Result<
    Map<Seq<char>, DynamicModel>,
    ErrorModel,
> {
    match r {
        Ok(row) => Ok(row_model(row@)),
        Err(failure) => Err(failure@),
    }
}

/// A row that was built from `count` cells has a value under each of the
/// first `count` names and under no other.
pub proof fn lemma_row_names(names: Seq<Seq<char>>, cells: Seq<NativeModel>, count: int)
    requires
        0 <= count <= names.len(),
        row_upto(names, cells, count) is Ok,
    ensures
        row_upto(names, cells, count)->Ok_0.dom() == names.subrange(0, count).to_set(),
    decreases count,
{
    if count == 0 {
        assert(names.subrange(0, 0).to_set() =~= Set::<Seq<char>>::empty());
        assert(row_upto(names, cells, 0)->Ok_0.dom() =~= Set::<Seq<char>>::empty());
    } else {
        lemma_row_names(names, cells, count - 1);
        let shorter = names.subrange(0, count - 1);
        let longer = names.subrange(0, count);
        assert forall|name: Seq<char>| longer.contains(name) <==> shorter.contains(name) || name
            == names[count - 1] by {
            if shorter.contains(name) {
                assert(longer[shorter.index_of(name)] == name);
            }
            if name == names[count - 1] {
                assert(longer[count - 1] == name);
            }
            if longer.contains(name) {
                let j = longer.index_of(name);
                if j < count - 1 {
                    assert(shorter[j] == name);
                }
            }
        }
        assert(longer.to_set() =~= shorter.to_set().insert(names[count - 1]));
    }
}

/// Once a cell has failed, more cells do not change the failure; and the
/// only failure is that of a cell without a dynamic value.
pub proof fn lemma_row_failure(
    names: Seq<Seq<char>>,
    cells: Seq<NativeModel>,
    count: int,
    more: int,
)
    requires
        count <= more,
        row_upto(names, cells, count) is Err,
    ensures
        row_upto(names, cells, more) == row_upto(names, cells, count),
        row_upto(names, cells, count)->Err_0 is UnsupportedType,
    decreases more,
{
    if count < more {
        lemma_row_failure(names, cells, count, more - 1);
    } else if count > 0 {
        if row_upto(names, cells, count - 1) is Err {
            lemma_row_failure(names, cells, count - 1, count - 1);
        }
    }
}

/// Puts the value of one cell into a row, under the column's name.
///
/// The cell is converted to its dynamic value first; where it has none the
/// row stays as it was. A second cell under a name that the row already
/// holds replaces the first.
pub fn decode_cell(row: &mut ResultRow, name: &String, cell: NativeValue) -> (r: Result<
    (),
    BridgeError,
>)
    ensures
        match dynamic_of(cell@) {
            Ok(value) => r is Ok && exists|stored: DynamicValue|
                #![auto]
                stored@ == value && final(row)@ == old(row)@.insert(name@, stored),
            Err(failure) => r matches Err(e) && e@ == failure && final(row)@ == old(row)@,
        },
{
    let value = from_native(cell)?;
    row.insert(name.clone(), value);
    Ok(())
}

/// Builds a row from the names of the columns and the cells of one row of
/// the result, position by position.
///
/// Each cell's dynamic value stands under the name at its position; of two
/// cells under one name the later stays. The first cell without a dynamic
/// value is the failure. Names and cells are paired as far as both reach.
pub fn decode_row(names: &Vec<String>, cells: Vec<NativeValue>) -> (r: Result<
    ResultRow,
    BridgeError,
>)
    ensures
        decoded_row(r) == row_of(texts_of(names@), models_of(cells@)),
{
    let ghost columns = texts_of(names@);
    let ghost values = models_of(cells@);
    let mut row = ResultRow::new();
    let mut index: usize = 0;
    assert(row_model(row@) =~= Map::<Seq<char>, DynamicModel>::empty());
    for cell in it: cells
        invariant
            it.seq() == cells@,
            index == it.index(),
            index <= names@.len(),
            columns == texts_of(names@),
            values == models_of(cells@),
            row_upto(columns, values, index as int) == Ok::<
                Map<Seq<char>, DynamicModel>,
                ErrorModel,
            >(row_model(row@)),
    {
        if index >= names.len() {
            return Ok(row);
        }
        let ghost before = row@;
        assert(values[index as int] == cell@);
        match decode_cell(&mut row, &names[index], cell) {
            Ok(()) => {
                assert(row_model(row@) =~= row_model(before).insert(
                    columns[index as int],
                    dynamic_of(values[index as int])->Ok_0,
                ));
            },
            Err(failure) => {
                proof {
                    let reach = if columns.len() <= values.len() {
                        columns.len() as int
                    } else {
                        values.len() as int
                    };
                    lemma_row_failure(columns, values, index + 1, reach);
                }
                return Err(failure);
            },
        }
        index = index + 1;
    }
    Ok(row)
}

/// Every row has exactly the given columns.
pub open spec fn rows_have(rows: Seq<ResultRow>, columns: Seq<Seq<char>>) -> bool {
    forall|i: int| 0 <= i < rows.len() ==> (#[trigger] rows[i])@.dom() == columns.to_set()
}

/// The row is what some cells, one for each column, spell out under the
/// column names.
pub open spec fn is_row_of(row: ResultRow, columns: Seq<Seq<char>>) -> bool {
    exists|cells: Seq<NativeModel>|
        cells.len() == columns.len() && #[trigger] row_of(columns, cells) == Ok::<
            Map<Seq<char>, DynamicModel>,
            ErrorModel,
        >(row_model(row@))
}

/// Every row is what some cells spell out under the column names.
pub open spec fn rows_are_of(rows: Seq<ResultRow>, columns: Seq<Seq<char>>) -> bool {
    forall|i: int| 0 <= i < rows.len() ==> is_row_of(#[trigger] rows[i], columns)
}

/// The first `count` cells can all be handed over.
pub open spec fn readable(cells: Seq<Option<NativeModel>>, count: int) -> bool {
    &&& count <= cells.len()
    &&& forall|i: int| 0 <= i < count ==> (#[trigger] cells[i]) is Some
}

/// The first `count` cells, where they can all be handed over.
pub open spec fn cells_read(cells: Seq<Option<NativeModel>>, count: int) -> Seq<NativeModel> {
    Seq::new(count as nat, |i: int| cells[i]->0)
}

/// What reading one row returns.
///
/// Where the engine hands over a cell for every name, the row is what
/// those cells spell out under the names, or the failure of the first cell
/// without a dynamic value. Where it does not, the failure is the engine's.
pub open spec fn read_outcome(
    names: Seq<Seq<char>>,
    cells: Seq<Option<NativeModel>>,
    r: Result<ResultRow, BridgeError>,
) -> bool {
    if readable(cells, names.len() as int) {
        decoded_row(r) == row_of(names, cells_read(cells, names.len() as int))
    } else {
        r matches Err(e) && e@ is StepFailed && e@.has_engine_text()
    }
}

/// What running a compiled query returns, as far as its placeholders, the
/// column names and the parameters decide it.
///
/// A missing parameter is reported, the first one by name, and that is the
/// only outcome then: the query does not run. With none missing the engine
/// decides how many rows there are and what their cells hold; each row is
/// what its cells spell out under the column names, so it has a value under
/// every column name and under no other. A failure is a value that the
/// engine refused, a failure to produce or read a row, or a cell that has
/// no dynamic value.
pub open spec fn select_outcome(
    names: Seq<Option<Seq<char>>>,
    columns: Seq<Seq<char>>,
    parameters: Map<Seq<char>, DynamicValue>,
    r: Result<ResultList, BridgeError>,
) -> bool {
    if has_missing(names, parameters) {
        r matches Err(e) && reports_first_missing(names, parameters, e@)
    } else {
        match r {
            Ok(rows) => rows_have(rows@, columns) && rows_are_of(rows@, columns),
            Err(e) => e@.has_engine_text() && ({
                ||| e@ is StepFailed
                ||| e@ is UnsupportedType
                ||| e@ matches ErrorModel::BindFailed(BindFailureModel::Engine(_)) && !all_unnamed(
                    names,
                )
            }),
        }
    }
}

/// What a query returns that is compiled first: the failure to compile it,
/// or what running the compiled statement returns under its own column
/// names.
pub open spec fn query_outcome(
    connection: Connection,
    sql: Seq<char>,
    parameters: Map<Seq<char>, DynamicValue>,
    r: Result<ResultList, BridgeError>,
) -> bool {
    ||| r matches Err(e) && e@ is PrepareFailed && e@.has_engine_text()
    ||| exists|statement: Statement<'_>|
        #![trigger compiled(statement, connection, sql)]
        compiled(statement, connection, sql) && select_outcome(
            placeholders_of(statement),
            column_texts(statement),
            parameters,
            r,
        )
}

/// What a query returns that is compiled first and read under names that
/// the caller gives.
pub open spec fn named_query_outcome(
    connection: Connection,
    sql: Seq<char>,
    columns: Seq<Seq<char>>,
    parameters: Map<Seq<char>, DynamicValue>,
    r: Result<ResultList, BridgeError>,
) -> bool {
    ||| r matches Err(e) && e@ is PrepareFailed && e@.has_engine_text()
    ||| exists|statement: Statement<'_>|
        #![trigger compiled(statement, connection, sql)]
        compiled(statement, connection, sql) && select_outcome(
            placeholders_of(statement),
            columns,
            parameters,
            r,
        )
}

/// Reads the names of the columns of a statement's result, in column order.
/// Every column below the count has a name, so this does not fail.
fn column_names(statement: &Statement<'_>) -> (r: Result<Vec<String>, BridgeError>)
    requires
        has_text_columns(*statement),
    ensures
        r matches Ok(names) && texts_of(names@) == column_texts(*statement),
{
    let count = engine::column_count(statement);
    let mut names: Vec<String> = Vec::new();
    let mut index: usize = 0;
    while index < count
        invariant
            index <= count,
            count == columns_of(*statement).len(),
            has_text_columns(*statement),
            names@.len() == index,
            forall|j: int|
                0 <= j < index ==> (#[trigger] names@[j])@ == column_texts(*statement)[j],
        decreases count - index,
    {
        match engine::column_name(statement, index) {
            Ok(name) => names.push(name),
            Err(failure) => {
                return Err(BridgeError::PrepareFailed(engine_text(&failure)));
            },
        }
        index = index + 1;
    }
    assert(texts_of(names@) =~= column_texts(*statement));
    Ok(names)
}

/// Builds the row that the query stands on: the cell at each position
/// under the name at that position.
fn read_row(current: &Row<'_>, names: &Vec<String>) -> (r: Result<ResultRow, BridgeError>)
    ensures
        read_outcome(texts_of(names@), cells_of(*current), r),
{
    let ghost held = cells_of(*current);
    let mut cells: Vec<NativeValue> = Vec::new();
    let mut index: usize = 0;
    while index < names.len()
        invariant
            index <= names@.len(),
            held == cells_of(*current),
            readable(held, index as int),
            cells@.len() == index,
            forall|j: int| 0 <= j < index ==> (#[trigger] cells@[j])@ == held[j]->0,
        decreases names@.len() - index,
    {
        match engine::column_value(current, index) {
            Ok(cell) => cells.push(cell),
            Err(failure) => {
                assert(!readable(held, names@.len() as int)) by {
                    if readable(held, names@.len() as int) {
                        assert(held[index as int] is Some);
                    }
                }
                return Err(BridgeError::StepFailed(engine_text(&failure)));
            },
        }
        index = index + 1;
    }
    assert(models_of(cells@) =~= cells_read(held, names@.len() as int));
    decode_row(names, cells)
}

/// Binds `parameters` to the named placeholders of a compiled query, runs
/// it and returns its rows in the engine's order, each row under the names
/// given: the cell at each position under the name at that position.
///
/// The names are the caller's, one for each column; the statement is not
/// asked for its own. A row that has fewer cells than there are names is a
/// failure to read it.
pub fn select_named(
    statement: &mut Statement<'_>,
    names: &Vec<String>,
    parameters: &NamedParameters,
) -> (r: Result<ResultList, BridgeError>)
    ensures
        select_outcome(placeholders_of(*old(statement)), texts_of(names@), parameters@, r),
{
    let ghost columns = texts_of(names@);
    bind_named(statement, parameters)?;
    let mut list: ResultList = Vec::new();
    let mut rows = engine::start_query(statement);
    loop
        invariant
            columns == texts_of(names@),
            !has_missing(placeholders_of(*old(statement)), parameters@),
            rows_have(list@, columns),
            rows_are_of(list@, columns),
        decreases usize::MAX - list@.len(),
    {
        match engine::next_row(&mut rows) {
            Err(failure) => {
                return Err(BridgeError::StepFailed(engine_text(&failure)));
            },
            Ok(None) => {
                return Ok(list);
            },
            Ok(Some(current)) => {
                let row = match read_row(current, names) {
                    Ok(row) => row,
                    Err(failure) => {
                        proof {
                            let held = cells_of(*current);
                            if readable(held, columns.len() as int) {
                                lemma_row_failure(
                                    columns,
                                    cells_read(held, columns.len() as int),
                                    columns.len() as int,
                                    columns.len() as int,
                                );
                            }
                        }
                        return Err(failure);
                    },
                };
                proof {
                    let cells = cells_read(cells_of(*current), columns.len() as int);
                    assert(row_of(columns, cells) == Ok::<Map<Seq<char>, DynamicModel>, ErrorModel>(
                        row_model(row@),
                    ));
                    lemma_row_names(columns, cells, columns.len() as int);
                    assert(columns.subrange(0, columns.len() as int) =~= columns);
                    assert(row_model(row@).dom() =~= row@.dom());
                    assert(is_row_of(row, columns));
                }
                list.push(row);
                assert(list@.len() == list.len());
            },
        }
    }
}

/// Binds `parameters` to the named placeholders of a compiled query, runs
/// it and returns its rows in the engine's order, each row under the
/// statement's own column names.
///
/// The column names of the statement must be text: `rusqlite` cannot hand
/// over a name that is not.
pub fn select_prepared(statement: &mut Statement<'_>, parameters: &NamedParameters) -> (r: Result<
    ResultList,
    BridgeError,
>)
    requires
        has_text_columns(*old(statement)),
    ensures
        select_outcome(
            placeholders_of(*old(statement)),
            column_texts(*old(statement)),
            parameters@,
            r,
        ),
{
    let names = column_names(statement)?;
    select_named(statement, &names, parameters)
}

/// Compiles `sql`, binds `parameters` to its named placeholders, runs the
/// query and returns its rows in the engine's order, each row under the
/// names given.
///
/// This asks nothing of the schema behind the connection: the names are
/// the caller's, one for each column of the result.
pub fn execute_select_named(
    connection: &Connection,
    sql: &str,
    names: &Vec<String>,
    parameters: &NamedParameters,
) -> (r: Result<ResultList, BridgeError>)
    ensures
        named_query_outcome(*connection, sql@, texts_of(names@), parameters@, r),
        r matches Ok(rows) ==> rows_have(rows@, texts_of(names@)) && rows_are_of(
            rows@,
            texts_of(names@),
        ),
        r matches Err(e) ==> (e@ is PrepareFailed || e@ is BindFailed || e@ is StepFailed || e@
            is UnsupportedType) && e@.has_engine_text(),
        r matches Err(e) ==> names_absent_parameter(parameters@, e@),
{
    let mut statement = match engine::prepare(connection, sql) {
        Ok(statement) => statement,
        Err(failure) => {
            return Err(BridgeError::PrepareFailed(engine_text(&failure)));
        },
    };
    let ghost before = statement;
    let r = select_named(&mut statement, names, parameters);
    assert(compiled(before, *connection, sql@));
    r
}

/// Compiles `sql`, binds `parameters` to its named placeholders, runs the
/// query and returns its rows in the engine's order.
///
/// The query does not run unless it compiled and every parameter was bound.
/// It runs in whatever transaction the connection is in. The names in the
/// schema behind the connection must be text, as they are where the schema
/// was written as SQL text. Unless the text fails to compile, the result
/// is what running the compiled statement returns: a placeholder of it that
/// `parameters` lacks is reported, the first one by name, and nothing runs.
/// All rows of one result have the same columns, and each row is what its
/// cells spell out under them.
pub fn execute_select(connection: &Connection, sql: &str, parameters: &NamedParameters) -> (r:
    Result<ResultList, BridgeError>)
    requires
        reads_text(*connection),
    ensures
        query_outcome(*connection, sql@, parameters@, r),
        r matches Ok(rows) ==> exists|columns: Seq<Seq<char>>|
            rows_have(rows@, columns) && rows_are_of(rows@, columns),
        r matches Err(e) ==> (e@ is PrepareFailed || e@ is BindFailed || e@ is StepFailed || e@
            is UnsupportedType) && e@.has_engine_text(),
        r matches Err(e) ==> names_absent_parameter(parameters@, e@),
{
    let mut statement = match engine::prepare(connection, sql) {
        Ok(statement) => statement,
        Err(failure) => {
            return Err(BridgeError::PrepareFailed(engine_text(&failure)));
        },
    };
    let ghost before = statement;
    let ghost columns = column_texts(statement);
    let r = select_prepared(&mut statement, parameters);
    assert(compiled(before, *connection, sql@));
    assert(r matches Ok(rows) ==> rows_have(rows@, columns) && rows_are_of(rows@, columns));
    r
}

} // verus!
