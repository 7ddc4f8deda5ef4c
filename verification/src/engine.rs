//! The calls into the SQLite engine. Nothing here is proved: each function
//! hands its arguments to `rusqlite` and its result back, and what a
//! contract claims is read off `rusqlite`'s source.
//!
//! What the engine answers depends on the database behind the connection,
//! so the results carry no promise beyond their types.

use vstd::prelude::*;
use rusqlite::{Connection, Row, Rows, Statement};
use crate::value::{NativeModel, NativeValue};

verus! {

/// An open database connection.
#[verifier::external_type_specification]
#[verifier::external_body]
pub struct ExConnection(rusqlite::Connection);

/// A failure reported by the engine.
#[verifier::external_type_specification]
#[verifier::external_body]
pub struct ExEngineError(rusqlite::Error);

/// A compiled statement, which borrows its connection.
#[verifier::external_type_specification]
#[verifier::external_body]
pub struct ExStatement<'conn>(rusqlite::Statement<'conn>);

/// The rows that a running query yields, which borrow the statement.
#[verifier::external_type_specification]
#[verifier::external_body]
pub struct ExRows<'stmt>(rusqlite::Rows<'stmt>);

/// The row that a query stands on.
#[verifier::external_type_specification]
#[verifier::external_body]
pub struct ExRow<'stmt>(rusqlite::Row<'stmt>);

/// The placeholders that a compiled statement holds, in index order: each
/// with its name, prefix included, or `None` where it has no name. The
/// first has index 1.
pub uninterp spec fn placeholders_of(statement: Statement<'_>) -> Seq<Option<Seq<char>>>;

/// The names of the columns that a compiled statement holds, in column
/// order. `None` stands where the name that the engine holds is not UTF-8:
/// SQL written as text cannot make such a name, a schema written by other
/// means can.
pub uninterp spec fn columns_of(statement: Statement<'_>) -> Seq<Option<Seq<char>>>;

/// The connection that a statement was compiled on.
pub uninterp spec fn connection_of(statement: Statement<'_>) -> Connection;

/// The SQL text that was handed over to compile a statement.
pub uninterp spec fn source_of(statement: Statement<'_>) -> Seq<char>;

/// The statement was compiled on the connection from the text.
pub open spec fn compiled(statement: Statement<'_>, connection: Connection, sql: Seq<char>) -> bool {
    connection_of(statement) == connection && source_of(statement) == sql
}

/// Every column name that the statement holds is text.
pub open spec fn has_text_columns(statement: Statement<'_>) -> bool {
    forall|i: int|
        0 <= i < columns_of(statement).len() ==> (#[trigger] columns_of(statement)[i]) is Some
}

/// The column names of a statement that holds only text names.
pub open spec fn column_texts(statement: Statement<'_>) -> Seq<Seq<char>> {
    Seq::new(columns_of(statement).len(), |i: int| columns_of(statement)[i]->0)
}

/// Every statement compiled on the connection holds only column names that
/// are text. That is so where the schema of the database, and of every
/// database attached to it, was written as SQL text.
pub open spec fn reads_text(connection: Connection) -> bool {
    forall|statement: Statement<'_>|
        #[trigger] connection_of(statement) == connection ==> has_text_columns(statement)
}

/// The cells that a row holds, in column order: each as the value that the
/// engine hands over, or `None` where it hands none over because the text
/// in the cell is not UTF-8. A real that is not finite reads as
/// `Real(None)`.
pub uninterp spec fn cells_of(row: Row<'_>) -> Seq<Option<NativeModel>>;

/// The reading of a name that may be lacking.
pub open spec fn name_model(name: Option<String>) -> Option<Seq<char>> {
    match name {
        Some(name) => Some(name@),
        None => None,
    }
}

/// `Connection::open`: opens the database file at `path`, creating it if
/// it is missing.
#[verifier::external_body]
pub(crate) fn open_file(path: &str) -> (r: Result<Connection, rusqlite::Error>) {
    Connection::open(path)
}

/// `Connection::open_in_memory`: opens a fresh database that lives in
/// memory.
#[verifier::external_body]
pub(crate) fn open_memory() -> (r: Result<Connection, rusqlite::Error>) {
    Connection::open_in_memory()
}

/// `Connection::open_with_flags`, with the flags read-write and create and
/// no others.
#[verifier::external_body]
pub(crate) fn open_read_write(path: &str) -> (r: Result<Connection, rusqlite::Error>) {
    Connection::open_with_flags(
        path,
        rusqlite::OpenFlags::SQLITE_OPEN_READ_WRITE | rusqlite::OpenFlags::SQLITE_OPEN_CREATE,
    )
}

/// `Connection::pragma_update` on the pragma `key`: hands the encryption
/// key to the engine. `rusqlite` refuses a pragma that the engine does not
/// list, so an engine built without encryption reports an error here.
#[verifier::external_body]
pub(crate) fn set_key(connection: &Connection, key: &str) -> (r: Result<(), rusqlite::Error>) {
    connection.pragma_update(None, "key", key)
}

/// `Connection::close`: closes the connection. When the engine refuses,
/// the connection that `rusqlite` hands back is dropped here, and only the
/// failure is kept.
#[verifier::external_body]
pub(crate) fn close_connection(connection: Connection) -> (r: Result<(), rusqlite::Error>) {
    connection.close().map_err(|(_, failure)| failure)
}

/// `Connection::execute_batch`: runs the statements of `sql` one after the
/// other, without parameters, and stops at the first that fails. An empty
/// text holds no statement: `rusqlite` returns success without a call to
/// the engine.
#[verifier::external_body]
pub(crate) fn run_batch(connection: &Connection, sql: &str) -> (r: Result<(), rusqlite::Error>)
    ensures
        sql@.len() == 0 ==> r is Ok,
{
    connection.execute_batch(sql)
}

/// `Connection::prepare`: compiles the single statement in `sql`. The
/// statement that comes back is the one compiled on this connection from
/// this text, and it keeps a reference to the connection.
#[verifier::external_body]
pub(crate) fn prepare<'conn>(connection: &'conn Connection, sql: &str) -> (r: Result<
    Statement<'conn>,
    rusqlite::Error,
>)
    ensures
        r matches Ok(statement) ==> connection_of(statement) == *connection && source_of(statement)
            == sql@,
{
    connection.prepare(sql)
}

/// `Statement::parameter_count`: the largest index of a placeholder in the
/// statement, which is the number of placeholders that it holds.
#[verifier::external_body]
pub(crate) fn parameter_count(statement: &Statement<'_>) -> (n: usize)
    ensures
        n == placeholders_of(*statement).len(),
{
    statement.parameter_count()
}

/// `Statement::parameter_name`: the name of the placeholder at a one-based
/// index, prefix included; `None` where the index is out of range or the
/// placeholder has no name. `rusqlite` panics on a name that is not UTF-8,
/// which a statement compiled from a `&str` cannot hold.
#[verifier::external_body]
pub(crate) fn parameter_name(statement: &Statement<'_>, index: usize) -> (name: Option<String>)
    ensures
        1 <= index <= placeholders_of(*statement).len() ==> name_model(name) == placeholders_of(
            *statement,
        )[index - 1],
{
    statement.parameter_name(index).map(|name| name.to_owned())
}

/// `Statement::raw_bind_parameter`: binds the value to the placeholder at a
/// one-based index. `rusqlite` narrows the index to a C int before the
/// engine sees it: an index up to the statement's parameter count, which is
/// a C int itself, goes through unchanged, and one that the engine finds
/// out of range is its error. A larger index would reach the placeholder
/// that the narrowed index names.
#[verifier::external_body]
pub(crate) fn bind_value(statement: &mut Statement<'_>, index: usize, value: &NativeValue) -> (r:
    Result<(), rusqlite::Error>)
    requires
        value@ != NativeModel::Real(None),
{
    match value {
        NativeValue::Null => statement.raw_bind_parameter(index, rusqlite::types::Null),
        NativeValue::Integer(i) => statement.raw_bind_parameter(index, *i),
        NativeValue::Real(x) => statement.raw_bind_parameter(
            index,
            x.as_ref().and_then(serde_json::Number::as_f64),
        ),
        NativeValue::Text(s) => statement.raw_bind_parameter(index, s.as_str()),
        NativeValue::Blob(b) => statement.raw_bind_parameter(index, b.as_slice()),
    }
}

/// `Statement::raw_execute`: runs the statement with what is bound to it
/// and returns the number of rows it changed. A statement that yields rows
/// is an error.
#[verifier::external_body]
pub(crate) fn run_statement(statement: &mut Statement<'_>) -> (r: Result<usize, rusqlite::Error>) {
    statement.raw_execute()
}

/// `Statement::raw_query`: starts the statement as a query with what is
/// bound to it. Nothing runs before the first row is asked for.
#[verifier::external_body]
pub(crate) fn start_query<'stmt>(statement: &'stmt mut Statement<'_>) -> (rows: Rows<'stmt>) {
    statement.raw_query()
}

/// `Statement::column_count`: the number of columns in each row of the
/// result, which is the number of column names that the statement holds.
#[verifier::external_body]
pub(crate) fn column_count(statement: &Statement<'_>) -> (n: usize)
    ensures
        n == columns_of(*statement).len(),
{
    statement.column_count()
}

/// `Statement::column_name`: the name of the column at a zero-based index.
/// The index must be below the column count and the name there must be
/// text: `rusqlite` narrows the index to a C int, so a larger one would
/// reach another column, and it panics on a name that is not UTF-8.
#[verifier::external_body]
pub(crate) fn column_name(statement: &Statement<'_>, index: usize) -> (r: Result<
    String,
    rusqlite::Error,
>)
    requires
        index < columns_of(*statement).len(),
        columns_of(*statement)[index as int] is Some,
    ensures
        r is Ok,
        Some(r->Ok_0@) == columns_of(*statement)[index as int],
{
    statement.column_name(index).map(|name| name.to_owned())
}

/// `Rows::next`: steps the query; `None` when no row is left.
#[verifier::external_body]
pub(crate) fn next_row<'a, 'stmt>(rows: &'a mut Rows<'stmt>) -> (r: Result<
    Option<&'a Row<'stmt>>,
    rusqlite::Error,
>) {
    rows.next()
}

/// `Row::get` at the type `rusqlite::types::Value`: the value in the column
/// at a zero-based index. An index out of range, or text that is not UTF-8,
/// is an error, and nothing else is. A real becomes the JSON number that
/// `serde_json::Number::from_f64` makes of it, which is `None` where the
/// real is not finite.
#[verifier::external_body]
pub(crate) fn column_value(row: &Row<'_>, index: usize) -> (r: Result<
    NativeValue,
    rusqlite::Error,
>)
    ensures
        (r is Ok) == (index < cells_of(*row).len() && cells_of(*row)[index as int] is Some),
        r matches Ok(value) ==> cells_of(*row)[index as int] == Some(value@),
{
    Ok(match row.get::<usize, rusqlite::types::Value>(index)? {
        rusqlite::types::Value::Null => NativeValue::Null,
        rusqlite::types::Value::Integer(i) => NativeValue::Integer(i),
        rusqlite::types::Value::Real(x) => NativeValue::Real(serde_json::Number::from_f64(x)),
        rusqlite::types::Value::Text(s) => NativeValue::Text(s),
        rusqlite::types::Value::Blob(b) => NativeValue::Blob(b),
    })
}

} // verus!
