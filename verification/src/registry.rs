//! The named connections and the operations that the host calls on them.

use vstd::prelude::*;
use rusqlite::Connection;
use crate::commands::batch::execute_batch;
use crate::commands::migration::{execute_migration, run_outcome};
use crate::bind::names_absent_parameter;
use crate::commands::select::{
    execute_select, execute_select_named, named_query_outcome, query_outcome, rows_are_of,
    rows_have, texts_of,
};
use crate::commands::update::{change_outcome, execute_update};
use crate::engine::{self, name_model, reads_text};
use crate::error::{engine_text, BridgeError};
use crate::name_map::NameMap;
use crate::types::{Migrations, NamedParameters, ResultList};

verus! {

/// Where a database lives.
#[derive(Clone, Debug, PartialEq, Eq)]
pub enum Target {
    /// A fresh database in memory.
    Memory,
    /// The database file at a path.
    Path(String),
}

/// How to open a connection.
#[derive(Clone, Debug, PartialEq, Eq)]
pub struct Opener {
    pub target: Target,
    /// Open for an encrypting engine: read-write and create, and nothing
    /// else.
    pub use_sqlcipher: bool,
    /// The encryption key, handed to the engine as it is. It is used only
    /// together with `use_sqlcipher`.
    pub cipher_key: Option<String>,
}

/// The call that opens a connection.
#[derive(Debug, PartialEq, Eq)]
pub enum OpenCall {
    /// Open a fresh database in memory.
    Memory,
    /// Open the file at the path with the engine's usual flags.
    File(String),
    /// Open the file at the path read-write and create, and nothing else.
    ReadWrite(String),
}

/// The mathematical reading of an [`OpenCall`].
pub enum OpenCallModel {
    Memory,
    File(Seq<char>),
    ReadWrite(Seq<char>),
}

impl View for OpenCall {
    type V = OpenCallModel;

    open spec fn view(&self) -> OpenCallModel {
        match self {
            OpenCall::Memory => OpenCallModel::Memory,
            OpenCall::File(path) => OpenCallModel::File(path@),
            OpenCall::ReadWrite(path) => OpenCallModel::ReadWrite(path@),
        }
    }
}

/// The call that an opener asks for: in memory where it says so, and else
/// on its path, read-write and create alone where it is for an encrypting
/// engine.
pub open spec fn call_of(opener: Opener) -> OpenCallModel {
    match opener.target {
        Target::Memory => OpenCallModel::Memory,
        Target::Path(path) => if opener.use_sqlcipher {
            OpenCallModel::ReadWrite(path@)
        } else {
            OpenCallModel::File(path@)
        },
    }
}

/// The opener asks for a key to be handed to the engine.
pub open spec fn wants_key(opener: Opener) -> bool {
    opener.use_sqlcipher && opener.cipher_key is Some
}

/// The key that an opener asks to be handed to the engine: its key where
/// it is for an encrypting engine, and none else.
pub open spec fn key_of(opener: Opener) -> Option<Seq<char>> {
    if wants_key(opener) {
        Some(opener.cipher_key->0@)
    } else {
        None
    }
}

/// Decides which call opens the connection.
pub fn open_call(opener: &Opener) -> (call: OpenCall)
    ensures
        call@ == call_of(*opener),
{
    match &opener.target {
        Target::Memory => OpenCall::Memory,
        Target::Path(path) => {
            if opener.use_sqlcipher {
                OpenCall::ReadWrite(path.clone())
            } else {
                OpenCall::File(path.clone())
            }
        },
    }
}

/// Decides which key, if any, is handed to the engine after opening.
pub fn key_to_hand(opener: &Opener) -> (key: Option<String>)
    ensures
        name_model(key) == key_of(*opener),
{
    if opener.use_sqlcipher {
        match &opener.cipher_key {
            Some(key) => Some(key.clone()),
            None => None,
        }
    } else {
        None
    }
}

/// Hands the opener's key, if it asks for one, to the engine of a
/// connection that was just opened.
///
/// Which key that is, `key_to_hand` decides. Without a key to hand over,
/// the connection comes back as it is. With one, the engine decides: it
/// takes the key and the connection comes back, or it refuses and its text
/// is the failure to open.
pub fn with_key(connection: Connection, opener: &Opener) -> (r: Result<Connection, BridgeError>)
    ensures
        !wants_key(*opener) ==> r == Ok::<Connection, BridgeError>(connection),
        r matches Ok(keyed) ==> keyed == connection,
        r matches Err(e) ==> e@ is OpeningConnectionFailed && e@.has_engine_text(),
{
    match key_to_hand(opener) {
        None => Ok(connection),
        Some(key) => match engine::set_key(&connection, key.as_str()) {
            Ok(()) => Ok(connection),
            Err(failure) => Err(BridgeError::OpeningConnectionFailed(engine_text(&failure))),
        },
    }
}

/// Opens a connection as the opener says.
///
/// Which call opens it, `open_call` decides. A key that the engine does not
/// take is a failure to open: a database that was asked to be encrypted is
/// never opened without its key.
pub fn connect(opener: &Opener) -> (r: Result<Connection, BridgeError>)
    ensures
        r matches Err(e) ==> e@ is OpeningConnectionFailed && e@.has_engine_text(),
{
    let opened = match open_call(opener) {
        OpenCall::Memory => engine::open_memory(),
        OpenCall::File(path) => engine::open_file(path.as_str()),
        OpenCall::ReadWrite(path) => engine::open_read_write(path.as_str()),
    };
    match opened {
        Ok(connection) => with_key(connection, opener),
        Err(failure) => Err(BridgeError::OpeningConnectionFailed(engine_text(&failure))),
    }
}

/// The open connections, each under the name it was opened with.
///
/// A name has at most one connection. The registry alone creates and
/// destroys connections; an operation borrows one for its own duration.
pub struct Registry {
    connections: NameMap<Connection>,
}

impl View for Registry {
    type V = Map<Seq<char>, Connection>;

    closed spec fn view(&self) -> Map<Seq<char>, Connection> {
        self.connections@
    }
}

/// What opening `name` does to the registry and returns.
///
/// A taken name succeeds and changes nothing. A free name either gains a
/// connection, every other name staying as it was, or fails to open and
/// changes nothing.
pub open spec fn open_outcome(
    before: Map<Seq<char>, Connection>,
    after: Map<Seq<char>, Connection>,
    name: Seq<char>,
    r: Result<(), BridgeError>,
) -> bool {
    if before.contains_key(name) {
        r is Ok && after == before
    } else {
        match r {
            Ok(()) => exists|connection: Connection| after == before.insert(name, connection),
            Err(e) => e@ is OpeningConnectionFailed && e@.has_engine_text() && after == before,
        }
    }
}

/// What closing `name` does to the registry and returns.
///
/// The name is free afterwards in every case. An absent name is reported
/// as not found; a present one is closed, or the engine's refusal to close
/// it is reported.
pub open spec fn close_outcome(
    before: Map<Seq<char>, Connection>,
    after: Map<Seq<char>, Connection>,
    name: Seq<char>,
    r: Result<(), BridgeError>,
) -> bool {
    &&& after == before.remove(name)
    &&& if before.contains_key(name) {
        r is Ok || (r matches Err(e) && e@ is ClosingConnectionFailed && e@.has_engine_text())
    } else {
        r matches Err(e) && e@ is ConnectionNotFound
    }
}

/// Both registries are finite, and the second holds `change` names more
/// than the first.
pub open spec fn counted(
    before: Map<Seq<char>, Connection>,
    after: Map<Seq<char>, Connection>,
    change: int,
) -> bool {
    &&& before.dom().finite()
    &&& after.dom().finite()
    &&& after.dom().len() == before.dom().len() + change
}

/// The result reports that no connection was found.
pub open spec fn not_found<T>(r: Result<T, BridgeError>) -> bool {
    r matches Err(e) && e@ is ConnectionNotFound
}

/// What an operation on the connection under `name` returns, as far as the
/// registry decides it: not found exactly when the name is absent.
pub open spec fn lookup_outcome<T>(
    registry: Map<Seq<char>, Connection>,
    name: Seq<char>,
    r: Result<T, BridgeError>,
) -> bool {
    not_found(r) <==> !registry.contains_key(name)
}

impl Registry {
    /// A registry with no connection.
    pub fn new() -> (r: Self)
        ensures
            r@ == Map::<Seq<char>, Connection>::empty(),
            r@.dom().finite(),
    {
        Registry { connections: NameMap::new() }
    }

    /// The number of open connections.
    pub fn len(&self) -> (n: usize)
        ensures
            self@.dom().finite(),
            n == self@.dom().len(),
    {
        self.connections.len()
    }

    /// Whether a connection is open under the name.
    pub fn contains(&self, name: &str) -> (b: bool)
        ensures
            b == self@.contains_key(name@),
            self@.dom().finite(),
    {
        self.connections.contains_name(name)
    }

    /// Registers an open connection under a name that may be taken.
    ///
    /// Where the name is taken, the connection that holds it stays, and the
    /// one handed in is dropped, which closes it.
    pub fn insert_connection(&mut self, connection: Connection, name: String) -> (r: Result<
        (),
        BridgeError,
    >)
        ensures
            r is Ok,
            old(self)@.contains_key(name@) ==> final(self)@ == old(self)@,
            !old(self)@.contains_key(name@) ==> final(self)@ == old(self)@.insert(
                name@,
                connection,
            ),
            counted(old(self)@, final(self)@, if old(self)@.contains_key(name@) {
                0
            } else {
                1
            }),
    {
        if !self.connections.contains_name(name.as_str()) {
            self.connections.insert(name, connection);
        }
        Ok(())
    }

    /// Opens a connection under a name, unless the name is taken.
    ///
    /// Where the name is taken nothing is opened and nothing changes: the
    /// first connection stays, whatever the opener says. Where it is free,
    /// the connection is opened and registered, or the failure to open it
    /// is reported and nothing changes.
    pub fn open(&mut self, name: String, opener: &Opener) -> (r: Result<(), BridgeError>)
        ensures
            open_outcome(old(self)@, final(self)@, name@, r),
            counted(old(self)@, final(self)@, if !old(self)@.contains_key(name@) && r is Ok {
                1
            } else {
                0
            }),
    {
        if self.connections.contains_name(name.as_str()) {
            return Ok(());
        }
        let connection = connect(opener)?;
        self.connections.insert(name, connection);
        Ok(())
    }

    /// Opens the database file at `path` under the name `path`.
    pub fn open_in_path(
        &mut self,
        path: String,
        use_sqlcipher: bool,
        cipher_key: Option<String>,
    ) -> (r: Result<(), BridgeError>)
        ensures
            open_outcome(old(self)@, final(self)@, path@, r),
            counted(old(self)@, final(self)@, if !old(self)@.contains_key(path@) && r is Ok {
                1
            } else {
                0
            }),
    {
        let opener = Opener { target: Target::Path(path.clone()), use_sqlcipher, cipher_key };
        self.open(path, &opener)
    }

    /// Opens a fresh in-memory database under a name.
    pub fn open_in_memory(&mut self, name: String) -> (r: Result<(), BridgeError>)
        ensures
            open_outcome(old(self)@, final(self)@, name@, r),
            counted(old(self)@, final(self)@, if !old(self)@.contains_key(name@) && r is Ok {
                1
            } else {
                0
            }),
    {
        let opener = Opener { target: Target::Memory, use_sqlcipher: false, cipher_key: None };
        self.open(name, &opener)
    }

    /// Runs `operation` on the connection under a name, and returns what it
    /// returns; where the name is absent, reports that and runs nothing.
    pub fn with_connection<T, F: FnOnce(&Connection) -> Result<T, BridgeError>>(
        &self,
        name: &str,
        operation: F,
    ) -> (r: Result<T, BridgeError>)
        requires
            forall|connection: &Connection| operation.requires((connection,)),
        ensures
            !self@.contains_key(name@) ==> not_found(r),
            self@.contains_key(name@) ==> operation.ensures((&self@[name@],), r),
    {
        match self.connections.get(name) {
            None => Err(BridgeError::ConnectionNotFound),
            Some(connection) => operation(connection),
        }
    }

    /// Takes the connection under a name out of the registry and closes it.
    ///
    /// The name is free afterwards even where the engine refuses to close:
    /// the connection is dropped then, and the refusal is reported.
    pub fn close(&mut self, name: &str) -> (r: Result<(), BridgeError>)
        ensures
            close_outcome(old(self)@, final(self)@, name@, r),
            counted(old(self)@, final(self)@, if old(self)@.contains_key(name@) {
                -1
            } else {
                0
            }),
    {
        match self.connections.remove(name) {
            None => Err(BridgeError::ConnectionNotFound),
            Some(connection) => {
                match engine::close_connection(connection) {
                    Ok(()) => Ok(()),
                    Err(failure) => Err(BridgeError::ClosingConnectionFailed(engine_text(&failure))),
                }
            },
        }
    }

    /// Applies migration steps to the connection under a name.
    pub fn migration(&self, name: &str, migrations: &Migrations) -> (r: Result<(), BridgeError>)
        ensures
            lookup_outcome(self@, name@, r),
            self@.contains_key(name@) ==> run_outcome(migrations@, r),
    {
        match self.connections.get(name) {
            None => Err(BridgeError::ConnectionNotFound),
            Some(connection) => execute_migration(connection, migrations),
        }
    }

    /// Runs a statement that changes data on the connection under a name.
    pub fn update(&self, name: &str, sql: &str, parameters: &NamedParameters) -> (r: Result<
        (),
        BridgeError,
    >)
        ensures
            lookup_outcome(self@, name@, r),
            self@.contains_key(name@) ==> (r matches Err(e) ==> (e@ is PrepareFailed || e@
                is BindFailed || e@ is ExecutionFailed) && e@.has_engine_text()),
            r matches Err(e) ==> names_absent_parameter(parameters@, e@),
            self@.contains_key(name@) ==> change_outcome(self@[name@], sql@, parameters@, r),
    {
        match self.connections.get(name) {
            None => Err(BridgeError::ConnectionNotFound),
            Some(connection) => execute_update(connection, sql, parameters),
        }
    }

    /// Runs a query on the connection under a name.
    ///
    /// The names in the schema behind the connection must be text, as they
    /// are where the schema was written as SQL text.
    pub fn select(&self, name: &str, sql: &str, parameters: &NamedParameters) -> (r: Result<
        ResultList,
        BridgeError,
    >)
        requires
            self@.contains_key(name@) ==> reads_text(self@[name@]),
        ensures
            lookup_outcome(self@, name@, r),
            self@.contains_key(name@) ==> (r matches Err(e) ==> (e@ is PrepareFailed || e@
                is BindFailed || e@ is StepFailed || e@ is UnsupportedType) && e@.has_engine_text()),
            r matches Ok(rows) ==> exists|columns: Seq<Seq<char>>|
                rows_have(rows@, columns) && rows_are_of(rows@, columns),
            r matches Err(e) ==> names_absent_parameter(parameters@, e@),
            self@.contains_key(name@) ==> query_outcome(self@[name@], sql@, parameters@, r),
    {
        match self.connections.get(name) {
            None => Err(BridgeError::ConnectionNotFound),
            Some(connection) => execute_select(connection, sql, parameters),
        }
    }

    /// Runs a query on the connection under a name and reads each row under
    /// the names given, one for each column of the result.
    ///
    /// This asks nothing of the schema behind the connection: the engine is
    /// not asked for the names of the columns.
    pub fn select_named(
        &self,
        name: &str,
        sql: &str,
        names: &Vec<String>,
        parameters: &NamedParameters,
    ) -> (r: Result<ResultList, BridgeError>)
        ensures
            lookup_outcome(self@, name@, r),
            self@.contains_key(name@) ==> named_query_outcome(
                self@[name@],
                sql@,
                texts_of(names@),
                parameters@,
                r,
            ),
            self@.contains_key(name@) ==> (r matches Err(e) ==> (e@ is PrepareFailed || e@
                is BindFailed || e@ is StepFailed || e@ is UnsupportedType)
                && e@.has_engine_text()),
            r matches Ok(rows) ==> rows_have(rows@, texts_of(names@)) && rows_are_of(
                rows@,
                texts_of(names@),
            ),
            r matches Err(e) ==> names_absent_parameter(parameters@, e@),
    {
        match self.connections.get(name) {
            None => Err(BridgeError::ConnectionNotFound),
            Some(connection) => execute_select_named(connection, sql, names, parameters),
        }
    }

    /// Runs a batch of literal statements on the connection under a name.
    pub fn batch(&self, name: &str, batch_sql: &str) -> (r: Result<(), BridgeError>)
        ensures
            lookup_outcome(self@, name@, r),
            self@.contains_key(name@) ==> (r matches Err(e) ==> e@ is BatchFailed && e@.has_engine_text()),
            self@.contains_key(name@) && batch_sql@.len() == 0 ==> r is Ok,
    {
        match self.connections.get(name) {
            None => Err(BridgeError::ConnectionNotFound),
            Some(connection) => execute_batch(connection, batch_sql),
        }
    }
}

/// Opening a name twice keeps the connection of the first open: the second
/// open succeeds, whatever its opener says, and changes nothing.
pub proof fn lemma_first_open_wins(
    start: Map<Seq<char>, Connection>,
    once: Map<Seq<char>, Connection>,
    twice: Map<Seq<char>, Connection>,
    name: Seq<char>,
    first: Result<(), BridgeError>,
    second: Result<(), BridgeError>,
)
    requires
        open_outcome(start, once, name, first),
        first is Ok,
        open_outcome(once, twice, name, second),
    ensures
        second is Ok,
        once.contains_key(name),
        twice == once,
        twice[name] == once[name],
{
}

/// Closing a name that is absent reports that it was not found. Closing a
/// name frees it, so that the next operation on it reports the same.
pub proof fn lemma_closed_name_is_not_found<T>(
    before: Map<Seq<char>, Connection>,
    after: Map<Seq<char>, Connection>,
    name: Seq<char>,
    closed: Result<(), BridgeError>,
    next: Result<T, BridgeError>,
)
    requires
        close_outcome(before, after, name, closed),
        lookup_outcome(after, name, next),
    ensures
        !before.contains_key(name) ==> not_found(closed),
        !after.contains_key(name),
        not_found(next),
{
}

} // verus!
