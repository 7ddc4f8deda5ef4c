//! The failures that the bridge reports.

use vstd::prelude::*;

verus! {

/// Why binding the parameters of a statement failed.
#[derive(Clone, Debug, PartialEq, Eq)]
pub enum BindFailure {
    /// The statement names a placeholder that the parameter set lacks.
    MissingParameter(String),
    /// The engine refused a value; the text is the engine's.
    Engine(String),
}

/// A failed operation: its kind, and the engine's text where there is one.
#[derive(Clone, Debug, PartialEq, Eq)]
pub enum BridgeError {
    /// No connection is registered under the name.
    ConnectionNotFound,
    /// The engine could not open the database.
    OpeningConnectionFailed(String),
    /// The engine could not close the connection.
    ClosingConnectionFailed(String),
    /// The engine could not compile the SQL text.
    PrepareFailed(String),
    /// A parameter could not be bound.
    BindFailed(BindFailure),
    /// The engine failed while running an update.
    ExecutionFailed(String),
    /// The engine failed while producing or reading a row.
    StepFailed(String),
    /// The engine failed in a batch of statements.
    BatchFailed(String),
    /// A statement of a migration step failed.
    MigrationFailed { version: i64, description: String, message: String },
    /// A native value has no dynamic counterpart; the text names its type.
    UnsupportedType(String),
}

/// The mathematical reading of a [`BindFailure`].
pub enum BindFailureModel {
    MissingParameter(Seq<char>),
    Engine(Seq<char>),
}

/// The mathematical reading of a [`BridgeError`].
pub enum ErrorModel {
    ConnectionNotFound,
    OpeningConnectionFailed(Seq<char>),
    ClosingConnectionFailed(Seq<char>),
    PrepareFailed(Seq<char>),
    BindFailed(BindFailureModel),
    ExecutionFailed(Seq<char>),
    StepFailed(Seq<char>),
    BatchFailed(Seq<char>),
    MigrationFailed { version: int, description: Seq<char>, message: Seq<char> },
    UnsupportedType(Seq<char>),
}

/// The text is what this failure of the engine reads as, letter for
/// letter.
pub open spec fn reads_as(failure: rusqlite::Error, text: Seq<char>) -> bool {
    exists|written: String|
        written@ == text && #[trigger] vstd::string::to_string_from_display_ensures::<
            rusqlite::Error,
        >(&failure, written)
}

/// The text is what some failure of the engine reads as.
pub open spec fn is_engine_text(text: Seq<char>) -> bool {
    exists|failure: rusqlite::Error| reads_as(failure, text)
}

impl ErrorModel {
    /// Where the failure carries a text of the engine, the text is what
    /// some failure of the engine reads as. The kinds that the bridge itself
    /// decides carry none.
    pub open spec fn has_engine_text(self) -> bool {
        match self {
            ErrorModel::ConnectionNotFound => true,
            ErrorModel::OpeningConnectionFailed(text) => is_engine_text(text),
            ErrorModel::ClosingConnectionFailed(text) => is_engine_text(text),
            ErrorModel::PrepareFailed(text) => is_engine_text(text),
            ErrorModel::BindFailed(BindFailureModel::MissingParameter(_)) => true,
            ErrorModel::BindFailed(BindFailureModel::Engine(text)) => is_engine_text(text),
            ErrorModel::ExecutionFailed(text) => is_engine_text(text),
            ErrorModel::StepFailed(text) => is_engine_text(text),
            ErrorModel::BatchFailed(text) => is_engine_text(text),
            ErrorModel::MigrationFailed { message, .. } => is_engine_text(message),
            ErrorModel::UnsupportedType(_) => true,
        }
    }
}

/// The text of a failure of the engine.
pub fn engine_text(failure: &rusqlite::Error) -> (text: String)
    ensures
        reads_as(*failure, text@),
        is_engine_text(text@),
{
    let text = failure.to_string();
    assert(reads_as(*failure, text@));
    text
}

impl View for BindFailure {
    type V = BindFailureModel;

    open spec fn view(&self) -> BindFailureModel {
        match self {
            BindFailure::MissingParameter(name) => BindFailureModel::MissingParameter(name@),
            BindFailure::Engine(text) => BindFailureModel::Engine(text@),
        }
    }
}

impl View for BridgeError {
    type V = ErrorModel;

    open spec fn view(&self) -> ErrorModel {
        match self {
            BridgeError::ConnectionNotFound => ErrorModel::ConnectionNotFound,
            BridgeError::OpeningConnectionFailed(text) => ErrorModel::OpeningConnectionFailed(text@),
            BridgeError::ClosingConnectionFailed(text) => ErrorModel::ClosingConnectionFailed(text@),
            BridgeError::PrepareFailed(text) => ErrorModel::PrepareFailed(text@),
            BridgeError::BindFailed(failure) => ErrorModel::BindFailed(failure@),
            BridgeError::ExecutionFailed(text) => ErrorModel::ExecutionFailed(text@),
            BridgeError::StepFailed(text) => ErrorModel::StepFailed(text@),
            BridgeError::BatchFailed(text) => ErrorModel::BatchFailed(text@),
            BridgeError::MigrationFailed { version, description, message } => ErrorModel::MigrationFailed {
                version: *version as int,
                description: description@,
                message: message@,
            },
            BridgeError::UnsupportedType(name) => ErrorModel::UnsupportedType(name@),
        }
    }
}

} // verus!
