//! The shapes that requests and results take.

use vstd::prelude::*;
use crate::name_map::NameMap;
use crate::value::DynamicValue;

verus! {

/// The values of one statement's placeholders, each under the placeholder's
/// name as the engine spells it, prefix included.
pub type NamedParameters = NameMap<DynamicValue>;

/// One row of a result: each column's value under the column's name.
pub type ResultRow = NameMap<DynamicValue>;

/// The rows of a result, in the order in which the engine produced them.
pub type ResultList = Vec<ResultRow>;

/// One versioned unit of schema change: statements to run in order.
#[derive(Clone, Debug, PartialEq, Eq)]
pub struct MigrationStep {
    pub version: i64,
    pub description: String,
    pub sql: Vec<String>,
}

/// Migration steps, in the order in which they are to be applied.
pub type Migrations = Vec<MigrationStep>;

} // verus!
