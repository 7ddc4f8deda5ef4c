//! The operations that run against one connection.

pub mod batch;
pub mod migration;
pub mod select;
pub mod update;
