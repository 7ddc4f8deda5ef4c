//! A bridge between a dynamically typed host and named SQLite connections.
//!
//! The host speaks in [`value::DynamicValue`]s; the engine speaks in
//! [`value::NativeValue`]s. This crate converts between the two, keeps the
//! connections in a [`registry::Registry`] under caller-chosen names, runs
//! statements against them and applies ordered schema migrations.
//!
//! What the engine answers cannot be known beforehand, so the contracts of
//! the operations that call it say what holds of every answer. What the
//! bridge itself decides is stated exactly: the codec, the lookup of names,
//! which parameter goes to which placeholder, and which failure is reported.

pub mod bind;
pub mod commands;
pub mod engine;
pub mod error;
pub mod name_map;
pub mod registry;
pub mod types;
pub mod value;
