//! Maps ledger transactions, with their events, object deltas and call traces,
//! onto the rows of a fixed four-entity schema, and drives the buffer, export and
//! checkpoint cycle around them.

pub mod encode;
pub mod model;
pub mod rows;
pub mod columns;
pub mod mapper;
pub mod buffer;
pub mod types;
pub mod export;

