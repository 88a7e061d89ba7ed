//! What the operations of the library promise together.
pub mod arrangement;
pub mod assembly;
pub mod balance;
pub mod building;
pub mod errors;
pub mod gates;
pub mod ledger;
pub mod lists;
pub mod numbers;
pub mod points;
pub mod signatures;
pub mod statements;
pub mod tables;
