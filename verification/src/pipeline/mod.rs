//! The proving pipeline around the native verifier.
pub mod air;
pub mod balances;
pub mod claim;
pub mod columns;
pub mod components;
pub mod config;
pub mod draft;
pub mod error;
pub mod final_add;
pub mod interaction_claim;
pub mod ledger;
pub mod public_providers;
pub mod relations;
pub mod slots;
pub mod traces;
pub mod verify;
pub mod wiring;
