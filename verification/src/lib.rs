pub mod associativity;
pub mod collinear;
pub mod constants;
pub mod cubic;
pub mod curve;
pub mod ecdsa;
pub mod field_ops;
pub mod fields;
pub mod fp_solinas;
pub mod group_law;
pub mod laws;
pub mod limbs;
pub mod multiples;
pub mod pipeline;
pub mod primes;
pub mod public_inputs;
pub mod public_key_check;
pub mod range_checks;
pub mod transcript;
pub mod types;
pub mod words;
