//! A property-based fuzzing engine for contract bytecode.
//!
//! The engine turns a compiled interface description into function specs
//! (selector plus parameter kinds), synthesizes pseudo-random ABI-encoded
//! calls against the target contract, runs them on an in-memory execution
//! environment, and checks a boolean invariant after every call, reporting
//! the first input that breaks the invariant or faults.

pub mod abi;
pub mod campaign;
pub mod errors;
pub mod evm;
pub mod fuzzer;
pub mod interface;
pub mod rng;
