//! Core of a protocol-aware fuzzer for TLS implementations.
//!
//! Instead of mutating raw byte streams, the fuzzer manipulates symbolic
//! attack traces: sequences of message exchanges between agents, where each
//! message is computed by evaluating a typed term (a recipe composed of
//! function symbols over prior observations).  The crate provides the typed
//! term algebra, the catalog of function symbols, the trace and knowledge
//! model, type-preserving trace mutations, and the execution engine that
//! drives agents through a uniform stream interface.

pub mod agent;
pub mod claims;
pub mod codec;
pub mod crypto;
pub mod dynamic_function;
pub mod error;
pub mod fn_impl;
pub mod msgs;
pub mod mutations;
pub mod put;
pub mod put_registry;
pub mod seeds;
pub mod serialize;
pub mod signature;
pub mod term;
pub mod trace;
pub mod types;
pub mod util;
pub mod value;
