//! Runtime-binding layer of a code generator.
//!
//! Generated code reaches a precompiled runtime support library through a
//! fixed foreign-function ABI. This crate owns that contract: a closed
//! catalog of runtime entry points ([`catalog`]), a per-compilation-unit
//! registry that keeps every entry declared at most once ([`registry`]),
//! stateless ABI adapters for the shapes the native calling convention
//! cannot express directly ([`adapter`]), and one call emitter per entry
//! point ([`emit`]). The emitters build declarations and call instructions
//! in an in-memory representation ([`ir`]); nothing here executes the
//! runtime services themselves.
//!
//! The guarantees — idempotent declaration, registry isolation, ABI
//! fidelity — are stated and proved in [`laws`].

pub mod adapter;
pub mod catalog;
pub mod emit;
pub mod error;
pub mod ir;
pub mod laws;
pub mod registry;
