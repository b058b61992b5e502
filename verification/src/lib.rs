//! A verified model of the trampoline layer between a sandboxed guest's flat
//! calling convention and a host-side handler operating on typed values.
//!
//! An interface function is described by a descriptor ([`ifunc::InterfaceFunction`]):
//! named parameters and results, each with a marshaling shape
//! ([`shape::TypeShape`]), an optional declared error slot (the first result),
//! and a `noreturn` marker. The shim executor ([`shim::run_shim`]) carries one
//! call across the boundary: it flattens raw ABI words into typed values,
//! validates guest memory accesses, invokes the handler, writes extra results
//! back through output pointers, and funnels every failure into the declared
//! error type's encoding or a fatal trap.

pub mod shape;
pub mod value;
pub mod memory;
pub mod errors;
pub mod ifunc;
pub mod marshal;
pub mod writeback;
pub mod shim;
pub mod handlers;
pub mod laws;
