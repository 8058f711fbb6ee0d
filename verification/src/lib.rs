//! A safety boundary between a statically typed host program and an
//! embedded, reference-counted, dynamically typed scripting engine.
//!
//! The engine itself is not part of this library. The library holds the
//! rules of the boundary: how host values become engine values and back,
//! which raw engine operation a property access turns into, how the engine's
//! status codes and exception sentinel are read, who owns a reference after
//! each transfer, and how declared bindings are named, nested and called.
//! A host drives the engine and hands its replies to the functions here.

pub mod value;
pub mod error;
pub mod decimal;
pub mod convert;
pub mod object;
pub mod exception;
pub mod aggregate;
pub mod ownership;
pub mod binding;
