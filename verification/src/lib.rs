//! Dynamic linking between sandboxed WASM module instances.
//!
//! A running contract instance may invoke an exported function (a "callable
//! point") of a different, independently cached module.  This crate holds the
//! verified core of that mechanism: the envelope codec for the byte buffers
//! that cross the boundary, the marshaling of arguments and results through
//! region descriptors, the ordering of the call sequence (environment, call
//! stack, permission, arguments, invocation, events, gas), and the validation
//! of a module's exported interface against a caller-supplied expectation.
//!
//! The module cache, the WASM execution engine and the storage/query backends
//! are external collaborators: the call sequence is modelled as a step machine
//! whose commands an unverified driver performs against the engine, handing
//! each outcome back as an event.

pub mod call;
pub mod checksum;
pub mod dispatch;
pub mod envelope;
pub mod errors;
pub mod events;
pub mod interface;
pub mod memory;
