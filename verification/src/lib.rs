//! Schema-driven source-code generator for Chrome-DevTools-Protocol-style
//! interface definitions.
//!
//! The crate consumes parsed protocol documents (domains holding type
//! definitions, commands and events) and emits equivalent record, enum,
//! builder and event-union definitions as source text, resolving type
//! references across domain and document boundaries, breaking
//! self-referential types with indirection, and tracking approximate type
//! sizes to decide where the global event union must box a payload.

pub mod browser;
pub mod generator;
pub mod ir;
pub mod laws;
pub mod names;
pub mod output;
pub mod serde_support;
pub mod table;
pub mod wire;
