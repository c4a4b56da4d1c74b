//! Validation of WebAssembly binaries against a configurable feature set, and
//! a stable, ordered description of the types that a valid binary declares.
pub mod features;
pub mod model;
pub mod engine;
pub mod project;
pub mod pipeline;
pub mod text;
