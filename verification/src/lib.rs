//! Embedding layer between a statically-typed host and dynamically loaded
//! WebAssembly guest modules: a content-addressed instance registry, an
//! invocation bridge that validates and marshals integer arguments, and an
//! introspector that renders each export's signature in host-level type tags.

pub mod types;
pub mod ident;
pub mod marshal;
pub mod engine;
pub mod registry;
pub mod introspect;
pub mod entry_points;
