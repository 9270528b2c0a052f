//! A build-time interface decomposition engine.
//!
//! Given an interface declaration (a named collection of method signatures,
//! associated type aliases and associated constants, possibly nested inside a
//! chain of namespaces) and a target entity type, the library
//!
//! * resolves the interface declaration at a namespace path,
//! * classifies its members into the three supported kinds,
//! * derives a deterministic capability name for each member,
//! * materializes idempotent scaffold units for capabilities that do not
//!   exist yet,
//! * rewrites self-referential type paths so relocated signatures stay
//!   well-formed, and
//! * synthesizes a delegation block that forwards every member of the
//!   umbrella interface to its capability.
//!
//! Reading source text into the declaration tree and printing generated
//! declarations back out are left to the (unverified) host program.

pub mod model;
pub mod capability;
pub mod classify;
pub mod delegate;
pub mod entity;
pub mod naming;
pub mod perimeter;
pub mod pipeline;
pub mod rect_trait;
pub mod resolve;
pub mod rewrite;
pub mod scaffold;
pub mod square;
pub mod text;
pub mod versioned;

pub use entity::Entity;
pub use perimeter::Perimeter;
pub use rect_trait::Rect;
pub use square::Square;
