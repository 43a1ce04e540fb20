//! A static-analysis rule that flags values of known blocking types held
//! across the suspension points of an asynchronous body.
//!
//! Holding a thread-blocking resource (a synchronous mutex guard, a
//! thread-sleep primitive) while a cooperative scheduler may park the running
//! task is a correctness hazard: the blocked thread cannot make progress on
//! other tasks. This crate contains the analysis core: recognizing an
//! asynchronous body, walking the values recorded as part of its suspended
//! state, matching each value's nominal type against a registry of known
//! blocking primitives, and building a diagnostic with the right primary and
//! secondary source locations.
//!
//! The host compiler owns body enumeration, type-checking and diagnostic
//! rendering; it hands this crate plain data (spans, generator kinds, interior
//! values with resolved type paths) and receives back a list of diagnostics.
//! The analysis itself is a pure function of that data, and its contracts pin
//! the produced diagnostics down exactly.

pub mod body;
pub mod diagnostics;
pub mod matcher;
pub mod registry;
pub mod scanner;
pub mod span;

pub use body::AsyncBodyKind;
pub use body::Body;
pub use body::DefId;
pub use body::GeneratorKind;
pub use body::InteriorValue;
pub use body::TypeDescriptor;
pub use body::TypeckResults;
pub use diagnostics::Diagnostic;
pub use diagnostics::LintId;
pub use registry::BlockingPrimitiveSet;
pub use registry::TypePath;
pub use scanner::MayBlock;
pub use span::Span;
