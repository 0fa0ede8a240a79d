//! A conformance oracle for JavaScript front-ends: renders deterministic,
//! diffable textual snapshots of a source file's token stream, syntax tree,
//! scope/binding graph, and minified output, so that an independently
//! developed front-end can be validated by byte-for-byte diffing.
//!
//! The dump protocol itself (traversal order, line formatting, escaping,
//! span bookkeeping, and the strict unsupported-node policy) is verified;
//! tokenizing, parsing, scope resolution and code generation are supplied
//! by the oxc front-end behind trusted wrappers.

pub mod text;
pub mod line;
pub mod snippet;
pub mod tree;
pub mod dump;
pub mod tokens;
pub mod scope;
pub mod provider;
pub mod cli;
pub mod wf;
