//! Publish-time static analysis for a package registry.
//!
//! Given the raw file contents of a package version together with its declared
//! export map, this library builds the inputs for a module-graph construction
//! engine, enforces the registry's publish-time language-feature policy,
//! collects the set of external package dependencies, and computes a
//! documentation-quality score. The syntax-tree parser, the graph traversal
//! engine, documentation rendering, object storage and tarball encoding are
//! external collaborators reached through narrow interfaces; everything that
//! decides, classifies or counts lives here, with its behaviour stated in
//! contracts.

pub mod deps;
pub mod directive;
pub mod errors;
pub mod exports;
pub mod loader;
pub mod paths;
pub mod pipeline;
pub mod policy;
pub mod resolve;
pub mod score;
pub mod text;
