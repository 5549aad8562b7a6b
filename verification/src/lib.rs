//! A module specifier resolution pipeline for a bundler plugin that loads
//! modules from a foreign package registry.
//!
//! Given a raw import string (a relative path, a bare name, or a
//! scheme-qualified specifier such as `jsr:`, `npm:`, `http:`/`https:`),
//! the library determines the canonical specifier to load, and, for schemes
//! backed by an external package-info provider, follows the provider's
//! redirect chain to a final loadable location: a local file path or a
//! delegated package name.
//!
//! The provider itself is an external process; running it, reading files,
//! and wiring into the bundler's plugin hooks happen outside this crate.
//! The library receives the provider's raw output and does everything
//! that can be stated and proved: decoding, redirect following with cycle
//! detection, import-map rewriting, and scheme dispatch.

pub mod errors;
pub mod imports;
pub mod json;
pub mod loader;
pub mod provider;
pub mod redirect;
pub mod resolver;
pub mod text;
