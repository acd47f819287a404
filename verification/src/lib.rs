//! A source-to-source transform pass that strips import declarations from a
//! parsed JavaScript/TypeScript module when their source-module string matches
//! a configured regular expression.
//!
//! The pass has two halves: a pattern resolver, which turns an untrusted JSON
//! configuration payload into a compiled match predicate, and an import
//! filter, which walks a module's item list (including nested item lists) and
//! drops exactly the import declarations whose source matches the predicate.

pub mod ast;
pub mod config;
pub mod errors;
pub mod filter;
pub mod laws;
pub mod pattern;

pub use ast::ItemView;
pub use ast::ModuleItem;
pub use config::parse_options;
pub use errors::ConfigError;
pub use filter::TransformVisitor;
pub use filter::process_transform;
pub use pattern::Pattern;
