//! Core of a shell-prompt renderer: a shared, cached execution context,
//! independently evaluated prompt modules, repository-state extraction with a
//! manual progress-file fallback, a style-string grammar, and an
//! escape-sequence-safe renderer that folds the module output into one line.

pub mod strutil;
pub mod style;
pub mod segment;
pub mod module;
pub mod repo;
pub mod context;
pub mod configs;
pub mod modules;
pub mod print;
