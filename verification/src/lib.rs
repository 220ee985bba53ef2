//! A compiler from YAML to a document model that keeps the comment of each
//! value, and a writer of that model as a markdown table.
//!
//! A grammar-based parser turns the source into a concrete syntax tree
//! ([`grammar`], [`cst`]). The compiler files the comments of the tree under
//! the lines they end on ([`comments`]), decodes the scalar literals
//! ([`scalar`], [`number`], [`text`]) and walks the tree into the model
//! ([`parser`], [`document`]), by rules that are written down once, as
//! functions of the tree ([`transform`]), and that everything the compiler
//! returns is proved to follow. What the rules imply for every document is
//! collected in [`laws`]. [`markdown`] writes a document as a table.

pub mod comments;
pub mod cst;
pub mod document;
pub mod error;
pub mod grammar;
pub mod laws;
pub mod markdown;
pub mod number;
pub mod parser;
pub mod scalar;
pub mod text;
pub mod transform;
