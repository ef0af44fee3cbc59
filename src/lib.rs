//! Diagnostics aggregation for a markup/bibliography language server:
//! the document and workspace model, project resolution over the include
//! graph, the cross-document analyses, and the diagnostics manager.

pub mod types;
pub mod syntax;
pub mod seqs;
pub mod filter;
pub mod workspace;
pub mod analysis;
pub mod store;
pub mod manager;
pub mod features;
pub mod bibtex_field;
