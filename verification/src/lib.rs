//! Translation engine for emitting a debug-symbol container from the results
//! of a binary's static analysis: it extracts the artifact identity, resolves
//! the binary's section table through a runtime-described structure layout,
//! and partitions recovered functions into per-section compilation modules
//! with matched procedure-symbol pairs and a flat public-symbol table.
pub mod errors;
pub mod identity;
pub mod laws;
pub mod pipeline;
pub mod mapper;
pub mod sections;
pub mod text;
