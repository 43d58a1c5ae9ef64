//! Argument handling, report rendering and result annotation for a
//! command-line OCR tool built on PP-OCR models.

pub mod annotate;
pub mod backend;
pub mod cli;
pub mod cli_laws;
pub mod embedded;
pub mod models;
pub mod number;
pub mod report;
pub mod text;
