//! Provenance records for pharmaceutical batches: a store that mints batch
//! identifiers, looks batches up and marks them as recalled.

pub mod batch;
pub mod chain;
pub mod command;
pub mod ident;
pub mod laws;
pub mod qr;

pub use crate::batch::DrugBatch;
pub use crate::chain::{Document, PharmaChain};
pub use crate::command::{Command, Lookup, Usage};
pub use crate::ident::{format_id, parse_id, InvalidId};
pub use crate::qr::{
    generate_qr_code, qr_file_name, qr_payload, render_code, QrArtifact, QrFailure, QrImage,
    MAX_SYMBOL_WIDTH,
};
