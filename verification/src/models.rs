//! The model stack: transformer backbone, decoder, and the full pipeline.

pub mod flowlm;
pub mod mimi;
pub mod pocket_tts;
pub mod seanet;
