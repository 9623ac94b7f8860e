//! Neural-network building blocks of the pipeline.

pub mod attention;
pub mod conv;
pub mod embeddings;
pub mod layer_norm;
pub mod mlp;
pub mod rotary;
