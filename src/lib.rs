//! Streaming FM demodulation: sample buffers, the stages that transform
//! them, the chained fold a pipeline drives, and the output container header.
//!
//! The numeric kernels (rotation, averaging, phase difference) are supplied
//! by the caller as closures; this library fixes how buffers are shaped,
//! which kernel sees which samples, and which stage accepts which variant.

pub mod transform;
pub mod sample;
pub mod stage;
pub mod pipeline;
pub mod run;
pub mod header;
