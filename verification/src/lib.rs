//! Verified control core of a small image-classifier training run.
//!
//! The numeric work (the network's forward pass, gradients, optimizer
//! updates) is done by an external backend that this library never sees.
//! What is verified here is everything the run *decides*: which batches are
//! sampled for accuracy, when training stops early, how progress samples are
//! logged over time, how per-chunk test results are combined into one final
//! accuracy, and how the progress log becomes a chart series.
//!
//! Accuracy values are kept as exact ratios of whole counts (matched
//! examples over examples seen), so every comparison in the stopping rule
//! and every recorded sample is exact.

pub mod accuracy;
pub mod config;
pub mod eval;
pub mod metrics;
pub mod report;
pub mod trainer;
