//! Language and script identification results, the table that maps language
//! codes to ISO 639-1, and a batch executor that classifies many texts on a
//! bounded worker pool and hands the results back in input order.

pub mod iso;
pub mod color;
pub mod model;
pub mod classifier;
pub mod detect;
pub mod batch;
pub mod progress;
