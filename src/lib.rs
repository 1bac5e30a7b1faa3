pub mod batcher;
pub mod dataset;
pub mod labels;
pub mod serving;
