//! Building, running and exporting a data-wrangling pipeline.
pub mod export;
pub mod insights;
pub mod pipeline;
pub mod session;
pub mod summary;
