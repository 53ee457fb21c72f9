//! Verified core of a Parquet file viewer and data-wrangling tool.
pub mod editor;
pub mod format;
pub mod schema;
pub mod state;
pub mod text;
pub mod types;
pub mod views;
pub mod wrangle;
