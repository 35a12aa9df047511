//! TPC-H and TPC-DS benchmark data generation: the verified core.
//!
//! The modules hold the parts of the generator that decide and format:
//! the table catalogues and their names, the Parquet row group layout,
//! the CSV and DAT line formats, the column type options, the value
//! conversions used when producing Arrow columns, and the command line
//! option checks.
pub mod text;
pub mod tpcds_table;
pub mod plan;
pub mod conversions;
pub mod rows;
pub mod generators;
pub mod csv;
pub mod schema;
pub mod column_types;
pub mod parquet_options;
pub mod tpcds_cli;
pub mod tpch;
pub mod args;
pub mod progress;
pub mod row_iter;
pub mod batches;
pub mod tables;
pub mod columns;
pub mod schedule;
