//! An in-memory tabular data container: named, independently typed columns of
//! equal length, built from a flat, row-major sequence of typed cells.
//!
//! The entry point is [`frame::DataFrame::new`], which infers each column's
//! kind from the first row of cells, checks that the flat sequence divides
//! evenly into rows, and distributes the cells into typed columns, rejecting
//! any cell whose kind disagrees with its column's inferred kind.

pub mod cell;
pub mod column;
pub mod error;
pub mod frame;

pub use cell::CellModel;
pub use cell::DataCell;
pub use cell::DataTypes;
pub use column::ColumnModel;
pub use error::DataFrameError;
pub use frame::DataFrame;
