//! The error surface of the builder: every failure is terminal for the build
//! call and carries a descriptive message.

use vstd::prelude::*;

use crate::cell::DataTypes;

verus! {

/// Why a build failed. `TypeMismatch` carries the kind the offending
/// column was inferred to hold.
#[derive(Clone, Copy, Debug, PartialEq, Eq, Structural)]
pub enum DataFrameError {
    /// Zero columns were declared, so no cell can be assigned a column.
    InvalidSchema,
    /// The cell count is not an exact multiple of the declared column count.
    ShapeMismatch,
    /// A cell's kind disagrees with its column's inferred kind.
    TypeMismatch(DataTypes),
}

impl DataFrameError {
    /// The human-readable message of this error.
    pub open spec fn message_spec(self) -> Seq<char> {
        match self {
            DataFrameError::InvalidSchema => "expected at least one column"@,
            DataFrameError::ShapeMismatch => "length of data provided did not match expected number of columns"@,
            DataFrameError::TypeMismatch(DataTypes::Integer) => "data cell type did not match integer column type"@,
            DataFrameError::TypeMismatch(DataTypes::Text) => "data cell type did not match text column type"@,
        }
    }

    /// The human-readable message of this error.
    pub fn message(&self) -> (msg: &'static str)
        ensures
            msg@ == self.message_spec(),
    {
        match self {
            DataFrameError::InvalidSchema => "expected at least one column",
            DataFrameError::ShapeMismatch => "length of data provided did not match expected number of columns",
            DataFrameError::TypeMismatch(DataTypes::Integer) => "data cell type did not match integer column type",
            DataFrameError::TypeMismatch(DataTypes::Text) => "data cell type did not match text column type",
        }
    }
}

} // verus!
