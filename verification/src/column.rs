//! A column is a named, homogeneously typed ordered sequence of scalar
//! values; its element kind is fixed at creation and never changes.

use vstd::prelude::*;

use crate::cell::CellModel;
use crate::cell::DataTypes;

verus! {

/// The mathematical model of one column: its display label, its inferred
/// kind, and its values, each wrapped back up as a modelled cell.
#[verifier::ext_equal]
pub ghost struct ColumnModel {
    pub name: Seq<char>,
    pub kind: DataTypes,
    pub cells: Seq<CellModel>,
}

/// A named buffer of values of a single scalar type.
#[derive(Debug)]
pub struct Column<T> {
    pub name: String,
    pub data: Vec<T>,
}

/// A column together with the kind of value it holds; the variant fixes the
/// element type of the underlying buffer.
#[derive(Debug)]
pub enum DataColumn {
    IntegerDataColumn(Column<i32>),
    TextDataColumn(Column<String>),
}

impl View for DataColumn {
    type V = ColumnModel;

    open spec fn view(&self) -> ColumnModel {
        match self {
            DataColumn::IntegerDataColumn(column) => ColumnModel {
                name: column.name@,
                kind: DataTypes::Integer,
                cells: column.data@.map_values(|value: i32| CellModel::Integer(value)),
            },
            DataColumn::TextDataColumn(column) => ColumnModel {
                name: column.name@,
                kind: DataTypes::Text,
                cells: column.data@.map_values(|text: String| CellModel::Text(text@)),
            },
        }
    }
}

/// Every cell a column models has the column's own kind: homogeneity is
/// built into the model, whichever variant the column is.
pub proof fn lemma_column_is_homogeneous(column: DataColumn)
    ensures
        forall|r: int|
            0 <= r < column@.cells.len() ==> crate::cell::kind_of(#[trigger] column@.cells[r])
                == column@.kind,
{
}

} // verus!
