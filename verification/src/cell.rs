//! A cell is one scalar, typed datum of the flat input sequence: either a
//! 32-bit signed integer or a UTF-8 text value.

use vstd::prelude::*;

verus! {

/// The tag recording a cell's (and, after inference, a column's) kind.
#[derive(Clone, Copy, Debug, PartialEq, Eq, Structural)]
pub enum DataTypes {
    Integer,
    Text,
}

/// The mathematical model of one cell: its kind together with its payload,
/// a text payload abstracted to its character sequence.
pub ghost enum CellModel {
    Integer(i32),
    Text(Seq<char>),
}

/// The kind of a modelled cell.
pub open spec fn kind_of(cell: CellModel) -> DataTypes {
    match cell {
        CellModel::Integer(_) => DataTypes::Integer,
        CellModel::Text(_) => DataTypes::Text,
    }
}

/// One scalar, typed datum, immutable once constructed.
#[derive(Debug)]
pub enum DataCell {
    IntegerDataCell(i32),
    TextDataCell(String),
}

impl View for DataCell {
    type V = CellModel;

    open spec fn view(&self) -> CellModel {
        match self {
            DataCell::IntegerDataCell(value) => CellModel::Integer(*value),
            DataCell::TextDataCell(text) => CellModel::Text(text@),
        }
    }
}

impl DataCell {
    /// The tag corresponding to this cell's variant.
    pub fn data_type(&self) -> (kind: DataTypes)
        ensures
            kind == kind_of(self@),
    {
        match self {
            DataCell::IntegerDataCell(_) => DataTypes::Integer,
            DataCell::TextDataCell(_) => DataTypes::Text,
        }
    }
}

impl PartialEq for DataCell {
    fn eq(&self, other: &Self) -> (equal: bool) {
        match (self, other) {
            (DataCell::IntegerDataCell(a), DataCell::IntegerDataCell(b)) => a == b,
            (DataCell::TextDataCell(a), DataCell::TextDataCell(b)) => a.eq(b),
            _ => false,
        }
    }
}

impl vstd::std_specs::cmp::PartialEqSpecImpl for DataCell {
    open spec fn obeys_eq_spec() -> bool {
        true
    }

    open spec fn eq_spec(&self, other: &Self) -> bool {
        self@ == other@
    }
}

impl From<i32> for DataCell {
    fn from(value: i32) -> (cell: DataCell) {
        DataCell::IntegerDataCell(value)
    }
}

impl vstd::std_specs::convert::FromSpecImpl<i32> for DataCell {
    open spec fn obeys_from_spec() -> bool {
        true
    }

    open spec fn from_spec(value: i32) -> DataCell {
        DataCell::IntegerDataCell(value)
    }
}

impl From<String> for DataCell {
    fn from(text: String) -> (cell: DataCell) {
        DataCell::TextDataCell(text)
    }
}

impl vstd::std_specs::convert::FromSpecImpl<String> for DataCell {
    open spec fn obeys_from_spec() -> bool {
        true
    }

    open spec fn from_spec(text: String) -> DataCell {
        DataCell::TextDataCell(text)
    }
}

} // verus!
