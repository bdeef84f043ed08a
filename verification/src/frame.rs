//! The table builder: infers each column's kind from the first row of a
//! flat, row-major cell sequence, validates the sequence's shape, and
//! distributes the cells into typed columns.

use vstd::arithmetic::div_mod::lemma_fundamental_div_mod;
use vstd::arithmetic::div_mod::lemma_fundamental_div_mod_converse;
use vstd::prelude::*;

use crate::cell::kind_of;
use crate::cell::CellModel;
use crate::cell::DataCell;
use crate::cell::DataTypes;
use crate::column::Column;
use crate::column::ColumnModel;
use crate::column::DataColumn;
use crate::error::DataFrameError;

verus! {

/// The column labels abstracted to their character sequences.
pub open spec fn names_model(names: Seq<String>) -> Seq<Seq<char>> {
    names.map_values(|name: String| name@)
}

/// The flat cell sequence abstracted to modelled cells.
pub open spec fn cells_model(cells: Seq<DataCell>) -> Seq<CellModel> {
    cells.map_values(|cell: DataCell| cell@)
}

/// The kind inferred for column position `i`: the kind of the first row's
/// cell at that position, or `Integer` when no such cell exists.
pub open spec fn inferred_kind(cells: Seq<CellModel>, i: int) -> DataTypes {
    if 0 <= i < cells.len() {
        kind_of(cells[i])
    } else {
        DataTypes::Integer
    }
}

/// Whether the cell at flat index `j` agrees with the kind inferred for the
/// column it belongs to under row-major distribution.
pub open spec fn cell_ok(cells: Seq<CellModel>, num_cols: int, j: int) -> bool {
    kind_of(cells[j]) == inferred_kind(cells, j % num_cols)
}

/// The least flat index at or after `j` whose cell disagrees with its
/// column's inferred kind, if any.
pub open spec fn first_mismatch_from(cells: Seq<CellModel>, num_cols: int, j: int) -> Option<int>
    decreases cells.len() - j,
{
    if j >= cells.len() {
        None
    } else if !cell_ok(cells, num_cols, j) {
        Some(j)
    } else {
        first_mismatch_from(cells, num_cols, j + 1)
    }
}

/// The least flat index whose cell disagrees with its column's inferred
/// kind, if any; `None` means every cell fits its column.
pub open spec fn first_mismatch(cells: Seq<CellModel>, num_cols: int) -> Option<int> {
    first_mismatch_from(cells, num_cols, 0)
}

/// The table a successful build yields: one column per name, in declaration
/// order, whose kind is inferred from the first row and whose rows collect
/// the cells at flat indices `r * num_cols + i` in row order.
pub open spec fn table_model(names: Seq<Seq<char>>, cells: Seq<CellModel>) -> Seq<ColumnModel> {
    let num_cols = names.len() as int;
    let num_rows = cells.len() as int / num_cols;
    Seq::new(
        names.len(),
        |i: int| ColumnModel {
            name: names[i],
            kind: inferred_kind(cells, i),
            cells: Seq::new(num_rows as nat, |r: int| cells[r * num_cols + i]),
        },
    )
}

/// What `DataFrame::new` returns, case by case: zero declared columns are
/// rejected as an invalid schema; a cell count that does not divide evenly
/// into rows is a shape mismatch; otherwise the first cell (in flat order)
/// whose kind disagrees with its column's inferred kind decides a type
/// mismatch, and with no such cell the build succeeds with the modelled
/// table.
pub open spec fn build_spec(
    names: Seq<Seq<char>>,
    cells: Seq<CellModel>,
    result: Result<DataFrame, DataFrameError>,
) -> bool {
    let num_cols = names.len() as int;
    if num_cols == 0 {
        result == Err::<DataFrame, DataFrameError>(DataFrameError::InvalidSchema)
    } else if cells.len() as int % num_cols != 0 {
        result == Err::<DataFrame, DataFrameError>(DataFrameError::ShapeMismatch)
    } else {
        match first_mismatch(cells, num_cols) {
            Some(j) => result == Err::<DataFrame, DataFrameError>(
                DataFrameError::TypeMismatch(inferred_kind(cells, j % num_cols)),
            ),
            None => result matches Ok(frame) && frame@ == table_model(names, cells),
        }
    }
}

/// Scanning for the first mismatch may start after any all-matching prefix
/// without changing the answer.
proof fn lemma_first_mismatch_skips_ok_prefix(cells: Seq<CellModel>, num_cols: int, j: int)
    requires
        0 <= j <= cells.len(),
        forall|k: int| 0 <= k < j ==> cell_ok(cells, num_cols, k),
    ensures
        first_mismatch(cells, num_cols) == first_mismatch_from(cells, num_cols, j),
    decreases j,
{
    if j > 0 {
        lemma_first_mismatch_skips_ok_prefix(cells, num_cols, j - 1);
    }
}

/// An ordered sequence of equal-length, independently typed columns,
/// constructed once by [`DataFrame::new`] and immutable thereafter.
#[derive(Debug)]
pub struct DataFrame {
    columns: Vec<DataColumn>,
}

impl View for DataFrame {
    type V = Seq<ColumnModel>;

    closed spec fn view(&self) -> Seq<ColumnModel> {
        self.columns@.map_values(|column: DataColumn| column@)
    }
}

impl DataFrame {
    /// Builds a table from column names and a flat, row-major cell
    /// sequence, as [`build_spec`] states: kinds are inferred from the
    /// first row alone (defaulting to integer where the sequence is empty),
    /// the shape is checked before any distribution, and the first
    /// mismatching cell in flat order aborts the whole build.
    pub fn new(column_names: Vec<String>, data: Vec<DataCell>) -> (result: Result<
        DataFrame,
        DataFrameError,
    >)
        ensures
            build_spec(names_model(column_names@), cells_model(data@), result),
    {
        let ghost names = names_model(column_names@);
        let ghost cells = cells_model(data@);

        let num_cols = column_names.len();
        if num_cols == 0 {
            return Err(DataFrameError::InvalidSchema);
        }

        // Infer the column kinds from the first row of cells.
        let mut column_types: Vec<DataTypes> = Vec::new();
        for i in 0..num_cols
            invariant
                column_types@.len() == i,
                forall|k: int| 0 <= k < i ==> column_types@[k] == inferred_kind(cells, k),
                cells.len() == data@.len(),
                cells == cells_model(data@),
        {
            if i >= data.len() {
                // No first-row cell exists at this position: default to integer.
                column_types.push(DataTypes::Integer);
            } else {
                column_types.push(data[i].data_type());
            }
        }

        if data.len() % num_cols != 0 {
            return Err(DataFrameError::ShapeMismatch);
        }

        // Check every cell, in flat order, against its column's inferred kind.
        let mut j: usize = 0;
        while j < data.len()
            invariant
                0 <= j <= data.len(),
                0 < num_cols,
                num_cols == column_names@.len(),
                names == names_model(column_names@),
                cells.len() as int % num_cols as int == 0,
                column_types@.len() == num_cols,
                forall|k: int| 0 <= k < num_cols ==> column_types@[k] == inferred_kind(cells, k),
                forall|k: int| 0 <= k < j ==> cell_ok(cells, num_cols as int, k),
                cells.len() == data@.len(),
                cells == cells_model(data@),
            decreases data.len() - j,
        {
            let col_index = j % num_cols;
            if data[j].data_type() != column_types[col_index] {
                proof {
                    assert(cells[j as int] == data@[j as int]@);
                    lemma_first_mismatch_skips_ok_prefix(cells, num_cols as int, j as int);
                }
                return Err(DataFrameError::TypeMismatch(column_types[col_index]));
            }
            proof {
                assert(cells[j as int] == data@[j as int]@);
            }
            j += 1;
        }
        proof {
            lemma_first_mismatch_skips_ok_prefix(cells, num_cols as int, data@.len() as int);
        }

        // Every cell fits: allocate each column and fill it in row order.
        let num_rows = data.len() / num_cols;
        proof {
            lemma_fundamental_div_mod(cells.len() as int, num_cols as int);
        }
        let mut columns: Vec<DataColumn> = Vec::new();
        let mut i: usize = 0;
        while i < num_cols
            invariant
                0 <= i <= num_cols,
                0 < num_cols,
                num_cols == column_names@.len(),
                num_rows == cells.len() as int / num_cols as int,
                cells.len() == num_cols * num_rows,
                cells.len() <= usize::MAX,
                column_types@.len() == num_cols,
                forall|k: int| 0 <= k < num_cols ==> column_types@[k] == inferred_kind(cells, k),
                forall|k: int| 0 <= k < cells.len() ==> cell_ok(cells, num_cols as int, k),
                cells.len() == data@.len(),
                cells == cells_model(data@),
                names == names_model(column_names@),
                columns@.len() == i,
                forall|k: int|
                    0 <= k < i ==> #[trigger] columns@[k]@ == table_model(names, cells)[k],
            decreases num_cols - i,
        {
            let name = column_names[i].clone();
            let column = match column_types[i] {
                DataTypes::Integer => {
                    let mut values: Vec<i32> = Vec::new();
                    let mut r: usize = 0;
                    while r < num_rows
                        invariant
                            0 <= r <= num_rows,
                            0 <= i < num_cols,
                            0 < num_cols,
                            num_rows == cells.len() as int / num_cols as int,
                            cells.len() == num_cols * num_rows,
                            cells.len() <= usize::MAX,
                            inferred_kind(cells, i as int) == DataTypes::Integer,
                            forall|k: int|
                                0 <= k < cells.len() ==> cell_ok(cells, num_cols as int, k),
                            cells.len() == data@.len(),
                            cells == cells_model(data@),
                            values@.len() == r,
                            forall|s: int|
                                0 <= s < r ==> CellModel::Integer(#[trigger] values@[s]) == cells[s
                                    * num_cols + i],
                        decreases num_rows - r,
                    {
                        proof {
                            lemma_flat_index_in_range(
                                cells.len() as int,
                                num_cols as int,
                                num_rows as int,
                                r as int,
                                i as int,
                            );
                        }
                        let flat = r * num_cols + i;
                        match &data[flat] {
                            DataCell::IntegerDataCell(value) => values.push(*value),
                            DataCell::TextDataCell(_) => {
                                // Unreachable: the flat-order check admitted every cell.
                                proof {
                                    lemma_fundamental_div_mod_converse(
                                        flat as int,
                                        num_cols as int,
                                        r as int,
                                        i as int,
                                    );
                                    assert(cell_ok(cells, num_cols as int, flat as int));
                                    assert(false);
                                }
                                return Err(DataFrameError::TypeMismatch(DataTypes::Integer));
                            },
                        }
                        r += 1;
                    }
                    DataColumn::IntegerDataColumn(Column { name, data: values })
                },
                DataTypes::Text => {
                    let mut values: Vec<String> = Vec::new();
                    let mut r: usize = 0;
                    while r < num_rows
                        invariant
                            0 <= r <= num_rows,
                            0 <= i < num_cols,
                            0 < num_cols,
                            num_rows == cells.len() as int / num_cols as int,
                            cells.len() == num_cols * num_rows,
                            cells.len() <= usize::MAX,
                            inferred_kind(cells, i as int) == DataTypes::Text,
                            forall|k: int|
                                0 <= k < cells.len() ==> cell_ok(cells, num_cols as int, k),
                            cells.len() == data@.len(),
                            cells == cells_model(data@),
                            values@.len() == r,
                            forall|s: int|
                                0 <= s < r ==> CellModel::Text(#[trigger] values@[s]@) == cells[s
                                    * num_cols + i],
                        decreases num_rows - r,
                    {
                        proof {
                            lemma_flat_index_in_range(
                                cells.len() as int,
                                num_cols as int,
                                num_rows as int,
                                r as int,
                                i as int,
                            );
                        }
                        let flat = r * num_cols + i;
                        match &data[flat] {
                            DataCell::TextDataCell(text) => values.push(text.clone()),
                            DataCell::IntegerDataCell(_) => {
                                // Unreachable: the flat-order check admitted every cell.
                                proof {
                                    lemma_fundamental_div_mod_converse(
                                        flat as int,
                                        num_cols as int,
                                        r as int,
                                        i as int,
                                    );
                                    assert(cell_ok(cells, num_cols as int, flat as int));
                                    assert(false);
                                }
                                return Err(DataFrameError::TypeMismatch(DataTypes::Text));
                            },
                        }
                        r += 1;
                    }
                    DataColumn::TextDataColumn(Column { name, data: values })
                },
            };
            proof {
                assert(column@.cells =~= table_model(names, cells)[i as int].cells);
                assert(column@ == table_model(names, cells)[i as int]);
            }
            columns.push(column);
            i += 1;
        }

        let frame = DataFrame { columns };
        proof {
            assert(frame@ =~= table_model(names, cells));
        }
        Ok(frame)
    }

    /// How many columns the table has.
    pub fn num_columns(&self) -> (count: usize)
        ensures
            count == self@.len(),
    {
        self.columns.len()
    }

    /// The display label of the column at `index`.
    pub fn column_name(&self, index: usize) -> (name: &str)
        requires
            index < self@.len(),
        ensures
            name@ == self@[index as int].name,
    {
        match &self.columns[index] {
            DataColumn::IntegerDataColumn(column) => column.name.as_str(),
            DataColumn::TextDataColumn(column) => column.name.as_str(),
        }
    }

    /// The kind inferred for the column at `index`.
    pub fn column_kind(&self, index: usize) -> (kind: DataTypes)
        requires
            index < self@.len(),
        ensures
            kind == self@[index as int].kind,
    {
        match &self.columns[index] {
            DataColumn::IntegerDataColumn(_) => DataTypes::Integer,
            DataColumn::TextDataColumn(_) => DataTypes::Text,
        }
    }

    /// How many values the column at `index` holds (the table's row count).
    pub fn column_len(&self, index: usize) -> (count: usize)
        requires
            index < self@.len(),
        ensures
            count == self@[index as int].cells.len(),
    {
        match &self.columns[index] {
            DataColumn::IntegerDataColumn(column) => column.data.len(),
            DataColumn::TextDataColumn(column) => column.data.len(),
        }
    }

    /// The value at row `row` of the column at `index`, wrapped back up as
    /// a cell.
    pub fn cell(&self, index: usize, row: usize) -> (cell: DataCell)
        requires
            index < self@.len(),
            row < self@[index as int].cells.len(),
        ensures
            cell@ == self@[index as int].cells[row as int],
    {
        match &self.columns[index] {
            DataColumn::IntegerDataColumn(column) => DataCell::IntegerDataCell(column.data[row]),
            DataColumn::TextDataColumn(column) => DataCell::TextDataCell(column.data[row].clone()),
        }
    }
}

/// Round-trip shape: whenever the declared column count is positive, the
/// cell count divides evenly into it, and every cell fits its column, the
/// build succeeds, with exactly one column per declared name, each holding
/// one value per complete row.
pub proof fn lemma_round_trip_shape(
    names: Seq<Seq<char>>,
    cells: Seq<CellModel>,
    result: Result<DataFrame, DataFrameError>,
)
    requires
        build_spec(names, cells, result),
        names.len() > 0,
        cells.len() as int % names.len() as int == 0,
        first_mismatch(cells, names.len() as int) is None,
    ensures
        result is Ok,
        result->Ok_0@.len() == names.len(),
        forall|i: int|
            0 <= i < names.len() ==> #[trigger] result->Ok_0@[i].cells.len() == cells.len() as int
                / names.len() as int,
{
}

/// Type inference is first-row-only: two cell sequences that agree on the
/// first row infer the same kind at every column position, whatever their
/// later rows hold.
pub proof fn lemma_inference_is_first_row_only(
    cells1: Seq<CellModel>,
    cells2: Seq<CellModel>,
    num_cols: int,
    i: int,
)
    requires
        0 <= i < num_cols,
        num_cols <= cells1.len(),
        num_cols <= cells2.len(),
        cells1.subrange(0, num_cols) == cells2.subrange(0, num_cols),
    ensures
        inferred_kind(cells1, i) == inferred_kind(cells2, i),
{
    assert(cells1.subrange(0, num_cols)[i] == cells1[i]);
    assert(cells2.subrange(0, num_cols)[i] == cells2[i]);
}

/// Distribution is row-major: the cell at flat index `r * num_cols + i`
/// lands in column `i` at row `r`, in its original order.
pub proof fn lemma_row_major_distribution(
    names: Seq<Seq<char>>,
    cells: Seq<CellModel>,
    i: int,
    r: int,
)
    requires
        names.len() > 0,
        0 <= i < names.len(),
        0 <= r < cells.len() as int / names.len() as int,
    ensures
        table_model(names, cells)[i].cells[r] == cells[r * names.len() as int + i],
{
}

/// An empty cell sequence is a valid build for any positive column count:
/// every column defaults to the integer kind and holds no values.
pub proof fn lemma_empty_defaults_to_integer(names: Seq<Seq<char>>)
    requires
        names.len() > 0,
    ensures
        Seq::<CellModel>::empty().len() as int % names.len() as int == 0,
        first_mismatch(Seq::<CellModel>::empty(), names.len() as int) is None,
        forall|i: int|
            0 <= i < names.len() ==> #[trigger] table_model(names, Seq::<CellModel>::empty())[i]
                == (ColumnModel { name: names[i], kind: DataTypes::Integer, cells: Seq::empty() }),
{
    assert forall|i: int| 0 <= i < names.len() implies #[trigger] table_model(
        names,
        Seq::<CellModel>::empty(),
    )[i] == (ColumnModel {
        name: names[i],
        kind: DataTypes::Integer,
        cells: Seq::empty(),
    }) by {
        assert(table_model(names, Seq::<CellModel>::empty())[i].cells =~= Seq::<CellModel>::empty());
    }
}

/// Building is deterministic: two builds from identical inputs that both
/// succeed yield tables with equal column names, kinds and data.
pub proof fn lemma_build_is_deterministic(
    names: Seq<Seq<char>>,
    cells: Seq<CellModel>,
    result1: Result<DataFrame, DataFrameError>,
    result2: Result<DataFrame, DataFrameError>,
)
    requires
        build_spec(names, cells, result1),
        build_spec(names, cells, result2),
        result1 is Ok,
        result2 is Ok,
    ensures
        result1->Ok_0@ == result2->Ok_0@,
{
}

/// Under an even shape, the flat index of row `r`, column `i` lies within
/// the cell sequence.
proof fn lemma_flat_index_in_range(len: int, num_cols: int, num_rows: int, r: int, i: int)
    requires
        0 < num_cols,
        0 <= i < num_cols,
        0 <= r < num_rows,
        len == num_cols * num_rows,
    ensures
        0 <= r * num_cols + i < len,
{
    assert(0 <= r * num_cols + i < len) by (nonlinear_arith)
        requires
            0 < num_cols,
            0 <= i < num_cols,
            0 <= r < num_rows,
            len == num_cols * num_rows,
    ;
}

} // verus!
