use dataframe::DataCell;
use dataframe::DataFrame;
use dataframe::DataFrameError;
use dataframe::DataTypes;

fn names(labels: &[&str]) -> Vec<String> {
    labels.iter().map(|label| label.to_string()).collect()
}

#[test]
fn round_trip_shape_two_by_two() {
    let data = vec![
        DataCell::from(1),
        DataCell::from("x".to_string()),
        DataCell::from(2),
        DataCell::from("y".to_string()),
    ];
    let frame = DataFrame::new(names(&["a", "b"]), data).unwrap();
    assert_eq!(frame.num_columns(), 2);
    assert_eq!(frame.column_len(0), 2);
    assert_eq!(frame.column_len(1), 2);
    assert_eq!(frame.column_name(0), "a");
    assert_eq!(frame.column_name(1), "b");
}

#[test]
fn round_trip_shape_three_columns_two_rows() {
    let data = vec![
        DataCell::from(1),
        DataCell::from(2),
        DataCell::from("x".to_string()),
        DataCell::from(4),
        DataCell::from(5),
        DataCell::from("y".to_string()),
    ];
    let frame = DataFrame::new(names(&["a", "b", "c"]), data).unwrap();
    assert_eq!(frame.num_columns(), 3);
    for index in 0..3 {
        assert_eq!(frame.column_len(index), 2);
    }
    assert_eq!(frame.column_kind(0), DataTypes::Integer);
    assert_eq!(frame.column_kind(1), DataTypes::Integer);
    assert_eq!(frame.column_kind(2), DataTypes::Text);
}

#[test]
fn round_trip_shape_single_row() {
    let data = vec![DataCell::from(10), DataCell::from(20)];
    let frame = DataFrame::new(names(&["a", "b"]), data).unwrap();
    assert_eq!(frame.num_columns(), 2);
    assert_eq!(frame.column_len(0), 1);
    assert_eq!(frame.column_len(1), 1);
}

#[test]
fn type_inference_uses_first_row_only() {
    let data = vec![
        DataCell::from(1),
        DataCell::from("x".to_string()),
        DataCell::from(2),
        DataCell::from("y".to_string()),
    ];
    let frame = DataFrame::new(names(&["a", "b"]), data).unwrap();
    assert_eq!(frame.column_kind(0), DataTypes::Integer);
    assert_eq!(frame.column_kind(1), DataTypes::Text);
}

#[test]
fn distribution_is_row_major() {
    let data = vec![
        DataCell::from(1),
        DataCell::from("x".to_string()),
        DataCell::from(2),
        DataCell::from("y".to_string()),
    ];
    let frame = DataFrame::new(names(&["a", "b"]), data).unwrap();
    assert_eq!(frame.cell(0, 0), DataCell::from(1));
    assert_eq!(frame.cell(0, 1), DataCell::from(2));
    assert_eq!(frame.cell(1, 0), DataCell::from("x".to_string()));
    assert_eq!(frame.cell(1, 1), DataCell::from("y".to_string()));
}

#[test]
fn shape_mismatch_when_cells_do_not_divide_evenly() {
    let data = vec![DataCell::from(1), DataCell::from(2), DataCell::from(3)];
    let error = DataFrame::new(names(&["a", "b"]), data).unwrap_err();
    assert_eq!(error, DataFrameError::ShapeMismatch);
    assert_eq!(
        error.message(),
        "length of data provided did not match expected number of columns"
    );
}

#[test]
fn type_mismatch_against_integer_column() {
    let data = vec![
        DataCell::from(1),
        DataCell::from("x".to_string()),
        DataCell::from("oops".to_string()),
        DataCell::from("y".to_string()),
    ];
    let error = DataFrame::new(names(&["a", "b"]), data).unwrap_err();
    assert_eq!(error, DataFrameError::TypeMismatch(DataTypes::Integer));
    assert_eq!(
        error.message(),
        "data cell type did not match integer column type"
    );
}

#[test]
fn type_mismatch_against_text_column() {
    let data = vec![
        DataCell::from(1),
        DataCell::from("x".to_string()),
        DataCell::from(2),
        DataCell::from(3),
    ];
    let error = DataFrame::new(names(&["a", "b"]), data).unwrap_err();
    assert_eq!(error, DataFrameError::TypeMismatch(DataTypes::Text));
    assert_eq!(
        error.message(),
        "data cell type did not match text column type"
    );
}

#[test]
fn first_mismatch_in_flat_order_decides_the_error() {
    // Row 2 violates both columns; the earlier flat index (column "a",
    // expecting integers) must decide the reported error.
    let data = vec![
        DataCell::from(1),
        DataCell::from("x".to_string()),
        DataCell::from("oops".to_string()),
        DataCell::from(9),
    ];
    let error = DataFrame::new(names(&["a", "b"]), data).unwrap_err();
    assert_eq!(error, DataFrameError::TypeMismatch(DataTypes::Integer));
}

#[test]
fn shape_is_checked_before_types() {
    // Both the shape and a cell's type are wrong: the shape error wins.
    let data = vec![
        DataCell::from(1),
        DataCell::from("x".to_string()),
        DataCell::from("oops".to_string()),
    ];
    let error = DataFrame::new(names(&["a", "b"]), data).unwrap_err();
    assert_eq!(error, DataFrameError::ShapeMismatch);
}

#[test]
fn empty_data_defaults_columns_to_integer() {
    let frame = DataFrame::new(names(&["a", "b"]), Vec::new()).unwrap();
    assert_eq!(frame.num_columns(), 2);
    assert_eq!(frame.column_kind(0), DataTypes::Integer);
    assert_eq!(frame.column_kind(1), DataTypes::Integer);
    assert_eq!(frame.column_len(0), 0);
    assert_eq!(frame.column_len(1), 0);
}

#[test]
fn zero_columns_is_an_invalid_schema() {
    let error = DataFrame::new(Vec::new(), vec![DataCell::from(1)]).unwrap_err();
    assert_eq!(error, DataFrameError::InvalidSchema);
    assert_eq!(error.message(), "expected at least one column");

    let error = DataFrame::new(Vec::new(), Vec::new()).unwrap_err();
    assert_eq!(error, DataFrameError::InvalidSchema);
}

#[test]
fn build_is_deterministic() {
    let make = || {
        DataFrame::new(
            names(&["a", "b"]),
            vec![
                DataCell::from(1),
                DataCell::from("x".to_string()),
                DataCell::from(2),
                DataCell::from("y".to_string()),
            ],
        )
        .unwrap()
    };
    let first = make();
    let second = make();
    assert_eq!(first.num_columns(), second.num_columns());
    for index in 0..first.num_columns() {
        assert_eq!(first.column_name(index), second.column_name(index));
        assert_eq!(first.column_kind(index), second.column_kind(index));
        assert_eq!(first.column_len(index), second.column_len(index));
        for row in 0..first.column_len(index) {
            assert_eq!(first.cell(index, row), second.cell(index, row));
        }
    }
}
