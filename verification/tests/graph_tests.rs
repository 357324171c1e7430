use nats_messaging::graph::{
    num_columns, num_rows, string_u32_from_row, string_u32_rows, Column, GraphError, ResultSet,
    Scalar,
};

fn string_scalar(s: &str) -> Scalar {
    Scalar { bool_value: None, int_value: None, string_value: Some(s.to_string()) }
}

fn int_scalar(n: i64) -> Scalar {
    Scalar { bool_value: None, int_value: Some(n), string_value: None }
}

fn scalar_column(scalars: Vec<Scalar>) -> Column {
    Column { scalars, nodes: vec![], relations: vec![] }
}

fn get_result_set() -> Result<ResultSet, GraphError> {
    Ok(ResultSet {
        statistics: vec![],
        columns: vec![
            scalar_column(vec![string_scalar("tester")]),
            scalar_column(vec![int_scalar(1985)]),
        ],
    })
}

fn get_result_set2() -> Result<ResultSet, GraphError> {
    Ok(ResultSet {
        statistics: vec![],
        columns: vec![
            scalar_column(vec![string_scalar("tester"), string_scalar("test2")]),
            scalar_column(vec![int_scalar(1985), int_scalar(1986)]),
        ],
    })
}

fn fake_query(_query: &str) -> Result<(String, u32), GraphError> {
    let result_set = get_result_set()?;
    string_u32_from_row(&result_set, 0)
}

fn fake_vec_query(_query: &str) -> Result<Vec<(String, u32)>, GraphError> {
    let result_set = get_result_set2()?;
    string_u32_rows(&result_set)
}

// Verifies that we can extract the tuples we expect from the raw result-set
// structure and that the return values are converted to plain types
#[test]
fn tuple_extraction_test() {
    let (name, birth_year): (String, u32) = fake_query("fake query").unwrap();
    assert_eq!("tester", name);
    assert_eq!(1985, birth_year);
}

#[test]
fn vec_tuple_extraction_test() {
    let res: Vec<(String, u32)> = fake_vec_query("foo").unwrap();
    assert_eq!(("tester".to_string(), 1985), res[0]);
    assert_eq!(("test2".to_string(), 1986), res[1]);
}

#[test]
fn result_set_shape_and_errors() {
    let rs = get_result_set2().unwrap();
    assert_eq!(num_columns(&rs), 2);
    assert_eq!(num_rows(&rs), 2);
    // a row index out of bounds is an error, not a panic
    assert!(string_u32_from_row(&rs, 2).is_err());
    // a one-column table cannot give a pair
    let narrow = ResultSet {
        statistics: vec![],
        columns: vec![scalar_column(vec![string_scalar("only")])],
    };
    assert!(string_u32_from_row(&narrow, 0).is_err());
    // a string cell where an integer is expected is an error
    let swapped = ResultSet {
        statistics: vec![],
        columns: vec![
            scalar_column(vec![string_scalar("a")]),
            scalar_column(vec![string_scalar("b")]),
        ],
    };
    assert!(string_u32_from_row(&swapped, 0).is_err());
}
