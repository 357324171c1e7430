//! Typed access to a graph query's result set: a table of columns, each
//! holding scalars, nodes or relations, with bounds-checked accessors and
//! conversions into plain Rust values.

use vstd::prelude::*;

verus! {

/// Failure to read a value out of a result set.
#[derive(Debug)]
pub enum GraphError {
    /// The requested position or type does not match the result set.
    ClientTypeError(String),
}

/// One scalar cell: at most one of the typed values is set.
pub struct Scalar {
    /// A boolean cell value.
    pub bool_value: Option<bool>,
    /// An integer cell value.
    pub int_value: Option<i64>,
    /// A string cell value.
    pub string_value: Option<String>,
}

/// One graph node, as a query returns it.
pub struct Node {
    /// The node's labels.
    pub labels: Vec<String>,
    /// The node's properties, by name.
    pub properties: Vec<(String, Scalar)>,
}

/// One graph relation, as a query returns it.
pub struct Relation {
    /// The relation's type name.
    pub rel_type: String,
    /// The relation's properties, by name.
    pub properties: Vec<(String, Scalar)>,
}

/// One column of a result set; exactly one of the three lists is populated
/// for a well-formed result.
pub struct Column {
    /// The column's scalar cells.
    pub scalars: Vec<Scalar>,
    /// The column's node cells.
    pub nodes: Vec<Node>,
    /// The column's relation cells.
    pub relations: Vec<Relation>,
}

/// The table a graph query returns, with its statistics lines.
pub struct ResultSet {
    /// Human-readable statistics of the query.
    pub statistics: Vec<String>,
    /// The result columns.
    pub columns: Vec<Column>,
}

/// Returns the number of columns in the result set.
pub fn num_columns(rs: &ResultSet) -> (n: usize)
    ensures
        n == rs.columns@.len(),
{
    rs.columns.len()
}

/// The number of rows the first column holds, over all three cell kinds.
pub open spec fn spec_num_rows(rs: &ResultSet) -> int {
    if rs.columns@.len() > 0 {
        rs.columns@[0].scalars@.len() as int + rs.columns@[0].nodes@.len() as int
            + rs.columns@[0].relations@.len() as int
    } else {
        0
    }
}

/// Returns the number of rows in the result set.
pub fn num_rows(rs: &ResultSet) -> (n: usize)
    requires
        spec_num_rows(rs) <= usize::MAX,
    ensures
        n == spec_num_rows(rs),
{
    if rs.columns.len() > 0 {
        let col = &rs.columns[0];
        col.scalars.len() + col.nodes.len() + col.relations.len()
    } else {
        0
    }
}

/// Returns the scalar at the given position: `Ok` exactly when the column
/// exists and holds a scalar row at that index.
pub fn get_scalar<'a>(rs: &'a ResultSet, row_idx: usize, column_idx: usize) -> (r: Result<
    &'a Scalar,
    GraphError,
>)
    ensures
        r is Ok <==> (column_idx < rs.columns@.len() && row_idx
            < rs.columns@[column_idx as int].scalars@.len()),
        r matches Ok(s) ==> s == &rs.columns@[column_idx as int].scalars@[row_idx as int],
{
    if column_idx >= rs.columns.len() {
        return Err(GraphError::ClientTypeError(
            "failed to get scalar: column index out of bounds".to_owned(),
        ));
    }
    let column = &rs.columns[column_idx];
    if row_idx >= column.scalars.len() {
        return Err(GraphError::ClientTypeError(
            "failed to get scalar: row index out of bounds".to_owned(),
        ));
    }
    Ok(&column.scalars[row_idx])
}

/// Returns the node at the given position: `Ok` exactly when the column
/// exists and holds a node row at that index.
pub fn get_node<'a>(rs: &'a ResultSet, row_idx: usize, column_idx: usize) -> (r: Result<
    &'a Node,
    GraphError,
>)
    ensures
        r is Ok <==> (column_idx < rs.columns@.len() && row_idx
            < rs.columns@[column_idx as int].nodes@.len()),
        r matches Ok(n) ==> n == &rs.columns@[column_idx as int].nodes@[row_idx as int],
{
    if column_idx >= rs.columns.len() {
        return Err(GraphError::ClientTypeError(
            "failed to get node: column index out of bounds".to_owned(),
        ));
    }
    let column = &rs.columns[column_idx];
    if row_idx >= column.nodes.len() {
        return Err(GraphError::ClientTypeError(
            "failed to get node: row index out of bounds".to_owned(),
        ));
    }
    Ok(&column.nodes[row_idx])
}

/// Returns the relation at the given position: `Ok` exactly when the column
/// exists and holds a relation row at that index.
pub fn get_relation<'a>(rs: &'a ResultSet, row_idx: usize, column_idx: usize) -> (r: Result<
    &'a Relation,
    GraphError,
>)
    ensures
        r is Ok <==> (column_idx < rs.columns@.len() && row_idx
            < rs.columns@[column_idx as int].relations@.len()),
        r matches Ok(n) ==> n == &rs.columns@[column_idx as int].relations@[row_idx as int],
{
    if column_idx >= rs.columns.len() {
        return Err(GraphError::ClientTypeError(
            "failed to get relation: column index out of bounds".to_owned(),
        ));
    }
    let column = &rs.columns[column_idx];
    if row_idx >= column.relations.len() {
        return Err(GraphError::ClientTypeError(
            "failed to get relation: row index out of bounds".to_owned(),
        ));
    }
    Ok(&column.relations[row_idx])
}

/// The string in a scalar cell: `Ok` exactly when the position holds a
/// scalar whose string value is set.
pub fn string_from_cell(rs: &ResultSet, row_idx: usize, column_idx: usize) -> (r: Result<
    String,
    GraphError,
>)
    ensures
        r is Ok <==> (column_idx < rs.columns@.len() && row_idx
            < rs.columns@[column_idx as int].scalars@.len() && rs.columns@[
            column_idx as int
        ].scalars@[row_idx as int].string_value is Some),
        r matches Ok(v) ==> Some(v@) == rs.columns@[column_idx as int].scalars@[
            row_idx as int
        ].string_value.deep_view(),
{
    let scalar = match get_scalar(rs, row_idx, column_idx) {
        Ok(s) => s,
        Err(e) => {
            return Err(e);
        },
    };
    match &scalar.string_value {
        Some(data) => Ok(data.clone()),
        None => Err(GraphError::ClientTypeError(
            "failed to construct value: expected string, found nothing".to_owned(),
        )),
    }
}

/// The integer in a scalar cell, narrowed to `u32` by truncation the way a
/// plain integer cast narrows: `Ok` exactly when the position holds a
/// scalar whose integer value is set.
pub fn u32_from_cell(rs: &ResultSet, row_idx: usize, column_idx: usize) -> (r: Result<
    u32,
    GraphError,
>)
    ensures
        r is Ok <==> (column_idx < rs.columns@.len() && row_idx
            < rs.columns@[column_idx as int].scalars@.len() && rs.columns@[
            column_idx as int
        ].scalars@[row_idx as int].int_value is Some),
        r matches Ok(v) ==> v == rs.columns@[column_idx as int].scalars@[
            row_idx as int
        ].int_value.unwrap() as u32,
{
    let scalar = match get_scalar(rs, row_idx, column_idx) {
        Ok(s) => s,
        Err(e) => {
            return Err(e);
        },
    };
    match scalar.int_value {
        Some(n) => Ok(
            #[verifier::truncate]
            (n as u32),
        ),
        None => Err(GraphError::ClientTypeError(
            "failed to construct value: expected integer, found nothing".to_owned(),
        )),
    }
}

/// The boolean in a scalar cell: `Ok` exactly when the position holds a
/// scalar whose boolean value is set.
pub fn bool_from_cell(rs: &ResultSet, row_idx: usize, column_idx: usize) -> (r: Result<
    bool,
    GraphError,
>)
    ensures
        r is Ok <==> (column_idx < rs.columns@.len() && row_idx
            < rs.columns@[column_idx as int].scalars@.len() && rs.columns@[
            column_idx as int
        ].scalars@[row_idx as int].bool_value is Some),
        r matches Ok(v) ==> Some(v) == rs.columns@[column_idx as int].scalars@[
            row_idx as int
        ].bool_value,
{
    let scalar = match get_scalar(rs, row_idx, column_idx) {
        Ok(s) => s,
        Err(e) => {
            return Err(e);
        },
    };
    match scalar.bool_value {
        Some(b) => Ok(b),
        None => Err(GraphError::ClientTypeError(
            "failed to construct value: expected boolean, found nothing".to_owned(),
        )),
    }
}

/// One row as a string-and-number pair, from a two-column result: `Ok`
/// exactly when the table has two columns, the first holding a string and
/// the second an integer at this row.
pub fn string_u32_from_row(rs: &ResultSet, row_idx: usize) -> (r: Result<
    (String, u32),
    GraphError,
>)
    ensures
        r is Ok <==> (rs.columns@.len() == 2 && row_idx < rs.columns@[0].scalars@.len()
            && rs.columns@[0].scalars@[row_idx as int].string_value is Some && row_idx
            < rs.columns@[1].scalars@.len() && rs.columns@[1].scalars@[
            row_idx as int
        ].int_value is Some),
        r matches Ok(p) ==> Some(p.0@) == rs.columns@[0].scalars@[
            row_idx as int
        ].string_value.deep_view() && p.1 == rs.columns@[1].scalars@[
            row_idx as int
        ].int_value.unwrap() as u32,
{
    if num_columns(rs) != 2 {
        return Err(GraphError::ClientTypeError(
            "failed to construct tuple: the result table does not have two columns".to_owned(),
        ));
    }
    let s = match string_from_cell(rs, row_idx, 0) {
        Ok(s) => s,
        Err(e) => {
            return Err(e);
        },
    };
    let n = match u32_from_cell(rs, row_idx, 1) {
        Ok(n) => n,
        Err(e) => {
            return Err(e);
        },
    };
    Ok((s, n))
}

/// Every row as a string-and-number pair, from a two-column result: `Ok`
/// exactly when every row converts, with one pair per row.
pub fn string_u32_rows(rs: &ResultSet) -> (r: Result<Vec<(String, u32)>, GraphError>)
    requires
        spec_num_rows(rs) <= usize::MAX,
    ensures
        r matches Ok(v) ==> v@.len() == spec_num_rows(rs),
        r matches Ok(v) ==> (forall|i: int|
            0 <= i < v@.len() ==> Some((#[trigger] v@[i]).0@) == rs.columns@[0].scalars@[
                i
            ].string_value.deep_view() && v@[i].1 == rs.columns@[1].scalars@[
                i
            ].int_value.unwrap() as u32),
{
    let n = num_rows(rs);
    let mut out: Vec<(String, u32)> = Vec::new();
    let mut i: usize = 0;
    while i < n
        invariant
            n == spec_num_rows(rs),
            i <= n,
            out@.len() == i,
            forall|p: int|
                0 <= p < i ==> Some((#[trigger] out@[p]).0@) == rs.columns@[0].scalars@[
                    p
                ].string_value.deep_view() && out@[p].1 == rs.columns@[1].scalars@[
                    p
                ].int_value.unwrap() as u32,
        decreases n - i,
    {
        match string_u32_from_row(rs, i) {
            Ok(p) => out.push(p),
            Err(e) => {
                return Err(e);
            },
        }
        i = i + 1;
    }
    Ok(out)
}

} // verus!
