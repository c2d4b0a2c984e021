use vstd::prelude::*;
use crate::error::FixtureError;
use crate::text::owned;
use crate::value::Value;

verus! {

/// The SQL type of a column, inferred from the type-sample row.
#[derive(Clone, Copy, Debug, PartialEq, Eq, Structural)]
pub enum ColumnType {
    Double,
    Int,
    Text,
    TinyInt1,
}

impl ColumnType {
    /// The type's name in a `CREATE TABLE` statement.
    pub open spec fn sql_text(self) -> Seq<char> {
        match self {
            ColumnType::Double => "double"@,
            ColumnType::Int => "int"@,
            ColumnType::Text => "text"@,
            ColumnType::TinyInt1 => "tinyint(1)"@,
        }
    }

    pub fn sql_name(&self) -> (r: String)
        ensures
            r@ == self.sql_text(),
    {
        match self {
            ColumnType::Double => owned("double"),
            ColumnType::Int => owned("int"),
            ColumnType::Text => owned("text"),
            ColumnType::TinyInt1 => owned("tinyint(1)"),
        }
    }
}

/// The column type that a sample value stands for; none for a null or a
/// container.
pub open spec fn sample_type(v: Value) -> Option<ColumnType> {
    match v {
        Value::Float(_) => Some(ColumnType::Double),
        Value::Integer(_) => Some(ColumnType::Int),
        Value::Str(_) => Some(ColumnType::Text),
        Value::Bool(_) => Some(ColumnType::TinyInt1),
        Value::Null | Value::Sequence(_) | Value::Mapping(_) => None,
    }
}

pub fn column_type_of(v: &Value) -> (r: Option<ColumnType>)
    ensures
        r == sample_type(*v),
{
    match v {
        Value::Float(_) => Some(ColumnType::Double),
        Value::Integer(_) => Some(ColumnType::Int),
        Value::Str(_) => Some(ColumnType::Text),
        Value::Bool(_) => Some(ColumnType::TinyInt1),
        Value::Null => None,
        Value::Sequence(_) => None,
        Value::Mapping(_) => None,
    }
}

/// Every value of the sample row has a column type.
pub open spec fn sample_typed(sample: Seq<Value>) -> bool {
    forall|j: int| 0 <= j < sample.len() ==> sample_type(#[trigger] sample[j]) is Some
}

/// `c` is the first column of the sample row without a column type.
pub open spec fn first_untyped(sample: Seq<Value>, c: int) -> bool {
    &&& 0 <= c < sample.len()
    &&& sample_type(sample[c]) is None
    &&& forall|j: int| 0 <= j < c ==> sample_type(#[trigger] sample[j]) is Some
}

/// Pairs each header with the type of the sample value below it. Every value
/// of the sample row must have a type; the pairs stop at the shorter of the
/// two rows.
pub fn synthesize_schema(table: &String, headers: &Vec<String>, sample: &Vec<Value>) -> (r: Result<
    Vec<(String, ColumnType)>,
    FixtureError,
>)
    ensures
        r is Ok <==> sample_typed(sample@),
        r matches Ok(cols) ==> {
            &&& cols@.len() == if headers@.len() < sample@.len() { headers@.len() } else { sample@.len() }
            &&& forall|j: int| 0 <= j < cols@.len() ==> (#[trigger] cols@[j]).0 == headers@[j]
                && sample_type(sample@[j]) == Some(cols@[j].1)
        },
        r matches Err(e) ==> exists|c: int| first_untyped(sample@, c)
            && e == (FixtureError::UnsupportedSampleValue { table: *table, column: c as usize }),
{
    let mut types: Vec<ColumnType> = Vec::new();
    let mut j: usize = 0;
    while j < sample.len()
        invariant
            0 <= j <= sample@.len(),
            types@.len() == j,
            forall|k: int| 0 <= k < j ==> sample_type(#[trigger] sample@[k]) == Some(types@[k]),
        decreases sample@.len() - j,
    {
        match column_type_of(&sample[j]) {
            Some(t) => types.push(t),
            None => {
                assert(first_untyped(sample@, j as int));
                return Err(FixtureError::UnsupportedSampleValue { table: table.clone(), column: j });
            },
        }
        j = j + 1;
    }
    let mut cols: Vec<(String, ColumnType)> = Vec::new();
    let mut k: usize = 0;
    while k < headers.len() && k < types.len()
        invariant
            0 <= k <= headers@.len(),
            k <= types@.len(),
            types@.len() == sample@.len(),
            forall|m: int| 0 <= m < sample@.len() ==> sample_type(#[trigger] sample@[m]) == Some(types@[m]),
            cols@.len() == k,
            forall|m: int| 0 <= m < k ==> (#[trigger] cols@[m]).0 == headers@[m]
                && sample_type(sample@[m]) == Some(cols@[m].1),
        decreases headers@.len() - k,
    {
        cols.push((headers[k].clone(), types[k]));
        k = k + 1;
    }
    Ok(cols)
}

} // verus!
