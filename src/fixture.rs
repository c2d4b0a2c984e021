use vstd::prelude::*;
use crate::error::FixtureError;
use crate::result::{convertible, converts_to, fixture_type, fixture_type_spec, materialize_value, FixtureType, NativeType, NativeValue};
use crate::text::owned;
use crate::value::Value;

verus! {

/// A result column: its name and the type the database reports for it.
pub struct ResultColumn {
    pub name: String,
    pub native: NativeType,
}

/// The expected shape and content of a query's result.
pub struct FixtureDocument {
    pub sql: String,
    pub expected_names: Vec<String>,
    pub expected_types: Vec<FixtureType>,
    pub expected: Vec<Vec<Value>>,
}

/// Every cell of the row can be converted.
pub open spec fn row_convertible(row: Seq<NativeValue>) -> bool {
    forall|j: int| 0 <= j < row.len() ==> convertible(#[trigger] row[j])
}

/// A result row has one value per column, each convertible.
pub open spec fn result_row_ok(row: Seq<NativeValue>, width: int) -> bool {
    row.len() == width && row_convertible(row)
}

/// The error for result row `i`, which is not `result_row_ok`.
pub open spec fn result_row_error(row: Seq<NativeValue>, i: int, width: int, e: FixtureError) -> bool {
    if row.len() != width {
        e == (FixtureError::MalformedResultRow { row: i as usize, values: row.len() as usize, columns: width as usize })
    } else {
        exists|c: int|
            0 <= c < row.len() && !convertible(row[c]) && (forall|j: int| 0 <= j < c ==> convertible(#[trigger] row[j]))
                && e == (FixtureError::UnsupportedResultValue { row: i as usize, column: c as usize })
    }
}

/// Converts one result row, at position `i` of the result.
pub fn materialize_row(row: &Vec<NativeValue>, i: usize, width: usize) -> (r: Result<Vec<Value>, FixtureError>)
    ensures
        r is Ok <==> result_row_ok(row@, width as int),
        r matches Ok(vs) ==> vs@.len() == width && forall|j: int| 0 <= j < width ==> converts_to(row@[j], #[trigger] vs@[j]),
        r matches Err(e) ==> result_row_error(row@, i as int, width as int, e),
{
    if row.len() != width {
        return Err(FixtureError::MalformedResultRow { row: i, values: row.len(), columns: width });
    }
    let mut out: Vec<Value> = Vec::new();
    let mut j: usize = 0;
    while j < row.len()
        invariant
            0 <= j <= row@.len(),
            row@.len() == width,
            out@.len() == j,
            forall|k: int| 0 <= k < j ==> convertible(#[trigger] row@[k]) && converts_to(row@[k], out@[k]),
        decreases row@.len() - j,
    {
        match materialize_value(&row[j], i, j) {
            Ok(v) => out.push(v),
            Err(e) => {
                return Err(e);
            },
        }
        j = j + 1;
    }
    Ok(out)
}

/// Assembles the fixture document for a query from its result: the column
/// names and tags in result order, and every row converted cell by cell.
pub fn build_fixture(query: &String, columns: &Vec<ResultColumn>, rows: &Vec<Vec<NativeValue>>) -> (r: Result<
    FixtureDocument,
    FixtureError,
>)
    ensures
        r is Ok <==> forall|i: int| 0 <= i < rows@.len() ==> result_row_ok(#[trigger] rows@[i]@, columns@.len() as int),
        r matches Ok(doc) ==> {
            &&& doc.sql == *query
            &&& doc.expected_names@.len() == columns@.len()
            &&& doc.expected_types@.len() == doc.expected_names@.len()
            &&& forall|j: int| 0 <= j < columns@.len() ==> doc.expected_names@[j] == (#[trigger] columns@[j]).name
                && doc.expected_types@[j] == fixture_type_spec(columns@[j].native)
            &&& doc.expected@.len() == rows@.len()
            &&& forall|i: int| 0 <= i < rows@.len() ==> (#[trigger] doc.expected@[i])@.len() == doc.expected_names@.len()
                && forall|j: int| 0 <= j < columns@.len() ==> converts_to(rows@[i]@[j], #[trigger] doc.expected@[i]@[j])
        },
        r matches Err(e) ==> exists|i: int|
            0 <= i < rows@.len() && !result_row_ok(rows@[i]@, columns@.len() as int)
                && (forall|k: int| 0 <= k < i ==> result_row_ok(#[trigger] rows@[k]@, columns@.len() as int))
                && result_row_error(rows@[i]@, i, columns@.len() as int, e),
{
    let mut names: Vec<String> = Vec::new();
    let mut types: Vec<FixtureType> = Vec::new();
    let mut j: usize = 0;
    while j < columns.len()
        invariant
            0 <= j <= columns@.len(),
            names@.len() == j,
            types@.len() == j,
            forall|k: int| 0 <= k < j ==> names@[k] == (#[trigger] columns@[k]).name
                && types@[k] == fixture_type_spec(columns@[k].native),
        decreases columns@.len() - j,
    {
        names.push(columns[j].name.clone());
        types.push(fixture_type(columns[j].native));
        j = j + 1;
    }
    let width = columns.len();
    let mut expected: Vec<Vec<Value>> = Vec::new();
    let mut i: usize = 0;
    while i < rows.len()
        invariant
            0 <= i <= rows@.len(),
            width == columns@.len(),
            expected@.len() == i,
            forall|k: int| 0 <= k < i ==> result_row_ok(#[trigger] rows@[k]@, width as int),
            forall|k: int| 0 <= k < i ==> (#[trigger] expected@[k])@.len() == width
                && forall|j: int| 0 <= j < width ==> converts_to(rows@[k]@[j], #[trigger] expected@[k]@[j]),
        decreases rows@.len() - i,
    {
        match materialize_row(&rows[i], i, width) {
            Ok(vs) => expected.push(vs),
            Err(e) => {
                assert(!result_row_ok(rows@[i as int]@, width as int));
                return Err(e);
            },
        }
        i = i + 1;
    }
    Ok(FixtureDocument { sql: query.clone(), expected_names: names, expected_types: types, expected })
}

impl FixtureDocument {
    /// The document as a mapping with the keys `sql`, `expected_names`,
    /// `expected_types` and `expected`, in that order.
    pub fn into_value(self) -> (r: Value)
        ensures
            r is Mapping,
            ({
                let e = r->Mapping_0@;
                &&& e.len() == 4
                &&& e[0].0@ == "sql"@ && e[0].1 == Value::Str(self.sql)
                &&& e[1].0@ == "expected_names"@ && e[1].1 is Sequence
                &&& e[1].1->Sequence_0@.len() == self.expected_names@.len()
                &&& forall|j: int| 0 <= j < self.expected_names@.len()
                    ==> #[trigger] e[1].1->Sequence_0@[j] == Value::Str(self.expected_names@[j])
                &&& e[2].0@ == "expected_types"@ && e[2].1 is Sequence
                &&& e[2].1->Sequence_0@.len() == self.expected_types@.len()
                &&& forall|j: int| 0 <= j < self.expected_types@.len()
                    ==> (#[trigger] e[2].1->Sequence_0@[j]) is Str
                    && e[2].1->Sequence_0@[j]->Str_0@ == self.expected_types@[j].tag_text()
                &&& e[3].0@ == "expected"@ && e[3].1 is Sequence
                &&& e[3].1->Sequence_0@.len() == self.expected@.len()
                &&& forall|i: int| 0 <= i < self.expected@.len()
                    ==> #[trigger] e[3].1->Sequence_0@[i] == Value::Sequence(self.expected@[i])
            }),
    {
        let mut names: Vec<Value> = Vec::new();
        let mut j: usize = 0;
        while j < self.expected_names.len()
            invariant
                0 <= j <= self.expected_names@.len(),
                names@.len() == j,
                forall|k: int| 0 <= k < j ==> #[trigger] names@[k] == Value::Str(self.expected_names@[k]),
            decreases self.expected_names@.len() - j,
        {
            names.push(Value::Str(self.expected_names[j].clone()));
            j = j + 1;
        }
        let mut tags: Vec<Value> = Vec::new();
        let mut j: usize = 0;
        while j < self.expected_types.len()
            invariant
                0 <= j <= self.expected_types@.len(),
                tags@.len() == j,
                forall|k: int| 0 <= k < j ==> (#[trigger] tags@[k]) is Str
                    && tags@[k]->Str_0@ == self.expected_types@[k].tag_text(),
            decreases self.expected_types@.len() - j,
        {
            tags.push(Value::Str(self.expected_types[j].tag()));
            j = j + 1;
        }
        let ghost all = self.expected@;
        let mut rest = self.expected;
        let mut rows: Vec<Value> = Vec::new();
        while rest.len() > 0
            invariant
                rows@.len() + rest@.len() == all.len(),
                rest@ == all.subrange(rows@.len() as int, all.len() as int),
                forall|k: int| 0 <= k < rows@.len() ==> #[trigger] rows@[k] == Value::Sequence(all[k]),
            decreases rest@.len(),
        {
            let row = rest.remove(0);
            rows.push(Value::Sequence(row));
        }
        let mut entries: Vec<(String, Value)> = Vec::new();
        entries.push((owned("sql"), Value::Str(self.sql)));
        entries.push((owned("expected_names"), Value::Sequence(names)));
        entries.push((owned("expected_types"), Value::Sequence(tags)));
        entries.push((owned("expected"), Value::Sequence(rows)));
        Value::Mapping(entries)
    }
}

} // verus!
