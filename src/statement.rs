use vstd::prelude::*;
use vstd::string::StringExecFns;
use crate::error::FixtureError;
use crate::schema::ColumnType;
use crate::text::{decimal_text, int_text, join, join_parts, owned, texts};
use crate::value::Value;

verus! {

/// A value can be written as an SQL literal: it is not a container.
pub open spec fn renderable(v: Value) -> bool {
    !(v is Sequence) && !(v is Mapping)
}

/// The SQL literal of a scalar value. Strings are quoted but not escaped.
pub open spec fn literal(v: Value) -> Seq<char> {
    match v {
        Value::Null => "NULL"@,
        Value::Bool(b) => if b { "true"@ } else { "false"@ },
        Value::Integer(i) => int_text(i as int),
        Value::Float(t) => t@,
        Value::Str(s) => seq!['\''] + s@ + seq!['\''],
        Value::Sequence(_) | Value::Mapping(_) => Seq::empty(),
    }
}

/// Renders a value as an SQL literal; none for a container.
pub fn render_literal(v: &Value) -> (r: Option<String>)
    ensures
        r is Some <==> renderable(*v),
        r matches Some(s) ==> s@ == literal(*v),
{
    match v {
        Value::Null => Some(owned("NULL")),
        Value::Bool(b) => {
            if *b {
                Some(owned("true"))
            } else {
                Some(owned("false"))
            }
        },
        Value::Integer(i) => Some(decimal_text(*i)),
        Value::Float(t) => Some(t.clone()),
        Value::Str(s) => {
            let mut out = owned("'");
            out.append(s.as_str());
            out.append("'");
            proof {
                reveal_strlit("'");
            }
            Some(out)
        },
        Value::Sequence(_) => None,
        Value::Mapping(_) => None,
    }
}

pub open spec fn drop_text(name: Seq<char>) -> Seq<char> {
    "DROP TABLE IF EXISTS "@ + name
}

pub open spec fn column_def_text(name: Seq<char>, ty: ColumnType) -> Seq<char> {
    name + seq![' '] + ty.sql_text()
}

pub open spec fn column_defs(cols: Seq<(String, ColumnType)>) -> Seq<Seq<char>> {
    cols.map_values(|c: (String, ColumnType)| column_def_text(c.0@, c.1))
}

pub open spec fn create_text(name: Seq<char>, cols: Seq<(String, ColumnType)>) -> Seq<char> {
    "CREATE TABLE "@ + name + " ("@ + join(column_defs(cols)) + ")"@
}

pub open spec fn insert_text(name: Seq<char>, row: Seq<Value>) -> Seq<char> {
    "INSERT INTO "@ + name + " VALUES ("@ + join(row.map_values(|v: Value| literal(v))) + ")"@
}

/// Every value of the row is renderable.
pub open spec fn row_renderable(row: Seq<Value>) -> bool {
    forall|j: int| 0 <= j < row.len() ==> renderable(#[trigger] row[j])
}

/// `c` is the first column of the row that is not renderable.
pub open spec fn first_unrenderable(row: Seq<Value>, c: int) -> bool {
    &&& 0 <= c < row.len()
    &&& !renderable(row[c])
    &&& forall|j: int| 0 <= j < c ==> renderable(#[trigger] row[j])
}

pub fn drop_statement(name: &String) -> (r: String)
    ensures
        r@ == drop_text(name@),
{
    let mut s = owned("DROP TABLE IF EXISTS ");
    s.append(name.as_str());
    s
}

pub fn create_statement(name: &String, cols: &Vec<(String, ColumnType)>) -> (r: String)
    ensures
        r@ == create_text(name@, cols@),
{
    let mut defs: Vec<String> = Vec::new();
    let mut i: usize = 0;
    while i < cols.len()
        invariant
            0 <= i <= cols@.len(),
            defs@.len() == i,
            forall|k: int| 0 <= k < i ==> (#[trigger] defs@[k])@ == column_defs(cols@)[k],
        decreases cols@.len() - i,
    {
        let mut d = cols[i].0.clone();
        d.append(" ");
        let ty = cols[i].1.sql_name();
        d.append(ty.as_str());
        proof {
            reveal_strlit(" ");
        }
        defs.push(d);
        i = i + 1;
    }
    assert(texts(defs@) =~= column_defs(cols@));
    let body = join_parts(&defs);
    let mut s = owned("CREATE TABLE ");
    s.append(name.as_str());
    s.append(" (");
    s.append(body.as_str());
    s.append(")");
    s
}

/// The `INSERT` statement for one data row; `row_index` is the row's position
/// in the table's data and only serves to locate an error.
pub fn insert_statement(table: &String, row: &Vec<Value>, row_index: usize) -> (r: Result<String, FixtureError>)
    ensures
        r is Ok <==> row_renderable(row@),
        r matches Ok(s) ==> s@ == insert_text(table@, row@),
        r matches Err(e) ==> exists|c: int| first_unrenderable(row@, c)
            && e == (FixtureError::UnsupportedRowValue { table: *table, row: row_index, column: c as usize }),
{
    let ghost lits = row@.map_values(|v: Value| literal(v));
    let mut parts: Vec<String> = Vec::new();
    let mut j: usize = 0;
    while j < row.len()
        invariant
            0 <= j <= row@.len(),
            lits == row@.map_values(|v: Value| literal(v)),
            parts@.len() == j,
            forall|k: int| 0 <= k < j ==> (#[trigger] parts@[k])@ == lits[k],
            forall|k: int| 0 <= k < j ==> renderable(#[trigger] row@[k]),
        decreases row@.len() - j,
    {
        match render_literal(&row[j]) {
            Some(lit) => parts.push(lit),
            None => {
                assert(first_unrenderable(row@, j as int));
                return Err(
                    FixtureError::UnsupportedRowValue { table: table.clone(), row: row_index, column: j },
                );
            },
        }
        j = j + 1;
    }
    assert(texts(parts@) =~= lits);
    let body = join_parts(&parts);
    let mut s = owned("INSERT INTO ");
    s.append(table.as_str());
    s.append(" VALUES (");
    s.append(body.as_str());
    s.append(")");
    Ok(s)
}

} // verus!
