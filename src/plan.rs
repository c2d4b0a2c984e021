use vstd::prelude::*;
use crate::error::{FixtureError, ShapeFault};
use crate::schema::{first_untyped, sample_type, sample_typed, synthesize_schema, ColumnType};
use crate::statement::{
    create_statement, create_text, drop_statement, drop_text, first_unrenderable, insert_statement,
    insert_text, row_renderable,
};
use crate::text::texts;
use crate::value::{find_entry, lookup, Value};

verus! {

/// The entries of a mapping value.
pub open spec fn entries_of(v: Value) -> Option<Seq<(String, Value)>> {
    match v {
        Value::Mapping(m) => Some(m@),
        _ => None,
    }
}

/// The values of a sequence value.
pub open spec fn cells(v: Value) -> Option<Seq<Value>> {
    match v {
        Value::Sequence(s) => Some(s@),
        _ => None,
    }
}

/// The string bound to `key` in a mapping value.
pub open spec fn string_field(v: Value, key: Seq<char>) -> Option<String> {
    match entries_of(v) {
        Some(m) => match lookup(m, key) {
            Some(Value::Str(s)) => Some(s),
            _ => None,
        },
        None => None,
    }
}

/// The sequence bound to `key` in a mapping value.
pub open spec fn sequence_field(v: Value, key: Seq<char>) -> Option<Seq<Value>> {
    match entries_of(v) {
        Some(m) => match lookup(m, key) {
            Some(Value::Sequence(s)) => Some(s@),
            _ => None,
        },
        None => None,
    }
}

/// Extracts the query text and the table descriptions of a configuration.
pub fn extract_config<'a>(cfg: &'a Value) -> (r: Result<(&'a String, &'a Vec<Value>), FixtureError>)
    ensures
        !(*cfg is Mapping) ==> r == Err::<(&String, &Vec<Value>), FixtureError>(
            FixtureError::ConfigShapeError(ShapeFault::TopLevelNotMapping),
        ),
        *cfg is Mapping && string_field(*cfg, "query"@) is None ==> r == Err::<
            (&String, &Vec<Value>),
            FixtureError,
        >(FixtureError::ConfigShapeError(ShapeFault::QueryNotString)),
        string_field(*cfg, "query"@) is Some && sequence_field(*cfg, "tables"@) is None ==> r
            == Err::<(&String, &Vec<Value>), FixtureError>(
            FixtureError::ConfigShapeError(ShapeFault::TablesNotSequence),
        ),
        r is Ok <==> string_field(*cfg, "query"@) is Some && sequence_field(*cfg, "tables"@) is Some,
        r matches Ok((q, ts)) ==> string_field(*cfg, "query"@) == Some(*q) && sequence_field(
            *cfg,
            "tables"@,
        ) == Some(ts@),
{
    let entries = match cfg {
        Value::Mapping(m) => m,
        _ => {
            return Err(FixtureError::ConfigShapeError(ShapeFault::TopLevelNotMapping));
        },
    };
    let query = match find_entry(entries, "query") {
        Some(Value::Str(q)) => q,
        _ => {
            return Err(FixtureError::ConfigShapeError(ShapeFault::QueryNotString));
        },
    };
    let tables = match find_entry(entries, "tables") {
        Some(Value::Sequence(ts)) => ts,
        _ => {
            return Err(FixtureError::ConfigShapeError(ShapeFault::TablesNotSequence));
        },
    };
    Ok((query, tables))
}

/// Every header is a string.
pub open spec fn headers_ok(h: Seq<Value>) -> bool {
    forall|j: int| 0 <= j < h.len() ==> (#[trigger] h[j]) is Str
}

/// `c` is the first header that is not a string.
pub open spec fn first_non_string(h: Seq<Value>, c: int) -> bool {
    &&& 0 <= c < h.len()
    &&& !(h[c] is Str)
    &&& forall|j: int| 0 <= j < c ==> (#[trigger] h[j]) is Str
}

/// The names held by a header row of strings.
pub open spec fn header_names(h: Seq<Value>) -> Seq<String> {
    h.map_values(|v: Value| v->Str_0)
}

/// The column definitions: each header with the type of the sample value below
/// it, up to the shorter of the two rows.
pub open spec fn schema_of(names: Seq<String>, sample: Seq<Value>) -> Seq<(String, ColumnType)> {
    let n = if names.len() < sample.len() { names.len() } else { sample.len() };
    Seq::new(n, |j: int| (names[j], sample_type(sample[j])->0))
}

pub fn collect_headers(table: &String, h: &Vec<Value>) -> (r: Result<Vec<String>, FixtureError>)
    ensures
        r is Ok <==> headers_ok(h@),
        r matches Ok(names) ==> names@ == header_names(h@),
        r matches Err(e) ==> exists|c: int| first_non_string(h@, c)
            && e == FixtureError::ConfigShapeError(ShapeFault::HeaderNotString { table: *table, column: c as usize }),
{
    let mut names: Vec<String> = Vec::new();
    let mut j: usize = 0;
    while j < h.len()
        invariant
            0 <= j <= h@.len(),
            names@.len() == j,
            forall|k: int| 0 <= k < j ==> (#[trigger] h@[k]) is Str && names@[k] == h@[k]->Str_0,
        decreases h@.len() - j,
    {
        match &h[j] {
            Value::Str(s) => names.push(s.clone()),
            _ => {
                assert(first_non_string(h@, j as int));
                return Err(
                    FixtureError::ConfigShapeError(ShapeFault::HeaderNotString { table: table.clone(), column: j }),
                );
            },
        }
        j = j + 1;
    }
    assert(names@ =~= header_names(h@));
    Ok(names)
}

/// A data row is a sequence of renderable values.
pub open spec fn row_ok(v: Value) -> bool {
    v is Sequence && row_renderable(v->Sequence_0@)
}

/// What goes wrong with data row `i`, the first row that is not `row_ok`.
pub open spec fn row_error(n: String, row: Value, i: int, e: FixtureError) -> bool {
    if !(row is Sequence) {
        e == FixtureError::ConfigShapeError(ShapeFault::RowNotSequence { table: n, row: i as usize })
    } else {
        exists|c: int| first_unrenderable(row->Sequence_0@, c)
            && e == (FixtureError::UnsupportedRowValue { table: n, row: i as usize, column: c as usize })
    }
}

/// A table description that can be planned without error.
pub open spec fn table_ok(t: Value) -> bool {
    &&& string_field(t, "name"@) is Some
    &&& sequence_field(t, "data"@) matches Some(d)
    &&& d.len() >= 2
    &&& cells(d[0]) matches Some(h)
    &&& headers_ok(h)
    &&& cells(d[1]) matches Some(sample)
    &&& sample_typed(sample)
    &&& forall|i: int| 1 <= i < d.len() ==> row_ok(#[trigger] d[i])
}

/// The statements that set up a well-formed table: drop it, create it, and
/// insert every row after the header, the type-sample row included.
pub open spec fn table_statements(t: Value) -> Seq<Seq<char>> {
    let n = string_field(t, "name"@)->0;
    let d = sequence_field(t, "data"@)->0;
    let cols = schema_of(header_names(cells(d[0])->0), cells(d[1])->0);
    seq![drop_text(n@), create_text(n@, cols)] + Seq::new(
        (d.len() - 1) as nat,
        |i: int| insert_text(n@, cells(d[i + 1])->0),
    )
}

/// The error for a table description, at `position` in the configuration,
/// that is not `table_ok`: its first fault, in the order the checks run.
pub open spec fn table_error(t: Value, position: int, e: FixtureError) -> bool {
    if !(t is Mapping) {
        e == FixtureError::ConfigShapeError(ShapeFault::TableNotMapping { position: position as usize })
    } else if string_field(t, "name"@) is None {
        e == FixtureError::ConfigShapeError(ShapeFault::NameNotString { position: position as usize })
    } else {
        let n = string_field(t, "name"@)->0;
        if sequence_field(t, "data"@) is None {
            e == FixtureError::ConfigShapeError(ShapeFault::DataNotSequence { table: n })
        } else {
            let d = sequence_field(t, "data"@)->0;
            if d.len() < 2 {
                e == (FixtureError::InsufficientTableData { table: n })
            } else if cells(d[0]) is None {
                e == FixtureError::ConfigShapeError(ShapeFault::HeadersNotSequence { table: n })
            } else if !headers_ok(cells(d[0])->0) {
                exists|c: int| first_non_string(cells(d[0])->0, c)
                    && e == FixtureError::ConfigShapeError(ShapeFault::HeaderNotString { table: n, column: c as usize })
            } else if cells(d[1]) is None {
                e == FixtureError::ConfigShapeError(ShapeFault::RowNotSequence { table: n, row: 1 })
            } else if !sample_typed(cells(d[1])->0) {
                exists|c: int| first_untyped(cells(d[1])->0, c)
                    && e == (FixtureError::UnsupportedSampleValue { table: n, column: c as usize })
            } else {
                exists|i: int| 1 <= i < d.len() && !row_ok(d[i])
                    && (forall|k: int| 1 <= k < i ==> row_ok(#[trigger] d[k]))
                    && row_error(n, d[i], i, e)
            }
        }
    }
}

/// The statements that set up one table.
pub struct TablePlan {
    pub name: String,
    pub statements: Vec<String>,
}

/// Plans the statements that set up one table: drop, create, then one insert
/// per data row. `position` is the table's place in the configuration.
pub fn plan_table(t: &Value, position: usize) -> (r: Result<TablePlan, FixtureError>)
    ensures
        r is Ok <==> table_ok(*t),
        r matches Ok(p) ==> texts(p.statements@) == table_statements(*t) && string_field(*t, "name"@)
            == Some(p.name),
        r matches Err(e) ==> table_error(*t, position as int, e),
{
    let entries = match t {
        Value::Mapping(m) => m,
        _ => {
            return Err(FixtureError::ConfigShapeError(ShapeFault::TableNotMapping { position }));
        },
    };
    let name = match find_entry(entries, "name") {
        Some(Value::Str(s)) => s,
        _ => {
            return Err(FixtureError::ConfigShapeError(ShapeFault::NameNotString { position }));
        },
    };
    let data = match find_entry(entries, "data") {
        Some(Value::Sequence(d)) => d,
        _ => {
            return Err(FixtureError::ConfigShapeError(ShapeFault::DataNotSequence { table: name.clone() }));
        },
    };
    if data.len() < 2 {
        return Err(FixtureError::InsufficientTableData { table: name.clone() });
    }
    let header_values = match &data[0] {
        Value::Sequence(h) => h,
        _ => {
            return Err(FixtureError::ConfigShapeError(ShapeFault::HeadersNotSequence { table: name.clone() }));
        },
    };
    let headers = match collect_headers(name, header_values) {
        Ok(hs) => hs,
        Err(e) => {
            return Err(e);
        },
    };
    let sample = match &data[1] {
        Value::Sequence(s) => s,
        _ => {
            return Err(FixtureError::ConfigShapeError(ShapeFault::RowNotSequence { table: name.clone(), row: 1 }));
        },
    };
    let cols = match synthesize_schema(name, &headers, sample) {
        Ok(cs) => cs,
        Err(e) => {
            return Err(e);
        },
    };
    let ghost d = data@;
    let ghost want = table_statements(*t);
    assert(cols@ =~= schema_of(header_names(header_values@), sample@));
    let mut stmts: Vec<String> = Vec::new();
    stmts.push(drop_statement(name));
    stmts.push(create_statement(name, &cols));
    let mut i: usize = 1;
    while i < data.len()
        invariant
            1 <= i <= d.len(),
            d == data@,
            d.len() >= 2,
            want == table_statements(*t),
            string_field(*t, "name"@) == Some(*name),
            sequence_field(*t, "data"@) == Some(d),
            stmts@.len() == i + 1,
            forall|k: int| 0 <= k < i + 1 ==> (#[trigger] stmts@[k])@ == want[k],
            forall|k: int| 1 <= k < i ==> row_ok(#[trigger] d[k]),
            *t is Mapping,
            cells(d[0]) == Some(header_values@),
            headers_ok(header_values@),
            cells(d[1]) == Some(sample@),
            sample_typed(sample@),
        decreases d.len() - i,
    {
        let row = match &data[i] {
            Value::Sequence(r) => r,
            _ => {
                assert(!row_ok(d[i as int]) && row_error(*name, d[i as int], i as int,
                    FixtureError::ConfigShapeError(ShapeFault::RowNotSequence { table: *name, row: i })));
                return Err(
                    FixtureError::ConfigShapeError(ShapeFault::RowNotSequence { table: name.clone(), row: i }),
                );
            },
        };
        match insert_statement(name, row, i) {
            Ok(s) => stmts.push(s),
            Err(e) => {
                assert(!row_ok(d[i as int]) && row_error(*name, d[i as int], i as int, e));
                return Err(e);
            },
        }
        i = i + 1;
    }
    assert(texts(stmts@) =~= want);
    Ok(TablePlan { name: name.clone(), statements: stmts })
}

/// One statement of the setup, with the table it belongs to.
pub struct SetupStep {
    pub table: String,
    pub statement: String,
}

impl SetupStep {
    /// The error that ends the run when the database refuses this step.
    pub fn failure(&self) -> (r: FixtureError)
        ensures
            r == (FixtureError::TableSetupError { table: self.table, statement: self.statement }),
    {
        FixtureError::TableSetupError { table: self.table.clone(), statement: self.statement.clone() }
    }
}

/// The statements that set up every table, in configuration order.
pub open spec fn setup_statements(ts: Seq<Value>) -> Seq<Seq<char>>
    decreases ts.len(),
{
    if ts.len() == 0 {
        Seq::empty()
    } else {
        setup_statements(ts.drop_last()) + table_statements(ts.last())
    }
}

pub open spec fn step_texts(steps: Seq<SetupStep>) -> Seq<Seq<char>> {
    steps.map_values(|s: SetupStep| s.statement@)
}

/// Every table description can be planned.
pub open spec fn tables_ok(ts: Seq<Value>) -> bool {
    forall|k: int| 0 <= k < ts.len() ==> table_ok(#[trigger] ts[k])
}

/// The error for the tables: that of the first one that cannot be planned.
pub open spec fn tables_error(ts: Seq<Value>, e: FixtureError) -> bool {
    exists|k: int|
        0 <= k < ts.len() && !table_ok(ts[k]) && (forall|j: int| 0 <= j < k ==> table_ok(#[trigger] ts[j]))
            && table_error(ts[k], k, e)
}

/// Plans the setup of every table, in configuration order. Every table is
/// checked before any statement is handed out.
pub fn plan_setup(tables: &Vec<Value>) -> (r: Result<Vec<SetupStep>, FixtureError>)
    ensures
        r is Ok <==> tables_ok(tables@),
        r matches Ok(steps) ==> step_texts(steps@) == setup_statements(tables@),
        r matches Err(e) ==> tables_error(tables@, e),
{
    let mut steps: Vec<SetupStep> = Vec::new();
    let mut k: usize = 0;
    while k < tables.len()
        invariant
            0 <= k <= tables@.len(),
            step_texts(steps@) == setup_statements(tables@.take(k as int)),
            forall|j: int| 0 <= j < k ==> table_ok(#[trigger] tables@[j]),
        decreases tables@.len() - k,
    {
        let p = match plan_table(&tables[k], k) {
            Ok(p) => p,
            Err(e) => {
                assert(!table_ok(tables@[k as int]) && table_error(tables@[k as int], k as int, e));
                return Err(e);
            },
        };
        let ghost before = steps@;
        let mut m: usize = 0;
        while m < p.statements.len()
            invariant
                0 <= m <= p.statements@.len(),
                steps@.len() == before.len() + m,
                forall|x: int| 0 <= x < before.len() ==> steps@[x] == before[x],
                forall|x: int| 0 <= x < m ==> (#[trigger] steps@[before.len() + x]).statement@
                    == p.statements@[x]@,
            decreases p.statements@.len() - m,
        {
            steps.push(SetupStep { table: p.name.clone(), statement: p.statements[m].clone() });
            m = m + 1;
        }
        proof {
            assert(tables@.take(k as int + 1).drop_last() =~= tables@.take(k as int));
            assert forall|i: int| before.len() <= i < steps@.len() implies steps@[i].statement@
                == p.statements@[i - before.len()]@ by {
                assert(steps@[before.len() + (i - before.len())] == steps@[i]);
            }
            assert(step_texts(steps@) =~= step_texts(before) + texts(p.statements@));
        }
        k = k + 1;
    }
    assert(tables@.take(tables@.len() as int) =~= tables@);
    Ok(steps)
}

/// The fault in the top level of a configuration, if any.
pub open spec fn config_fault(cfg: Value) -> Option<FixtureError> {
    if !(cfg is Mapping) {
        Some(FixtureError::ConfigShapeError(ShapeFault::TopLevelNotMapping))
    } else if string_field(cfg, "query"@) is None {
        Some(FixtureError::ConfigShapeError(ShapeFault::QueryNotString))
    } else if sequence_field(cfg, "tables"@) is None {
        Some(FixtureError::ConfigShapeError(ShapeFault::TablesNotSequence))
    } else {
        None
    }
}

/// Everything a run does against the database: the setup statements, then
/// the query.
pub struct RunPlan {
    pub query: String,
    pub steps: Vec<SetupStep>,
}

/// Plans a whole run from a configuration document. All of the configuration
/// is checked before any statement is handed out, so a faulty configuration
/// never reaches the database.
pub fn plan_run(cfg: &Value) -> (r: Result<RunPlan, FixtureError>)
    ensures
        config_fault(*cfg) matches Some(e) ==> r == Err::<RunPlan, FixtureError>(e),
        config_fault(*cfg) is None ==> {
            let ts = sequence_field(*cfg, "tables"@)->0;
            &&& r is Ok <==> tables_ok(ts)
            &&& r matches Ok(p) ==> string_field(*cfg, "query"@) == Some(p.query) && step_texts(p.steps@)
                == setup_statements(ts)
            &&& r matches Err(e) ==> tables_error(ts, e)
        },
{
    let (query, tables) = match extract_config(cfg) {
        Ok(c) => c,
        Err(e) => {
            return Err(e);
        },
    };
    match plan_setup(tables) {
        Ok(steps) => Ok(RunPlan { query: query.clone(), steps }),
        Err(e) => Err(e),
    }
}

/// A configuration whose top level is not a mapping is refused with a shape
/// error, whatever else it holds.
pub proof fn lemma_non_mapping_config_refused(cfg: Value)
    requires
        !(cfg is Mapping),
    ensures
        config_fault(cfg) == Some(FixtureError::ConfigShapeError(ShapeFault::TopLevelNotMapping)),
{
}

/// A table whose data lacks a header row or a type-sample row makes the
/// whole setup fail with `InsufficientTableData`, so no statement of the run
/// reaches the database (when the tables before it are well formed).
pub proof fn lemma_short_data_refused(ts: Seq<Value>, k: int, e: FixtureError)
    requires
        0 <= k < ts.len(),
        string_field(ts[k], "name"@) is Some,
        sequence_field(ts[k], "data"@) is Some,
        sequence_field(ts[k], "data"@)->0.len() < 2,
        forall|j: int| 0 <= j < k ==> table_ok(#[trigger] ts[j]),
        tables_error(ts, e),
    ensures
        !tables_ok(ts),
        e == (FixtureError::InsufficientTableData { table: string_field(ts[k], "name"@)->0 }),
{
    let w = choose|w: int|
        0 <= w < ts.len() && !table_ok(ts[w]) && (forall|j: int| 0 <= j < w ==> table_ok(#[trigger] ts[j]))
            && table_error(ts[w], w, e);
    assert(!table_ok(ts[k]));
    if w > k {
        assert(table_ok(ts[k]));
    }
}

/// A type-sample row holding a null or a container makes the table fail with
/// `UnsupportedSampleValue` at the first such column, before any statement
/// for it is built.
pub proof fn lemma_untyped_sample_refused(t: Value, position: int, e: FixtureError)
    requires
        string_field(t, "name"@) is Some,
        sequence_field(t, "data"@) matches Some(d) && d.len() >= 2 && (cells(d[0]) matches Some(h)
            && headers_ok(h)) && (cells(d[1]) matches Some(sample) && !sample_typed(sample)),
        table_error(t, position, e),
    ensures
        !table_ok(t),
        exists|c: int| first_untyped(cells(sequence_field(t, "data"@)->0[1])->0, c)
            && e == (FixtureError::UnsupportedSampleValue { table: string_field(t, "name"@)->0, column: c as usize }),
{
}

} // verus!
