use fixture_gen::error::{FixtureError, ShapeFault};
use fixture_gen::fixture::{build_fixture, ResultColumn};
use fixture_gen::plan::{extract_config, plan_run, plan_table};
use fixture_gen::result::{fixture_type, materialize_value, FixtureType, NativeType, NativeValue};
use fixture_gen::schema::{column_type_of, synthesize_schema, ColumnType};
use fixture_gen::statement::{create_statement, drop_statement, insert_statement, render_literal};
use fixture_gen::text::join_parts;
use fixture_gen::value::{find_entry, Value};

fn s(x: &str) -> Value {
    Value::Str(x.to_string())
}

fn seq(vs: Vec<Value>) -> Value {
    Value::Sequence(vs)
}

fn map(entries: Vec<(&str, Value)>) -> Value {
    Value::Mapping(entries.into_iter().map(|(k, v)| (k.to_string(), v)).collect())
}

fn table(name: &str, data: Vec<Value>) -> Value {
    map(vec![("name", s(name)), ("data", seq(data))])
}

fn config(query: &str, tables: Vec<Value>) -> Value {
    map(vec![("query", s(query)), ("tables", seq(tables))])
}

fn statements(cfg: &Value) -> Vec<String> {
    plan_run(cfg).unwrap().steps.into_iter().map(|st| st.statement).collect()
}

fn col(name: &str, native: NativeType) -> ResultColumn {
    ResultColumn { name: name.to_string(), native }
}

#[test]
fn integer_column_round_trip_scenario() {
    let cfg = config(
        "SELECT value FROM nums ORDER BY value",
        vec![table(
            "nums",
            vec![
                seq(vec![s("value")]),
                seq(vec![Value::Integer(1)]),
                seq(vec![Value::Integer(2)]),
                seq(vec![Value::Integer(3)]),
            ],
        )],
    );
    let plan = plan_run(&cfg).unwrap();
    assert_eq!(plan.query, "SELECT value FROM nums ORDER BY value");
    assert!(plan.steps.iter().all(|st| st.table == "nums"));
    assert_eq!(
        statements(&cfg),
        vec![
            "DROP TABLE IF EXISTS nums",
            "CREATE TABLE nums (value int)",
            "INSERT INTO nums VALUES (1)",
            "INSERT INTO nums VALUES (2)",
            "INSERT INTO nums VALUES (3)",
        ]
    );
    let rows = vec![
        vec![NativeValue::SignedInt(1)],
        vec![NativeValue::SignedInt(2)],
        vec![NativeValue::SignedInt(3)],
    ];
    let doc = build_fixture(&plan.query, &vec![col("value", NativeType::Long)], &rows).unwrap();
    assert_eq!(doc.sql, "SELECT value FROM nums ORDER BY value");
    assert_eq!(doc.expected_names, vec!["value".to_string()]);
    assert_eq!(doc.expected_types, vec![FixtureType::Int]);
    assert_eq!(doc.expected.len(), 3);
    for (i, row) in doc.expected.iter().enumerate() {
        assert_eq!(row.len(), 1);
        assert!(matches!(row[0], Value::Integer(n) if n == i as i64 + 1));
    }
}

#[test]
fn boolean_column_scenario() {
    let cfg = config(
        "SELECT ok FROM flags ORDER BY ok",
        vec![table(
            "flags",
            vec![seq(vec![s("ok")]), seq(vec![Value::Bool(true)]), seq(vec![Value::Bool(false)])],
        )],
    );
    assert_eq!(
        statements(&cfg),
        vec![
            "DROP TABLE IF EXISTS flags",
            "CREATE TABLE flags (ok tinyint(1))",
            "INSERT INTO flags VALUES (true)",
            "INSERT INTO flags VALUES (false)",
        ]
    );
    let rows = vec![vec![NativeValue::SignedInt(0)], vec![NativeValue::SignedInt(1)]];
    let doc = build_fixture(&"SELECT ok FROM flags ORDER BY ok".to_string(), &vec![col("ok", NativeType::Tiny)], &rows)
        .unwrap();
    assert_eq!(doc.expected_types, vec![FixtureType::Int]);
    assert!(matches!(doc.expected[0][0], Value::Integer(0)));
    assert!(matches!(doc.expected[1][0], Value::Integer(1)));
}

#[test]
fn header_only_table_is_insufficient() {
    let cfg = config("SELECT 1", vec![table("t", vec![seq(vec![s("a")])])]);
    match plan_run(&cfg) {
        Err(FixtureError::InsufficientTableData { table }) => assert_eq!(table, "t"),
        other => panic!("unexpected {:?}", other.err()),
    }
}

#[test]
fn empty_data_is_insufficient() {
    let t = table("t", vec![]);
    assert!(matches!(plan_table(&t, 0), Err(FixtureError::InsufficientTableData { .. })));
}

#[test]
fn null_sample_is_unsupported() {
    let cfg = config("SELECT 1", vec![table("t", vec![seq(vec![s("a")]), seq(vec![Value::Null])])]);
    match plan_run(&cfg) {
        Err(FixtureError::UnsupportedSampleValue { table, column }) => {
            assert_eq!(table, "t");
            assert_eq!(column, 0);
        },
        other => panic!("unexpected {:?}", other.err()),
    }
}

#[test]
fn container_sample_is_unsupported_at_first_column() {
    let sample = vec![Value::Integer(1), seq(vec![]), Value::Null];
    let headers = vec!["a".to_string(), "b".to_string(), "c".to_string()];
    match synthesize_schema(&"t".to_string(), &headers, &sample) {
        Err(FixtureError::UnsupportedSampleValue { column, .. }) => assert_eq!(column, 1),
        other => panic!("unexpected {:?}", other.err()),
    }
}

#[test]
fn tables_as_mapping_is_a_shape_error() {
    let cfg = map(vec![("query", s("SELECT 1")), ("tables", map(vec![("t", s("x"))]))]);
    assert!(matches!(plan_run(&cfg), Err(FixtureError::ConfigShapeError(ShapeFault::TablesNotSequence))));
}

#[test]
fn non_mapping_top_level_is_a_shape_error() {
    let cfg = seq(vec![s("query")]);
    assert!(matches!(plan_run(&cfg), Err(FixtureError::ConfigShapeError(ShapeFault::TopLevelNotMapping))));
    assert!(matches!(
        plan_run(&Value::Null),
        Err(FixtureError::ConfigShapeError(ShapeFault::TopLevelNotMapping))
    ));
}

#[test]
fn missing_or_mistyped_query_is_a_shape_error() {
    let cfg = map(vec![("tables", seq(vec![]))]);
    assert!(matches!(extract_config(&cfg), Err(FixtureError::ConfigShapeError(ShapeFault::QueryNotString))));
    let cfg = map(vec![("query", Value::Integer(3)), ("tables", seq(vec![]))]);
    assert!(matches!(extract_config(&cfg), Err(FixtureError::ConfigShapeError(ShapeFault::QueryNotString))));
}

#[test]
fn config_without_tables_plans_nothing() {
    let cfg = config("SELECT 1", vec![]);
    let plan = plan_run(&cfg).unwrap();
    assert_eq!(plan.query, "SELECT 1");
    assert!(plan.steps.is_empty());
}

#[test]
fn table_shape_errors() {
    assert!(matches!(
        plan_table(&s("x"), 4),
        Err(FixtureError::ConfigShapeError(ShapeFault::TableNotMapping { position: 4 }))
    ));
    let t = map(vec![("name", Value::Integer(1)), ("data", seq(vec![]))]);
    assert!(matches!(plan_table(&t, 2), Err(FixtureError::ConfigShapeError(ShapeFault::NameNotString { position: 2 }))));
    let t = map(vec![("name", s("t")), ("data", s("rows"))]);
    assert!(matches!(plan_table(&t, 0), Err(FixtureError::ConfigShapeError(ShapeFault::DataNotSequence { .. }))));
    let t = table("t", vec![s("a"), seq(vec![Value::Integer(1)])]);
    assert!(matches!(plan_table(&t, 0), Err(FixtureError::ConfigShapeError(ShapeFault::HeadersNotSequence { .. }))));
    let t = table("t", vec![seq(vec![s("a"), Value::Integer(2)]), seq(vec![Value::Integer(1)])]);
    assert!(matches!(
        plan_table(&t, 0),
        Err(FixtureError::ConfigShapeError(ShapeFault::HeaderNotString { column: 1, .. }))
    ));
    let t = table("t", vec![seq(vec![s("a")]), Value::Integer(1)]);
    assert!(matches!(
        plan_table(&t, 0),
        Err(FixtureError::ConfigShapeError(ShapeFault::RowNotSequence { row: 1, .. }))
    ));
    let t = table("t", vec![seq(vec![s("a")]), seq(vec![Value::Integer(1)]), Value::Null]);
    assert!(matches!(
        plan_table(&t, 0),
        Err(FixtureError::ConfigShapeError(ShapeFault::RowNotSequence { row: 2, .. }))
    ));
}

#[test]
fn container_in_data_row_is_unsupported() {
    let t = table(
        "t",
        vec![seq(vec![s("a"), s("b")]), seq(vec![Value::Integer(1), s("x")]), seq(vec![Value::Integer(2), map(vec![])])],
    );
    match plan_table(&t, 0) {
        Err(FixtureError::UnsupportedRowValue { table, row, column }) => {
            assert_eq!(table, "t");
            assert_eq!(row, 2);
            assert_eq!(column, 1);
        },
        other => panic!("unexpected {:?}", other.err().map(|e| format!("{:?}", e))),
    }
}

#[test]
fn later_null_values_are_inserted() {
    let t = table(
        "people",
        vec![
            seq(vec![s("name"), s("age"), s("height")]),
            seq(vec![s("ann"), Value::Integer(-4), Value::Float("1.75".to_string())]),
            seq(vec![Value::Null, Value::Null, Value::Float("2.0".to_string())]),
        ],
    );
    let p = plan_table(&t, 0).unwrap();
    assert_eq!(p.name, "people");
    assert_eq!(
        p.statements,
        vec![
            "DROP TABLE IF EXISTS people",
            "CREATE TABLE people (name text, age int, height double)",
            "INSERT INTO people VALUES ('ann', -4, 1.75)",
            "INSERT INTO people VALUES (NULL, NULL, 2.0)",
        ]
    );
}

#[test]
fn tables_are_planned_in_order() {
    let cfg = config(
        "SELECT 1",
        vec![
            table("a", vec![seq(vec![s("x")]), seq(vec![Value::Integer(1)])]),
            table("b", vec![seq(vec![s("y")]), seq(vec![s("q")])]),
        ],
    );
    let plan = plan_run(&cfg).unwrap();
    let tables: Vec<&str> = plan.steps.iter().map(|st| st.table.as_str()).collect();
    assert_eq!(tables, vec!["a", "a", "a", "b", "b", "b"]);
    assert_eq!(plan.steps[5].statement, "INSERT INTO b VALUES ('q')");
    let f = plan.steps[4].failure();
    match f {
        FixtureError::TableSetupError { table, statement } => {
            assert_eq!(table, "b");
            assert_eq!(statement, "CREATE TABLE b (y text)");
        },
        _ => panic!("wrong error"),
    }
}

#[test]
fn a_bad_later_table_stops_the_whole_plan() {
    let cfg = config(
        "SELECT 1",
        vec![table("a", vec![seq(vec![s("x")]), seq(vec![Value::Integer(1)])]), table("b", vec![seq(vec![s("y")])])],
    );
    assert!(matches!(plan_run(&cfg), Err(FixtureError::InsufficientTableData { table }) if table == "b"));
}

#[test]
fn sample_shorter_than_headers_pairs_the_shorter() {
    let headers = vec!["a".to_string(), "b".to_string()];
    let cols = synthesize_schema(&"t".to_string(), &headers, &vec![Value::Bool(false)]).unwrap();
    assert_eq!(cols, vec![("a".to_string(), ColumnType::TinyInt1)]);
    assert_eq!(create_statement(&"t".to_string(), &cols), "CREATE TABLE t (a tinyint(1))");
}

#[test]
fn literals_render_exactly() {
    assert_eq!(render_literal(&Value::Null).unwrap(), "NULL");
    assert_eq!(render_literal(&Value::Bool(true)).unwrap(), "true");
    assert_eq!(render_literal(&Value::Bool(false)).unwrap(), "false");
    assert_eq!(render_literal(&Value::Integer(0)).unwrap(), "0");
    assert_eq!(render_literal(&Value::Integer(-42)).unwrap(), "-42");
    assert_eq!(render_literal(&Value::Integer(i64::MIN)).unwrap(), "-9223372036854775808");
    assert_eq!(render_literal(&Value::Integer(i64::MAX)).unwrap(), "9223372036854775807");
    assert_eq!(render_literal(&Value::Float("3.14".to_string())).unwrap(), "3.14");
    assert_eq!(render_literal(&s("it's")).unwrap(), "'it's'");
    assert_eq!(render_literal(&s("")).unwrap(), "''");
    assert!(render_literal(&seq(vec![])).is_none());
    assert!(render_literal(&map(vec![])).is_none());
}

#[test]
fn column_types_of_samples() {
    assert_eq!(column_type_of(&Value::Float("1.0".to_string())), Some(ColumnType::Double));
    assert_eq!(column_type_of(&Value::Integer(7)), Some(ColumnType::Int));
    assert_eq!(column_type_of(&s("x")), Some(ColumnType::Text));
    assert_eq!(column_type_of(&Value::Bool(true)), Some(ColumnType::TinyInt1));
    assert_eq!(column_type_of(&Value::Null), None);
    assert_eq!(column_type_of(&seq(vec![])), None);
    assert_eq!(column_type_of(&map(vec![])), None);
    assert_eq!(ColumnType::Double.sql_name(), "double");
    assert_eq!(ColumnType::TinyInt1.sql_name(), "tinyint(1)");
}

#[test]
fn statements_for_a_row() {
    let name = "t".to_string();
    assert_eq!(drop_statement(&name), "DROP TABLE IF EXISTS t");
    assert_eq!(insert_statement(&name, &vec![], 1).unwrap(), "INSERT INTO t VALUES ()");
    assert_eq!(
        insert_statement(&name, &vec![Value::Integer(1), s("a"), Value::Bool(true)], 1).unwrap(),
        "INSERT INTO t VALUES (1, 'a', true)"
    );
    assert_eq!(create_statement(&name, &vec![]), "CREATE TABLE t ()");
}

#[test]
fn join_separates_with_comma() {
    assert_eq!(join_parts(&vec![]), "");
    assert_eq!(join_parts(&vec!["a".to_string()]), "a");
    assert_eq!(join_parts(&vec!["a".to_string(), "".to_string(), "c".to_string()]), "a, , c");
}

#[test]
fn first_entry_wins_in_lookup() {
    let entries = vec![("k".to_string(), Value::Integer(1)), ("k".to_string(), Value::Integer(2))];
    assert!(matches!(find_entry(&entries, "k"), Some(Value::Integer(1))));
    assert!(find_entry(&entries, "x").is_none());
}

#[test]
fn native_types_map_to_tags() {
    for t in [NativeType::Tiny, NativeType::Short, NativeType::Long, NativeType::LongLong, NativeType::Int24, NativeType::Bit] {
        assert_eq!(fixture_type(t), FixtureType::Int);
    }
    for t in [NativeType::Decimal, NativeType::Float, NativeType::Double, NativeType::NewDecimal] {
        assert_eq!(fixture_type(t), FixtureType::Float64);
    }
    for t in [NativeType::VarChar, NativeType::Date, NativeType::Json, NativeType::Blob, NativeType::Null, NativeType::Char] {
        assert_eq!(fixture_type(t), FixtureType::Str);
    }
    assert_eq!(FixtureType::Int.tag(), "int");
    assert_eq!(FixtureType::Float64.tag(), "float64");
    assert_eq!(FixtureType::Str.tag(), "string");
}

#[test]
fn result_cells_convert() {
    assert!(matches!(materialize_value(&NativeValue::Null, 0, 0), Ok(Value::Null)));
    assert!(matches!(materialize_value(&NativeValue::SignedInt(-5), 0, 0), Ok(Value::Integer(-5))));
    assert!(matches!(materialize_value(&NativeValue::UnsignedInt(7), 0, 0), Ok(Value::Integer(7))));
    match materialize_value(&NativeValue::Float("2.5".to_string()), 0, 0) {
        Ok(Value::Float(t)) => assert_eq!(t, "2.5"),
        _ => panic!("float"),
    }
    match materialize_value(&NativeValue::Bytes(b"hello".to_vec()), 0, 0) {
        Ok(Value::Str(t)) => assert_eq!(t, "hello"),
        _ => panic!("bytes"),
    }
    match materialize_value(&NativeValue::Bytes(vec![0x61, 0xff, 0x62]), 0, 0) {
        Ok(Value::Str(t)) => assert_eq!(t, "a\u{FFFD}b"),
        _ => panic!("lossy"),
    }
    match materialize_value(&NativeValue::Bytes("héllo".as_bytes().to_vec()), 0, 0) {
        Ok(Value::Str(t)) => assert_eq!(t, "héllo"),
        _ => panic!("utf8"),
    }
}

#[test]
fn unconvertible_cells_fail() {
    assert!(matches!(
        materialize_value(&NativeValue::Other, 3, 2),
        Err(FixtureError::UnsupportedResultValue { row: 3, column: 2 })
    ));
    assert!(matches!(
        materialize_value(&NativeValue::UnsignedInt(u64::MAX), 1, 0),
        Err(FixtureError::UnsupportedResultValue { row: 1, column: 0 })
    ));
    assert!(matches!(
        materialize_value(&NativeValue::UnsignedInt(i64::MAX as u64), 1, 0),
        Ok(Value::Integer(i64::MAX))
    ));
}

#[test]
fn fixture_errors_locate_the_row() {
    let cols = vec![col("a", NativeType::Long), col("b", NativeType::VarChar)];
    let rows = vec![
        vec![NativeValue::SignedInt(1), NativeValue::Null],
        vec![NativeValue::SignedInt(2), NativeValue::Other],
    ];
    assert!(matches!(
        build_fixture(&"q".to_string(), &cols, &rows),
        Err(FixtureError::UnsupportedResultValue { row: 1, column: 1 })
    ));
    let rows = vec![vec![NativeValue::SignedInt(1)]];
    assert!(matches!(
        build_fixture(&"q".to_string(), &cols, &rows),
        Err(FixtureError::MalformedResultRow { row: 0, values: 1, columns: 2 })
    ));
}

#[test]
fn fixture_shape_follows_columns() {
    let cols = vec![col("id", NativeType::LongLong), col("price", NativeType::NewDecimal), col("label", NativeType::VarString)];
    let rows = vec![
        vec![NativeValue::SignedInt(1), NativeValue::Float("9.5".to_string()), NativeValue::Bytes(b"x".to_vec())],
        vec![NativeValue::UnsignedInt(2), NativeValue::Null, NativeValue::Null],
    ];
    let doc = build_fixture(&"SELECT *".to_string(), &cols, &rows).unwrap();
    assert_eq!(doc.expected_names, vec!["id", "price", "label"]);
    assert_eq!(doc.expected_types, vec![FixtureType::Int, FixtureType::Float64, FixtureType::Str]);
    assert_eq!(doc.expected_types.len(), doc.expected_names.len());
    assert!(doc.expected.iter().all(|r| r.len() == doc.expected_names.len()));

    let empty = build_fixture(&"SELECT *".to_string(), &cols, &vec![]).unwrap();
    assert!(empty.expected.is_empty());
    assert_eq!(empty.expected_names.len(), 3);
}

#[test]
fn fixture_document_as_value() {
    let cols = vec![col("v", NativeType::Long)];
    let rows = vec![vec![NativeValue::SignedInt(4)]];
    let doc = build_fixture(&"SELECT v".to_string(), &cols, &rows).unwrap();
    let v = doc.into_value();
    let entries = match v {
        Value::Mapping(e) => e,
        _ => panic!("mapping"),
    };
    let keys: Vec<&str> = entries.iter().map(|(k, _)| k.as_str()).collect();
    assert_eq!(keys, vec!["sql", "expected_names", "expected_types", "expected"]);
    assert!(matches!(&entries[0].1, Value::Str(q) if q == "SELECT v"));
    assert!(matches!(&entries[1].1, Value::Sequence(n) if n.len() == 1 && matches!(&n[0], Value::Str(x) if x == "v")));
    assert!(matches!(&entries[2].1, Value::Sequence(n) if n.len() == 1 && matches!(&n[0], Value::Str(x) if x == "int")));
    match &entries[3].1 {
        Value::Sequence(rs) => {
            assert_eq!(rs.len(), 1);
            assert!(matches!(&rs[0], Value::Sequence(r) if matches!(r[..], [Value::Integer(4)])));
        },
        _ => panic!("expected"),
    }
}

#[test]
fn scalar_kinds_read_back() {
    // What the database returns for each supported scalar kind converts back
    // to the same content.
    assert!(matches!(materialize_value(&NativeValue::SignedInt(12), 0, 0), Ok(Value::Integer(12))));
    assert!(matches!(materialize_value(&NativeValue::Null, 0, 0), Ok(Value::Null)));
    match materialize_value(&NativeValue::Bytes(b"it works".to_vec()), 0, 0) {
        Ok(Value::Str(t)) => assert_eq!(render_literal(&Value::Str(t)).unwrap(), "'it works'"),
        _ => panic!("string"),
    }
    match materialize_value(&NativeValue::Float("0.125".to_string()), 0, 0) {
        Ok(v) => assert_eq!(render_literal(&v).unwrap(), "0.125"),
        _ => panic!("float"),
    }
}
