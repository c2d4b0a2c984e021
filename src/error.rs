use vstd::prelude::*;

verus! {

/// What is wrong with the shape of a configuration document.
#[derive(Debug)]
pub enum ShapeFault {
    TopLevelNotMapping,
    QueryNotString,
    TablesNotSequence,
    /// The table at this position in `tables` is not a mapping.
    TableNotMapping { position: usize },
    /// The table at this position has no `name`, or one that is not a string.
    NameNotString { position: usize },
    DataNotSequence { table: String },
    HeadersNotSequence { table: String },
    HeaderNotString { table: String, column: usize },
    RowNotSequence { table: String, row: usize },
}

/// Every way a fixture run can fail; each one ends the run.
#[derive(Debug)]
pub enum FixtureError {
    ConfigShapeError(ShapeFault),
    /// The table's `data` lacks a header row or a type-sample row.
    InsufficientTableData { table: String },
    /// The type-sample row holds a null or a container in this column.
    UnsupportedSampleValue { table: String, column: usize },
    /// A data row (indexed as in `data`) holds a container in this column.
    UnsupportedRowValue { table: String, row: usize, column: usize },
    /// The database refused a statement that sets up a table.
    TableSetupError { table: String, statement: String },
    /// The database refused the configured query.
    QueryExecutionError { message: String },
    /// A result cell whose native kind has no conversion.
    UnsupportedResultValue { row: usize, column: usize },
    /// A result row whose number of values differs from the number of columns.
    MalformedResultRow { row: usize, values: usize, columns: usize },
}

} // verus!
