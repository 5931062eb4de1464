//! What can go wrong, and the words for it.

use vstd::prelude::*;
use vstd::string::*;

verus! {

/// The ways in which an insert can miss the shape of its table.
#[derive(Clone, Copy, Debug, PartialEq, Eq)]
pub enum SchemaFault {
    /// The column list is empty, or longer than the table has columns.
    ColumnCount,
    /// The column list names a column that the table does not have.
    UnknownColumn,
    /// The column list does not name every column of the table once.
    ColumnSet,
    /// A row has more or fewer values than the column list has names.
    RowArity,
}

/// What a statement can ask for that the store does not do.
#[derive(Clone, Copy, Debug, PartialEq, Eq)]
pub enum Feature {
    /// A statement that neither creates a table, nor inserts, nor selects.
    StatementKind,
    /// A query whose body is no plain `SELECT`.
    QueryBody,
    /// A `FROM` clause with no table or with more than one.
    TableList,
    /// A joined table.
    Join,
    /// A source in `FROM` that is no table.
    TableSource,
    /// `WHERE`
    Filter,
    /// `ORDER BY`
    OrderBy,
    /// `LIMIT`
    Limit,
    /// Another clause of a query, such as `GROUP BY` or `OFFSET`.
    Clause,
    /// An item of a projection other than `*`.
    Projection,
    /// An insert whose rows do not come from `VALUES`.
    InsertSource,
    /// A value of an insert that is no literal.
    InsertExpression,
}

/// An error of the store.
#[derive(Debug, PartialEq, Eq)]
pub enum DbError {
    /// An insert does not have the shape of its table.
    SchemaError(SchemaFault),
    /// A literal is no value of the type that its column declares.
    ValueError,
    /// The statement asks for what the store does not do.
    UnsupportedStatement(Feature),
    /// No table has this name.
    NotFound(String),
    /// A lock that guards a table was found poisoned. The store itself holds
    /// no lock; this is for callers that share a table between threads.
    LockError,
}

/// An error as contracts see it.
pub enum DbErrorView {
    SchemaError(SchemaFault),
    ValueError,
    UnsupportedStatement(Feature),
    NotFound(Seq<char>),
    LockError,
}

impl View for DbError {
    type V = DbErrorView;

    open spec fn view(&self) -> DbErrorView {
        match *self {
            DbError::SchemaError(fault) => DbErrorView::SchemaError(fault),
            DbError::ValueError => DbErrorView::ValueError,
            DbError::UnsupportedStatement(feature) => DbErrorView::UnsupportedStatement(feature),
            DbError::NotFound(name) => DbErrorView::NotFound(name@),
            DbError::LockError => DbErrorView::LockError,
        }
    }
}

pub open spec fn schema_fault_text(fault: SchemaFault) -> Seq<char> {
    match fault {
        SchemaFault::ColumnCount => "wrong number of columns"@,
        SchemaFault::UnknownColumn => "the column list does not exist for table"@,
        SchemaFault::ColumnSet => "the column list does not name every column of the table once"@,
        SchemaFault::RowArity => "wrong number of values in a row"@,
    }
}

pub open spec fn feature_text(feature: Feature) -> Seq<char> {
    match feature {
        Feature::StatementKind => "not yet implemented: this kind of statement"@,
        Feature::QueryBody => "not yet implemented: a query that is no plain SELECT"@,
        Feature::TableList => "not yet implemented: a SELECT from no table or from several"@,
        Feature::Join => "not yet implemented: JOIN"@,
        Feature::TableSource => "not yet implemented: a source that is no table"@,
        Feature::Filter => "not yet implemented: WHERE"@,
        Feature::OrderBy => "not yet implemented: ORDER BY"@,
        Feature::Limit => "not yet implemented: LIMIT"@,
        Feature::Clause => "not yet implemented: a clause of the query"@,
        Feature::Projection => "not yet implemented: a projection other than *"@,
        Feature::InsertSource => "not yet implemented: an insert without VALUES"@,
        Feature::InsertExpression => "only raw values are supported for insert"@,
    }
}

/// The message of an error.
pub open spec fn error_text(e: DbErrorView) -> Seq<char> {
    match e {
        DbErrorView::SchemaError(fault) => schema_fault_text(fault),
        DbErrorView::ValueError => "a value does not fit the type of its column"@,
        DbErrorView::UnsupportedStatement(feature) => feature_text(feature),
        DbErrorView::NotFound(name) => "No table named "@ + name + " exists"@,
        DbErrorView::LockError => "the lock of the table is poisoned"@,
    }
}

fn schema_fault_message(fault: SchemaFault) -> (r: &'static str)
    ensures
        r@ == schema_fault_text(fault),
{
    match fault {
        SchemaFault::ColumnCount => "wrong number of columns",
        SchemaFault::UnknownColumn => "the column list does not exist for table",
        SchemaFault::ColumnSet => "the column list does not name every column of the table once",
        SchemaFault::RowArity => "wrong number of values in a row",
    }
}

fn feature_message(feature: Feature) -> (r: &'static str)
    ensures
        r@ == feature_text(feature),
{
    match feature {
        Feature::StatementKind => "not yet implemented: this kind of statement",
        Feature::QueryBody => "not yet implemented: a query that is no plain SELECT",
        Feature::TableList => "not yet implemented: a SELECT from no table or from several",
        Feature::Join => "not yet implemented: JOIN",
        Feature::TableSource => "not yet implemented: a source that is no table",
        Feature::Filter => "not yet implemented: WHERE",
        Feature::OrderBy => "not yet implemented: ORDER BY",
        Feature::Limit => "not yet implemented: LIMIT",
        Feature::Clause => "not yet implemented: a clause of the query",
        Feature::Projection => "not yet implemented: a projection other than *",
        Feature::InsertSource => "not yet implemented: an insert without VALUES",
        Feature::InsertExpression => "only raw values are supported for insert",
    }
}

impl DbError {
    /// The message of this error, for a reader.
    pub fn message(&self) -> (r: String)
        ensures
            r@ == error_text(self@),
    {
        match self {
            DbError::SchemaError(fault) => schema_fault_message(*fault).to_owned(),
            DbError::ValueError => "a value does not fit the type of its column".to_owned(),
            DbError::UnsupportedStatement(feature) => feature_message(*feature).to_owned(),
            DbError::NotFound(name) => {
                let mut text = "No table named ".to_owned();
                text.append(name.as_str());
                text.append(" exists");
                text
            },
            DbError::LockError => "the lock of the table is poisoned".to_owned(),
        }
    }
}

} // verus!
