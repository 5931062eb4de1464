//! What a statement does to a database.
//!
//! `executed` says it in full: the result, and the database afterwards. A
//! statement that fails leaves the database as it was.

use vstd::prelude::*;
use crate::ast::{
    copy_texts,
    views,
    ColumnDef,
    ColumnOption,
    Expr,
    ExprView,
    Query,
    SelectItem,
    SetExpr,
    Statement,
    TableFactor,
    Token,
};
use crate::data_descriptor::{
    empty_table,
    expr_rows,
    insert_fault,
    inserted,
    schema_of,
    select_rows,
    upsert_keeps_valid,
    ColumnInfo,
    ColumnInfoView,
    ColumnProperties,
    ColumnPropertiesView,
    DataBase,
    DataBaseView,
    SchemaView,
    SelectFields,
    TableInfo,
    TableInfoView,
};
use crate::error::{error_text, DbError, DbErrorView, Feature};
use crate::outside::{encode_rows, encoded_rows};
use crate::text_map::{has_key, keys, map_values_upsert, upsert, value_of, TextMap};

verus! {

/// What a statement that went well reports.
#[derive(Debug, PartialEq, Eq)]
pub enum SuccessStatus {
    /// A table of this name was made.
    TableCreated(String),
    DataInserted,
    /// The rows that were read, in bytes.
    DataFetched(Vec<u8>),
}

pub enum SuccessView {
    TableCreated(Seq<char>),
    DataInserted,
    DataFetched(Seq<u8>),
}

impl View for SuccessStatus {
    type V = SuccessView;

    open spec fn view(&self) -> SuccessView {
        match *self {
            SuccessStatus::TableCreated(name) => SuccessView::TableCreated(name@),
            SuccessStatus::DataInserted => SuccessView::DataInserted,
            SuccessStatus::DataFetched(bytes) => SuccessView::DataFetched(bytes@),
        }
    }
}

/// `n` times `x`.
pub open spec fn copies<T>(x: T, n: nat) -> Seq<T> {
    Seq::new(n, |i: int| x)
}

/// A clause of one dialect marks an automatic increment where it starts
/// with a word.
pub open spec fn marks_increment(tokens: Seq<Token>) -> bool {
    tokens.len() > 0 && tokens[0] is Word
}

pub open spec fn marks_primary(o: ColumnOption) -> bool {
    o matches ColumnOption::Unique { is_primary } && is_primary
}

/// The properties that one option of a column definition gives to its
/// column.
pub open spec fn option_properties(o: ColumnOption) -> Seq<ColumnPropertiesView> {
    match o {
        ColumnOption::Null => seq![ColumnPropertiesView::Null],
        ColumnOption::NotNull => seq![ColumnPropertiesView::NotNull],
        ColumnOption::Default(e) => seq![ColumnPropertiesView::Default(e@)],
        ColumnOption::Unique { is_primary } => if is_primary {
            seq![ColumnPropertiesView::PrimaryKey, ColumnPropertiesView::Unique]
        } else {
            seq![ColumnPropertiesView::Unique]
        },
        ColumnOption::ForeignKey { foreign_table, referred_columns, on_delete, on_update } => seq![
            ColumnPropertiesView::ForeignKey {
                foreign_table: foreign_table@,
                referred_columns: views(referred_columns@),
                on_delete,
                on_update,
            },
        ],
        ColumnOption::OnUpdate(e) => seq![ColumnPropertiesView::OnUpdate(e@)],
        ColumnOption::DialectSpecific(tokens) => if marks_increment(tokens@) {
            seq![ColumnPropertiesView::AutoIncrement]
        } else {
            Seq::empty()
        },
        ColumnOption::Other => Seq::empty(),
    }
}

/// The properties that the first `n` options give, in their order.
pub open spec fn properties_of(options: Seq<ColumnOption>, n: int) -> Seq<ColumnPropertiesView>
    decreases n,
{
    if n <= 0 {
        Seq::empty()
    } else {
        properties_of(options, n - 1) + option_properties(options[n - 1])
    }
}

/// How many of the first `n` options say `PRIMARY KEY`.
pub open spec fn primary_marks(options: Seq<ColumnOption>, n: int) -> nat
    decreases n,
{
    if n <= 0 {
        0
    } else if marks_primary(options[n - 1]) {
        primary_marks(options, n - 1) + 1
    } else {
        primary_marks(options, n - 1)
    }
}

/// How many of the first `n` options say `UNIQUE` or `PRIMARY KEY`.
pub open spec fn unique_marks(options: Seq<ColumnOption>, n: int) -> nat
    decreases n,
{
    if n <= 0 {
        0
    } else if options[n - 1] is Unique {
        unique_marks(options, n - 1) + 1
    } else {
        unique_marks(options, n - 1)
    }
}

/// The primary-key list that the first `n` column definitions give: the
/// name of a column once for each time it is said to be a primary key.
pub open spec fn primary_keys_of(columns: Seq<ColumnDef>, n: int) -> Seq<Seq<char>>
    decreases n,
{
    if n <= 0 {
        Seq::empty()
    } else {
        primary_keys_of(columns, n - 1) + copies(
            columns[n - 1].name@,
            primary_marks(columns[n - 1].options@, columns[n - 1].options@.len() as int),
        )
    }
}

/// The list of indexed columns that the first `n` column definitions give.
pub open spec fn indexes_of(columns: Seq<ColumnDef>, n: int) -> Seq<Seq<char>>
    decreases n,
{
    if n <= 0 {
        Seq::empty()
    } else {
        indexes_of(columns, n - 1) + copies(
            columns[n - 1].name@,
            unique_marks(columns[n - 1].options@, columns[n - 1].options@.len() as int),
        )
    }
}

/// The column that a column definition describes.
pub open spec fn column_of(c: ColumnDef) -> ColumnInfoView {
    ColumnInfoView {
        declared_type: c.data_type@,
        properties: properties_of(c.options@, c.options@.len() as int),
    }
}

/// The schema that the first `n` column definitions give. Where a name
/// comes again, the later definition takes the place of the earlier.
pub open spec fn columns_of(columns: Seq<ColumnDef>, n: int) -> SchemaView
    decreases n,
{
    if n <= 0 {
        Seq::empty()
    } else {
        upsert(columns_of(columns, n - 1), columns[n - 1].name@, column_of(columns[n - 1]))
    }
}

/// The table that a `CREATE TABLE` makes: its schema, and no rows.
pub open spec fn created_table(name: Seq<char>, columns: Seq<ColumnDef>) -> TableInfoView {
    empty_table(
        name,
        primary_keys_of(columns, columns.len() as int),
        indexes_of(columns, columns.len() as int),
        columns_of(columns, columns.len() as int),
    )
}

/// The table that a query reads, or what the query asks for that the store
/// does not do: a body that is no plain `SELECT`, an `ORDER BY`, a `LIMIT`,
/// a `WHERE`, another clause, no table or several, a join, a source that is
/// no table.
pub open spec fn query_target(q: Query) -> Result<Seq<char>, Feature> {
    match q.body {
        SetExpr::Select(s) => if q.order_by@.len() > 0 {
            Err(Feature::OrderBy)
        } else if q.limit is Some {
            Err(Feature::Limit)
        } else if s.selection is Some {
            Err(Feature::Filter)
        } else if q.clauses@.len() > 0 || s.clauses@.len() > 0 {
            Err(Feature::Clause)
        } else if s.from@.len() != 1 {
            Err(Feature::TableList)
        } else if s.from@[0].joins > 0 {
            Err(Feature::Join)
        } else {
            match s.from@[0].relation {
                TableFactor::Table { name } => Ok(name@),
                TableFactor::Other(_) => Err(Feature::TableSource),
            }
        },
        _ => Err(Feature::QueryBody),
    }
}

/// The items that a query asks for of each row.
pub open spec fn query_items(q: Query) -> Seq<SelectItem> {
    match q.body {
        SetExpr::Select(s) => s.projection@,
        _ => Seq::empty(),
    }
}

pub open spec fn all_wildcards(items: Seq<SelectItem>) -> bool {
    forall|i: int| 0 <= i < items.len() ==> (#[trigger] items[i]) is Wildcard
}

/// `bytes`, `n` times in a row.
pub open spec fn repeated(bytes: Seq<u8>, n: int) -> Seq<u8>
    decreases n,
{
    if n <= 0 {
        Seq::empty()
    } else {
        repeated(bytes, n - 1) + bytes
    }
}

/// The rows of a table as a read of all columns gives them: each row's
/// values in the order of the schema, the rows in the order of the table.
pub open spec fn all_rows(t: TableInfoView) -> Seq<Seq<Option<Seq<char>>>> {
    select_rows(t.rows, Some(keys(t.columns)))
}

/// What a read of a table returns for the items of a query: for each item,
/// which must be `*`, the bytes of all rows of the table.
pub open spec fn fetched_from(t: TableInfoView, items: Seq<SelectItem>) -> Result<
    SuccessView,
    DbErrorView,
> {
    if !all_wildcards(items) {
        Err(DbErrorView::UnsupportedStatement(Feature::Projection))
    } else {
        Ok(SuccessView::DataFetched(repeated(encoded_rows(all_rows(t)), items.len() as int)))
    }
}

/// What a query returns.
pub open spec fn selected(q: Query, db: DataBaseView) -> Result<SuccessView, DbErrorView> {
    match query_target(q) {
        Err(feature) => Err(DbErrorView::UnsupportedStatement(feature)),
        Ok(name) => if !has_key(db, name) {
            Err(DbErrorView::NotFound(name))
        } else {
            fetched_from(value_of(db, name), query_items(q))
        },
    }
}

/// The rows that the source of an insert holds, where it is a `VALUES`.
pub open spec fn source_rows(source: Option<Query>) -> Option<Seq<Seq<ExprView>>> {
    match source {
        Some(q) => match q.body {
            SetExpr::Values(rows) => Some(expr_rows(rows@)),
            _ => None,
        },
        None => None,
    }
}

/// What an insert into a table returns, and the table after it. The rows
/// must come from a `VALUES` and the insert must be without fault; where it
/// is not, the table stays as it was.
pub open spec fn written_to(
    t: TableInfoView,
    names: Seq<Seq<char>>,
    source: Option<Query>,
) -> (Result<SuccessView, DbErrorView>, TableInfoView) {
    match source_rows(source) {
        None => (Err(DbErrorView::UnsupportedStatement(Feature::InsertSource)), t),
        Some(rows) => match insert_fault(t, names, rows) {
            Some(e) => (Err(e), t),
            None => (Ok(SuccessView::DataInserted), inserted(t, names, rows)),
        },
    }
}

/// What an insert returns, and the database after it. The table must be
/// there; the rest is between the insert and the table.
pub open spec fn inserted_into(
    db: DataBaseView,
    table_name: Seq<char>,
    names: Seq<Seq<char>>,
    source: Option<Query>,
) -> (Result<SuccessView, DbErrorView>, DataBaseView) {
    if !has_key(db, table_name) {
        (Err(DbErrorView::NotFound(table_name)), db)
    } else {
        (
            written_to(value_of(db, table_name), names, source).0,
            upsert(db, table_name, written_to(value_of(db, table_name), names, source).1),
        )
    }
}

/// What a statement returns, and the database after it.
pub open spec fn executed(stmt: Statement, db: DataBaseView) -> (
    Result<SuccessView, DbErrorView>,
    DataBaseView,
) {
    match stmt {
        Statement::CreateTable { name, columns } => (
            Ok(SuccessView::TableCreated(name@)),
            upsert(db, name@, created_table(name@, columns@)),
        ),
        Statement::Insert { table_name, columns, source } => inserted_into(
            db,
            table_name@,
            views(columns@),
            source,
        ),
        Statement::Query(q) => (selected(q, db), db),
        Statement::Other(_) => (Err(DbErrorView::UnsupportedStatement(Feature::StatementKind)), db),
    }
}

/// A statement that can be run on a database.
pub trait Execute {
    /// What the statement returns on `db`, and the database after it.
    spec fn effect(&self, db: DataBaseView) -> (
        Result<SuccessView, DbErrorView>,
        DataBaseView,
    );

    /// Runs the statement. An error comes back as its message.
    fn execute(&self, db: &mut DataBase) -> (r: Result<SuccessStatus, String>)
        requires
            old(db).wf(),
        ensures
            final(db).wf(),
            final(db)@ == self.effect(old(db)@).1,
            match r {
                Ok(status) => self.effect(old(db)@).0 == Ok::<SuccessView, DbErrorView>(status@),
                Err(message) => self.effect(old(db)@).0 matches Err(e) && message@ == error_text(e),
            },
    ;
}

/// A copy of the rows of a `VALUES`.
pub fn copy_rows(rows: &Vec<Vec<Expr>>) -> (r: Vec<Vec<Expr>>)
    ensures
        expr_rows(r@) == expr_rows(rows@),
{
    let mut out: Vec<Vec<Expr>> = Vec::new();
    let mut i: usize = 0;
    while i < rows.len()
        invariant
            i <= rows.len(),
            out.len() == i,
            forall|k: int| 0 <= k < i ==> views(out@[k]@) == views(rows@[k]@),
        decreases rows.len() - i,
    {
        let row = &rows[i];
        let mut copy: Vec<Expr> = Vec::new();
        let mut j: usize = 0;
        while j < row.len()
            invariant
                j <= row.len(),
                copy.len() == j,
                forall|k: int| 0 <= k < j ==> copy@[k]@ == row@[k]@,
            decreases row.len() - j,
        {
            copy.push(row[j].clone());
            j += 1;
        }
        assert(views(copy@) =~= views(row@));
        out.push(copy);
        i += 1;
    }
    assert(expr_rows(out@) =~= expr_rows(rows@));
    out
}

/// The properties of a column, by its definition. The name of the column
/// goes behind `primary_keys` once for each `PRIMARY KEY` among its options,
/// and behind `indexes` once for each `UNIQUE` or `PRIMARY KEY`.
pub fn column_properties(
    column: &ColumnDef,
    primary_keys: &mut Vec<String>,
    indexes: &mut Vec<String>,
) -> (r: Vec<ColumnProperties>)
    ensures
        views(r@) == column_of(*column).properties,
        views(final(primary_keys)@) == views(old(primary_keys)@) + copies(
            column.name@,
            primary_marks(column.options@, column.options@.len() as int),
        ),
        views(final(indexes)@) == views(old(indexes)@) + copies(
            column.name@,
            unique_marks(column.options@, column.options@.len() as int),
        ),
{
    let ghost options = column.options@;
    let ghost keys_before = views(primary_keys@);
    let ghost indexes_before = views(indexes@);
    let mut column_property_list: Vec<ColumnProperties> = Vec::new();
    let mut i: usize = 0;
    assert(views(primary_keys@) =~= keys_before + copies(column.name@, 0));
    assert(views(indexes@) =~= indexes_before + copies(column.name@, 0));
    assert(views(column_property_list@) =~= properties_of(options, 0));
    while i < column.options.len()
        invariant
            i <= column.options.len(),
            options == column.options@,
            views(column_property_list@) == properties_of(options, i as int),
            views(primary_keys@) == keys_before + copies(
                column.name@,
                primary_marks(options, i as int),
            ),
            views(indexes@) == indexes_before + copies(column.name@, unique_marks(options, i as int)),
        decreases column.options.len() - i,
    {
        let ghost props = views(column_property_list@);
        let ghost ks = views(primary_keys@);
        let ghost xs = views(indexes@);
        let ghost given = option_properties(options[i as int]);
        match &column.options[i] {
            ColumnOption::Null => {
                column_property_list.push(ColumnProperties::Null);
                assert(views(column_property_list@) =~= props + given);
            },
            ColumnOption::NotNull => {
                column_property_list.push(ColumnProperties::NotNull);
                assert(views(column_property_list@) =~= props + given);
            },
            ColumnOption::Default(expr) => {
                column_property_list.push(ColumnProperties::Default(expr.clone()));
                assert(views(column_property_list@) =~= props + given);
            },
            ColumnOption::Unique { is_primary } => {
                if *is_primary {
                    column_property_list.push(ColumnProperties::PrimaryKey);
                    primary_keys.push(column.name.clone());
                    assert(views(primary_keys@) =~= ks.push(column.name@));
                    assert(copies(column.name@, primary_marks(options, i + 1)) =~= copies(
                        column.name@,
                        primary_marks(options, i as int),
                    ).push(column.name@));
                    assert(views(primary_keys@) =~= keys_before + copies(
                        column.name@,
                        primary_marks(options, i + 1),
                    ));
                }
                column_property_list.push(ColumnProperties::Unique);
                indexes.push(column.name.clone());
                assert(views(column_property_list@) =~= props + given);
                assert(views(indexes@) =~= xs.push(column.name@));
                assert(copies(column.name@, unique_marks(options, i + 1)) =~= copies(
                    column.name@,
                    unique_marks(options, i as int),
                ).push(column.name@));
                assert(views(indexes@) =~= indexes_before + copies(
                    column.name@,
                    unique_marks(options, i + 1),
                ));
            },
            ColumnOption::ForeignKey { foreign_table, referred_columns, on_delete, on_update } => {
                column_property_list.push(
                    ColumnProperties::ForeignKey {
                        foreign_table: foreign_table.clone(),
                        referred_columns: copy_texts(referred_columns),
                        on_delete: *on_delete,
                        on_update: *on_update,
                    },
                );
                assert(views(column_property_list@) =~= props + given);
            },
            ColumnOption::OnUpdate(expr) => {
                column_property_list.push(ColumnProperties::OnUpdate(expr.clone()));
                assert(views(column_property_list@) =~= props + given);
            },
            ColumnOption::DialectSpecific(tokens) => {
                if tokens.len() > 0 {
                    if let Token::Word(_key_word) = &tokens[0] {
                        column_property_list.push(ColumnProperties::AutoIncrement);
                    }
                }
                assert(views(column_property_list@) =~= props + given);
            },
            ColumnOption::Other => {
                assert(views(column_property_list@) =~= props + given);
            },
        }
        i += 1;
    }
    column_property_list
}

/// Whether each item is `*`.
pub fn only_wildcards(items: &Vec<SelectItem>) -> (r: bool)
    ensures
        r == all_wildcards(items@),
{
    let mut i: usize = 0;
    while i < items.len()
        invariant
            i <= items.len(),
            forall|k: int| 0 <= k < i ==> (#[trigger] items@[k]) is Wildcard,
        decreases items.len() - i,
    {
        match &items[i] {
            SelectItem::Wildcard => {},
            _ => {
                return false;
            },
        }
        i += 1;
    }
    true
}

/// The name of the table that a query reads and the items it asks for of
/// each row, or what it asks for that the store does not do.
pub fn target_of(q: &Query) -> (r: Result<(&String, &Vec<SelectItem>), Feature>)
    ensures
        match r {
            Ok(target) => query_target(*q) == Ok::<Seq<char>, Feature>(target.0@) && target.1@
                == query_items(*q),
            Err(feature) => query_target(*q) == Err::<Seq<char>, Feature>(feature),
        },
{
    match &q.body {
        SetExpr::Select(select_q) => {
            if q.order_by.len() > 0 {
                Err(Feature::OrderBy)
            } else if q.limit.is_some() {
                Err(Feature::Limit)
            } else if select_q.selection.is_some() {
                Err(Feature::Filter)
            } else if q.clauses.len() > 0 || select_q.clauses.len() > 0 {
                Err(Feature::Clause)
            } else if select_q.from.len() != 1 {
                Err(Feature::TableList)
            } else if select_q.from[0].joins > 0 {
                Err(Feature::Join)
            } else {
                match &select_q.from[0].relation {
                    TableFactor::Table { name } => Ok((name, &select_q.projection)),
                    TableFactor::Other(_) => Err(Feature::TableSource),
                }
            }
        },
        _ => Err(Feature::QueryBody),
    }
}

/// The schema that the column definitions of a `CREATE TABLE` describe: the
/// primary keys, the indexed columns and the columns.
pub fn schema_parts(columns: &Vec<ColumnDef>) -> (r: (Vec<String>, Vec<String>, TextMap<ColumnInfo>))
    ensures
        views(r.0@) == primary_keys_of(columns@, columns.len() as int),
        views(r.1@) == indexes_of(columns@, columns.len() as int),
        schema_of(r.2) == columns_of(columns@, columns.len() as int),
        r.2.wf(),
{
    let mut primary_keys: Vec<String> = Vec::new();
    let mut indexes: Vec<String> = Vec::new();
    let mut schema: TextMap<ColumnInfo> = TextMap::new();
    let mut i: usize = 0;
    assert(views(primary_keys@) =~= primary_keys_of(columns@, 0));
    assert(views(indexes@) =~= indexes_of(columns@, 0));
    assert(schema_of(schema) =~= columns_of(columns@, 0));
    while i < columns.len()
        invariant
            i <= columns.len(),
            schema.wf(),
            views(primary_keys@) == primary_keys_of(columns@, i as int),
            views(indexes@) == indexes_of(columns@, i as int),
            schema_of(schema) == columns_of(columns@, i as int),
        decreases columns.len() - i,
    {
        let column = &columns[i];
        let col_name_str = column.name.clone();
        let data_type = column.data_type.clone();
        let column_property_list = column_properties(column, &mut primary_keys, &mut indexes);
        let col_info = ColumnInfo { declared_type: data_type, properties: column_property_list };
        assert(col_info@ == column_of(*column));
        proof {
            map_values_upsert(
                schema.model(),
                |c: ColumnInfo| c@,
                col_name_str@,
                col_info,
            );
        }
        schema.insert(col_name_str, col_info);
        i += 1;
    }
    (primary_keys, indexes, schema)
}

/// The rows that the source of an insert holds. Only a `VALUES` has rows
/// for the store.
pub fn rows_of(source: &Option<Query>) -> (r: Result<Vec<Vec<Expr>>, DbError>)
    ensures
        match r {
            Ok(rows) => source_rows(*source) == Some(expr_rows(rows@)),
            Err(e) => source_rows(*source) is None && e@ == DbErrorView::UnsupportedStatement(
                Feature::InsertSource,
            ),
        },
{
    match source {
        Some(query) => match &query.body {
            SetExpr::Values(value_list) => Ok(copy_rows(value_list)),
            _ => Err(DbError::UnsupportedStatement(Feature::InsertSource)),
        },
        None => Err(DbError::UnsupportedStatement(Feature::InsertSource)),
    }
}

/// What a read of `table` returns for `items`: for each item, which must be
/// `*`, the bytes of all rows of the table.
pub fn fetch(table: &TableInfo, items: &Vec<SelectItem>) -> (r: Result<Vec<u8>, DbError>)
    requires
        table.wf(),
    ensures
        match r {
            Ok(bytes) => all_wildcards(items@) && bytes@ == repeated(
                encoded_rows(all_rows(table@)),
                items.len() as int,
            ),
            Err(e) => !all_wildcards(items@) && e@ == DbErrorView::UnsupportedStatement(
                Feature::Projection,
            ),
        },
{
    if !only_wildcards(items) {
        return Err(DbError::UnsupportedStatement(Feature::Projection));
    }
    let ghost encoded = encoded_rows(all_rows(table@));
    let mut ret_value: Vec<u8> = Vec::new();
    let mut i: usize = 0;
    assert(ret_value@ =~= repeated(encoded, 0));
    while i < items.len()
        invariant
            i <= items.len(),
            table.wf(),
            encoded == encoded_rows(all_rows(table@)),
            ret_value@ == repeated(encoded, i as int),
        decreases items.len() - i,
    {
        proof {
            let schema = table@.columns;
            assert forall|j: int| 0 <= j < keys(schema).len() implies has_key(
                schema,
                #[trigger] keys(schema)[j],
            ) by {
                assert(schema[j].0 == keys(schema)[j]);
            }
        }
        let rows = table.find_all(SelectFields::WildCard);
        let mut bytes = encode_rows(&rows);
        ret_value.append(&mut bytes);
        i += 1;
    }
    Ok(ret_value)
}

/// What a statement asks of the tables. A statement touches one table at
/// most, so whoever keeps the tables can find that table, by whatever means
/// it guards it, and hand it over.
#[derive(Debug)]
pub enum Step<'a> {
    /// A table of this schema, without rows, is to stand under `name`, in
    /// the place of any table that had the name.
    Create {
        name: &'a String,
        primary_keys: Vec<String>,
        indexes: Vec<String>,
        schema: TextMap<ColumnInfo>,
    },
    /// Rows are to go into the table of this name: see `write_rows`.
    Write { table_name: &'a String, columns: &'a Vec<String>, source: &'a Option<Query> },
    /// The table of this name is to be read: see `read_rows`.
    Read { table_name: &'a String, items: &'a Vec<SelectItem> },
    /// Nothing: the statement asks for what the store does not do.
    Refuse(Feature),
}

/// Puts the rows of an insert into its table.
pub fn write_rows(table: &mut TableInfo, columns: &Vec<String>, source: &Option<Query>) -> (r:
    Result<SuccessStatus, DbError>)
    requires
        old(table).wf(),
    ensures
        final(table).wf(),
        final(table)@ == written_to(old(table)@, views(columns@), *source).1,
        match r {
            Ok(status) => written_to(old(table)@, views(columns@), *source).0 == Ok::<
                SuccessView,
                DbErrorView,
            >(status@),
            Err(e) => written_to(old(table)@, views(columns@), *source).0 == Err::<
                SuccessView,
                DbErrorView,
            >(e@),
        },
{
    let values = match rows_of(source) {
        Ok(values) => values,
        Err(e) => {
            return Err(e);
        },
    };
    match table.insert_values(columns, values) {
        Ok(_) => Ok(SuccessStatus::DataInserted),
        Err(e) => Err(e),
    }
}

/// Reads the table of a query.
pub fn read_rows(table: &TableInfo, items: &Vec<SelectItem>) -> (r: Result<SuccessStatus, DbError>)
    requires
        table.wf(),
    ensures
        match r {
            Ok(status) => fetched_from(table@, items@) == Ok::<SuccessView, DbErrorView>(status@),
            Err(e) => fetched_from(table@, items@) == Err::<SuccessView, DbErrorView>(e@),
        },
{
    match fetch(table, items) {
        Ok(bytes) => Ok(SuccessStatus::DataFetched(bytes)),
        Err(e) => Err(e),
    }
}

impl Statement {
    /// What the statement asks of the tables.
    pub fn step(&self) -> (r: Step<'_>)
        ensures
            match *self {
                Statement::CreateTable { name, columns } => r matches Step::Create {
                    name: n,
                    primary_keys,
                    indexes,
                    schema,
                } && *n == name && schema.wf() && empty_table(
                    name@,
                    views(primary_keys@),
                    views(indexes@),
                    schema_of(schema),
                ) == created_table(name@, columns@),
                Statement::Insert { table_name, columns, source } => r matches Step::Write {
                    table_name: n,
                    columns: c,
                    source: s,
                } && *n == table_name && *c == columns && *s == source,
                Statement::Query(q) => match query_target(q) {
                    Ok(name) => r matches Step::Read { table_name, items } && table_name@ == name
                        && items@ == query_items(q),
                    Err(feature) => r matches Step::Refuse(f) && f == feature,
                },
                Statement::Other(_) => r matches Step::Refuse(f) && f == Feature::StatementKind,
            },
    {
        match self {
            Statement::CreateTable { name, columns } => {
                let (primary_keys, indexes, schema) = schema_parts(columns);
                Step::Create { name, primary_keys, indexes, schema }
            },
            Statement::Insert { table_name, columns, source } => Step::Write {
                table_name,
                columns,
                source,
            },
            Statement::Query(query) => match target_of(query) {
                Ok((table_name, items)) => Step::Read { table_name, items },
                Err(feature) => Step::Refuse(feature),
            },
            Statement::Other(_) => Step::Refuse(Feature::StatementKind),
        }
    }

    /// Runs the statement. An error comes back as it is.
    pub fn run(&self, db: &mut DataBase) -> (r: Result<SuccessStatus, DbError>)
        requires
            old(db).wf(),
        ensures
            final(db).wf(),
            final(db)@ == executed(*self, old(db)@).1,
            match r {
                Ok(status) => executed(*self, old(db)@).0 == Ok::<SuccessView, DbErrorView>(
                    status@,
                ),
                Err(e) => executed(*self, old(db)@).0 == Err::<SuccessView, DbErrorView>(e@),
            },
    {
        let ghost before = db@;
        match self.step() {
            Step::Create { name, primary_keys, indexes, schema } => {
                db.create_table(name, primary_keys, indexes, schema);
                Ok(SuccessStatus::TableCreated(name.clone()))
            },
            Step::Write { table_name, columns, source } => match db.get_table_ref(table_name) {
                Some(table) => {
                    let ghost was = table@;
                    let done = write_rows(table, columns, source);
                    proof {
                        upsert_keeps_valid(before, table_name@, table@);
                        if done is Err {
                            assert(upsert(before, table_name@, was) =~= before);
                        }
                    }
                    done
                },
                None => Err(DbError::NotFound(table_name.clone())),
            },
            Step::Read { table_name, items } => match db.get_table(table_name) {
                Some(table) => read_rows(table, items),
                None => Err(DbError::NotFound(table_name.clone())),
            },
            Step::Refuse(feature) => Err(DbError::UnsupportedStatement(feature)),
        }
    }
}

impl Execute for Statement {
    open spec fn effect(&self, db: DataBaseView) -> (
        Result<SuccessView, DbErrorView>,
        DataBaseView,
    ) {
        executed(*self, db)
    }

    fn execute(&self, db: &mut DataBase) -> (r: Result<SuccessStatus, String>) {
        match self.run(db) {
            Ok(status) => Ok(status),
            Err(e) => Err(e.message()),
        }
    }
}

} // verus!
