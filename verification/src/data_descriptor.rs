//! The catalog and the rows.
//!
//! A database owns its tables. A table is a schema, which never changes once
//! the table is made, and the rows that were inserted, each under the key
//! that its primary-key columns give it. Who holds a `&mut` to a table is
//! the one who may change it: there is no lock in here.
//!
//! In contracts a row is the sequence of its columns, each a name with a
//! text or with none; a table's rows are a sequence of keys with rows; and a
//! database is a sequence of names with tables. No name stands twice in any
//! of them.

use vstd::prelude::*;
use vstd::string::*;
use crate::ast::{
    contains_text,
    opt_text,
    views,
    DataType,
    DataTypeView,
    Expr,
    ExprView,
    ReferentialAction,
    Value,
    ValueView,
};
use crate::error::{DbError, DbErrorView, Feature, SchemaFault};
use crate::raw_inner_value::{raw_text, InnerRawValue};
use crate::text_map::{
    distinct_keys,
    has_key,
    index_is_unique,
    index_of,
    keys,
    map_values,
    map_values_keeps_keys,
    map_values_upsert,
    upsert,
    upsert_all,
    upsert_all_keeps,
    upsert_keeps,
    upsert_keeps_distinct,
    value_of,
    TextMap,
};
use crate::validators::{valid_for, validate_value_for_col};

verus! {

/// A row as contracts see it: its columns in their order, each a name with
/// a text or with none.
pub type RowView = Seq<(Seq<char>, Option<Seq<char>>)>;

/// The rows of a table as contracts see them: each a key with a row, in the
/// order in which the keys first came.
pub type RowsView = Seq<(Seq<char>, RowView)>;

/// The columns of a schema as contracts see them: each a name with a
/// column, in the order of the schema.
pub type SchemaView = Seq<(Seq<char>, ColumnInfoView)>;

/// A database as contracts see it: each table under its name.
pub type DataBaseView = Seq<(Seq<char>, TableInfoView)>;

/// What a read asks for of each row.
#[derive(Debug)]
pub enum SelectFields {
    /// Every column, in the order of the schema.
    WildCard,
    /// The columns of these names, in this order.
    NamedFields(Vec<String>),
}

/// A property of a column.
#[derive(Debug)]
pub enum ColumnProperties {
    AutoIncrement,
    PrimaryKey,
    Null,
    NotNull,
    Unique,
    Default(Expr),
    OnUpdate(Expr),
    ForeignKey {
        foreign_table: String,
        referred_columns: Vec<String>,
        on_delete: Option<ReferentialAction>,
        on_update: Option<ReferentialAction>,
    },
}

pub enum ColumnPropertiesView {
    AutoIncrement,
    PrimaryKey,
    Null,
    NotNull,
    Unique,
    Default(ExprView),
    OnUpdate(ExprView),
    ForeignKey {
        foreign_table: Seq<char>,
        referred_columns: Seq<Seq<char>>,
        on_delete: Option<ReferentialAction>,
        on_update: Option<ReferentialAction>,
    },
}

impl View for ColumnProperties {
    type V = ColumnPropertiesView;

    open spec fn view(&self) -> ColumnPropertiesView {
        match *self {
            ColumnProperties::AutoIncrement => ColumnPropertiesView::AutoIncrement,
            ColumnProperties::PrimaryKey => ColumnPropertiesView::PrimaryKey,
            ColumnProperties::Null => ColumnPropertiesView::Null,
            ColumnProperties::NotNull => ColumnPropertiesView::NotNull,
            ColumnProperties::Unique => ColumnPropertiesView::Unique,
            ColumnProperties::Default(e) => ColumnPropertiesView::Default(e@),
            ColumnProperties::OnUpdate(e) => ColumnPropertiesView::OnUpdate(e@),
            ColumnProperties::ForeignKey {
                foreign_table,
                referred_columns,
                on_delete,
                on_update,
            } => ColumnPropertiesView::ForeignKey {
                foreign_table: foreign_table@,
                referred_columns: views(referred_columns@),
                on_delete,
                on_update,
            },
        }
    }
}

/// A column of a schema: the type it declares and its properties.
#[derive(Debug)]
pub struct ColumnInfo {
    pub declared_type: DataType,
    pub properties: Vec<ColumnProperties>,
}

pub struct ColumnInfoView {
    pub declared_type: DataTypeView,
    pub properties: Seq<ColumnPropertiesView>,
}

impl View for ColumnInfo {
    type V = ColumnInfoView;

    open spec fn view(&self) -> ColumnInfoView {
        ColumnInfoView {
            declared_type: self.declared_type@,
            properties: views(self.properties@),
        }
    }
}

/// A property that lets a column go without a value.
pub open spec fn grants_null(p: ColumnPropertiesView) -> bool {
    p is Null || p is AutoIncrement || p is Default
}

/// A column takes `NULL` where one of its properties lets it go without a
/// value: `NULL`, an automatic increment or a default.
pub open spec fn is_nullable(properties: Seq<ColumnPropertiesView>) -> bool {
    exists|i: int| 0 <= i < properties.len() && grants_null(#[trigger] properties[i])
}

/// Whether a literal is a value of a column.
pub open spec fn column_accepts(column: ColumnInfoView, v: ValueView) -> bool {
    valid_for(column.declared_type, v, is_nullable(column.properties))
}

impl ColumnInfo {
    /// Whether the column takes `NULL`.
    pub fn nullable(&self) -> (r: bool)
        ensures
            r == is_nullable(self@.properties),
    {
        let ghost properties = views(self.properties@);
        let mut i: usize = 0;
        while i < self.properties.len()
            invariant
                i <= self.properties.len(),
                properties == views(self.properties@),
                forall|j: int| 0 <= j < i ==> !grants_null(#[trigger] properties[j]),
            decreases self.properties.len() - i,
        {
            let grants: bool = match &self.properties[i] {
                ColumnProperties::Null => true,
                ColumnProperties::AutoIncrement => true,
                ColumnProperties::Default(_expr) => true,
                _ => false,
            };
            assert(grants == grants_null(properties[i as int]));
            if grants {
                return true;
            }
            i += 1;
        }
        false
    }

    pub fn validate_value(&self, value: &Value) -> (r: bool)
        ensures
            r == column_accepts(self@, value@),
    {
        let is_nullable: bool = self.nullable();
        validate_value_for_col(&self.declared_type, value, is_nullable)
    }
}

/// The texts that borrowed values hold.
pub open spec fn texts_of(values: Seq<&Option<String>>) -> Seq<Option<Seq<char>>> {
    Seq::new(values.len(), |j: int| opt_text(*values[j]))
}

/// The texts of a batch of rows that borrows its values.
pub open spec fn batch_texts(rows: Seq<Vec<&Option<String>>>) -> Seq<Seq<Option<Seq<char>>>> {
    Seq::new(rows.len(), |i: int| texts_of(rows[i]@))
}

/// The values of a row, in the order of its columns.
pub open spec fn all_values(row: RowView) -> Seq<Option<Seq<char>>> {
    Seq::new(row.len(), |i: int| row[i].1)
}

/// The values that a row has under `fields`, in the order of `fields`.
pub open spec fn project(row: RowView, fields: Seq<Seq<char>>) -> Seq<
    Option<Seq<char>>,
> {
    Seq::new(fields.len(), |j: int| value_of(row, fields[j]))
}

/// A row has a value under each of `fields`.
pub open spec fn row_has(row: RowView, fields: Seq<Seq<char>>) -> bool {
    forall|j: int| 0 <= j < fields.len() ==> has_key(row, #[trigger] fields[j])
}

/// One row: its columns by name, each with a text or with none, in the
/// order in which they were put in.
#[derive(Debug)]
pub struct TableRowData {
    column_data: TextMap<Option<String>>,
}

impl View for TableRowData {
    type V = RowView;

    closed spec fn view(&self) -> RowView {
        map_values(self.column_data.model(), |v: Option<String>| opt_text(v))
    }
}

impl TableRowData {
    /// No column stands twice.
    pub open spec fn wf(&self) -> bool {
        distinct_keys(self@)
    }

    pub fn new() -> (r: Self)
        ensures
            r@ == Seq::<(Seq<char>, Option<Seq<char>>)>::empty(),
            r.wf(),
    {
        let r = Self { column_data: TextMap::new() };
        assert(r@ =~= Seq::<(Seq<char>, Option<Seq<char>>)>::empty());
        r
    }

    /// Puts `value` under `column`: in the place of the value that the
    /// column had, or behind all others where the column is new.
    pub fn insert(&mut self, column: String, value: Option<String>)
        requires
            old(self).wf(),
        ensures
            final(self).wf(),
            final(self)@ == upsert(old(self)@, column@, opt_text(value)),
    {
        proof {
            let f = |v: Option<String>| opt_text(v);
            map_values_keeps_keys(self.column_data.model(), f);
            map_values_upsert(self.column_data.model(), f, column@, value);
            upsert_keeps_distinct(self@, column@, opt_text(value));
        }
        self.column_data.insert(column, value);
    }

    /// Every value of the row, in the order of its columns.
    pub fn get_wild_card(&self) -> (r: Vec<&Option<String>>)
        ensures
            texts_of(r@) == all_values(self@),
    {
        let mut out: Vec<&Option<String>> = Vec::new();
        let mut i: usize = 0;
        while i < self.column_data.len()
            invariant
                i <= self.column_data.model().len(),
                out.len() == i,
                forall|j: int| 0 <= j < i ==> opt_text(*out@[j]) == self@[j].1,
            decreases self.column_data.model().len() - i,
        {
            out.push(self.column_data.value_at(i));
            i += 1;
        }
        assert(texts_of(out@) =~= all_values(self@));
        out
    }

    /// The values under `fields`, in the order of `fields`.
    pub fn get_named_fields(&self, fields: &Vec<String>) -> (r: Vec<&Option<String>>)
        requires
            self.wf(),
            row_has(self@, views(fields@)),
        ensures
            texts_of(r@) == project(self@, views(fields@)),
    {
        let ghost names = views(fields@);
        let ghost f = |v: Option<String>| opt_text(v);
        proof {
            map_values_keeps_keys(self.column_data.model(), f);
        }
        let mut out: Vec<&Option<String>> = Vec::new();
        let mut i: usize = 0;
        while i < fields.len()
            invariant
                i <= fields.len(),
                out.len() == i,
                names == views(fields@),
                row_has(self@, names),
                self.column_data.wf(),
                f == |v: Option<String>| opt_text(v),
                self@ == map_values(self.column_data.model(), f),
                forall|key: Seq<char>|
                    has_key(self.column_data.model(), key) ==> value_of(self@, key) == f(
                        value_of(self.column_data.model(), key),
                    ),
                forall|key: Seq<char>|
                    has_key(self@, key) == has_key(self.column_data.model(), key),
                forall|j: int| 0 <= j < i ==> opt_text(*out@[j]) == value_of(self@, names[j]),
            decreases fields.len() - i,
        {
            assert(has_key(self@, names[i as int]));
            assert(names[i as int] == fields@[i as int]@);
            match self.column_data.get(&fields[i]) {
                Some(value) => {
                    out.push(value);
                },
                None => {},
            }
            i += 1;
        }
        assert(texts_of(out@) =~= project(self@, names));
        out
    }
}

/// The columns that a selection names, or none where it asks for each row
/// as it is.
pub open spec fn fields_of(selection: SelectFields) -> Option<Seq<Seq<char>>> {
    match selection {
        SelectFields::WildCard => None,
        SelectFields::NamedFields(fields) => Some(views(fields@)),
    }
}

/// What a read gives of `rows`: for each row, in the order of the rows, its
/// values under `fields`, or all its values where no fields are named.
pub open spec fn select_rows(
    rows: RowsView,
    fields: Option<Seq<Seq<char>>>,
) -> Seq<Seq<Option<Seq<char>>>> {
    Seq::new(
        rows.len(),
        |i: int|
            match fields {
                Some(names) => project(rows[i].1, names),
                None => all_values(rows[i].1),
            },
    )
}

/// Every row of `rows` has a value under each of `fields`.
pub open spec fn rows_have(
    rows: RowsView,
    fields: Seq<Seq<char>>,
) -> bool {
    forall|i: int| 0 <= i < rows.len() ==> row_has((#[trigger] rows[i]).1, fields)
}

/// Every row of `rows` is well formed.
pub open spec fn rows_wf(rows: RowsView) -> bool {
    distinct_keys(rows) && forall|i: int|
        0 <= i < rows.len() ==> distinct_keys((#[trigger] rows[i]).1)
}

/// Keys with rows, each as what it holds.
pub open spec fn keyed_rows(batch: Seq<(String, TableRowData)>) -> RowsView {
    Seq::new(batch.len(), |i: int| (batch[i].0@, batch[i].1@))
}

/// The rows of a table, each under its key, in the order in which the keys
/// first came.
#[derive(Debug)]
pub struct TableData {
    row_data: TextMap<TableRowData>,
}

impl View for TableData {
    type V = RowsView;

    closed spec fn view(&self) -> RowsView {
        map_values(self.row_data.model(), |r: TableRowData| r@)
    }
}

impl TableData {
    /// No key stands twice, and no column twice in a row.
    pub open spec fn wf(&self) -> bool {
        rows_wf(self@)
    }

    pub fn new() -> (r: Self)
        ensures
            r@ == Seq::<(Seq<char>, RowView)>::empty(),
            r.wf(),
    {
        let r = Self { row_data: TextMap::new() };
        assert(r@ =~= Seq::<(Seq<char>, RowView)>::empty());
        r
    }

    /// How many rows there are.
    pub fn len(&self) -> (n: usize)
        ensures
            n == self@.len(),
    {
        self.row_data.len()
    }

    /// Puts `row` under `key`: in the place of the row that the key had, or
    /// behind all others where the key is new.
    pub fn insert(&mut self, key: String, row: TableRowData)
        requires
            old(self).wf(),
            row.wf(),
        ensures
            final(self).wf(),
            final(self)@ == upsert(old(self)@, key@, row@),
    {
        proof {
            let f = |r: TableRowData| r@;
            map_values_keeps_keys(self.row_data.model(), f);
            map_values_upsert(self.row_data.model(), f, key@, row);
            upsert_keeps_distinct(self@, key@, row@);
            upsert_keeps(
                self@,
                key@,
                row@,
                |r: RowView| distinct_keys(r),
            );
        }
        self.row_data.insert(key, row);
    }

    /// Puts each row of `batch` under its key, in the order of `batch`.
    pub fn insert_all(&mut self, batch: Vec<(String, TableRowData)>)
        requires
            old(self).wf(),
            forall|i: int| 0 <= i < batch.len() ==> (#[trigger] batch@[i]).1.wf(),
        ensures
            final(self).wf(),
            final(self)@ == upsert_all(old(self)@, keyed_rows(batch@), batch.len() as int),
    {
        let ghost pairs = keyed_rows(batch@);
        for entry in it: batch
            invariant
                self.wf(),
                pairs == keyed_rows(batch@),
                it.seq() == batch@,
                forall|i: int| 0 <= i < batch.len() ==> (#[trigger] batch@[i]).1.wf(),
                self@ == upsert_all(old(self)@, pairs, it.index() as int),
        {
            let ghost k = it.index() as int;
            assert(entry == batch@[k]);
            assert(pairs[k] == (entry.0@, entry.1@));
            let (key, row) = entry;
            self.insert(key, row);
        }
    }

    /// For each row what `selection` asks for, in the order of the rows.
    pub fn find_all(&self, selection: SelectFields) -> (r: Vec<Vec<&Option<String>>>)
        requires
            self.wf(),
            fields_of(selection) matches Some(names) ==> rows_have(self@, names),
        ensures
            batch_texts(r@) == select_rows(self@, fields_of(selection)),
    {
        let ghost asked = fields_of(selection);
        let mut out: Vec<Vec<&Option<String>>> = Vec::new();
        let mut i: usize = 0;
        match selection {
            SelectFields::WildCard => {
                while i < self.row_data.len()
                    invariant
                        i <= self.row_data.model().len(),
                        out.len() == i,
                        self@.len() == self.row_data.model().len(),
                        forall|k: int| 0 <= k < i ==> texts_of(out@[k]@) == all_values(self@[k].1),
                    decreases self.row_data.model().len() - i,
                {
                    let row = self.row_data.value_at(i);
                    out.push(row.get_wild_card());
                    i += 1;
                }
                assert(batch_texts(out@) =~= select_rows(self@, asked));
            },
            SelectFields::NamedFields(fields) => {
                while i < self.row_data.len()
                    invariant
                        i <= self.row_data.model().len(),
                        out.len() == i,
                        self@.len() == self.row_data.model().len(),
                        self.wf(),
                        rows_have(self@, views(fields@)),
                        forall|k: int|
                            0 <= k < i ==> texts_of(out@[k]@) == project(
                                self@[k].1,
                                views(fields@),
                            ),
                    decreases self.row_data.model().len() - i,
                {
                    let row = self.row_data.value_at(i);
                    assert(row@ == self@[i as int].1);
                    out.push(row.get_named_fields(&fields));
                    i += 1;
                }
                assert(batch_texts(out@) =~= select_rows(self@, asked));
            },
        }
        out
    }
}

/// A table as contracts see it.
pub struct TableInfoView {
    pub table_name: Seq<char>,
    /// The primary-key columns, in the order in which they were declared.
    pub primary_keys: Seq<Seq<char>>,
    /// The columns that carry a secondary index. No read looks at them.
    pub indexes: Seq<Seq<char>>,
    /// The columns, in the order of the schema.
    pub columns: SchemaView,
    /// The rows, each under its key, in the order in which the keys first
    /// came.
    pub rows: RowsView,
}

/// A row has each column of the schema once, and no other.
pub open spec fn row_matches(
    row: RowView,
    columns: SchemaView,
) -> bool {
    row.len() == columns.len() && distinct_keys(row) && row_has(row, keys(columns))
}

/// A table is well formed: no column and no key stands twice, and each row
/// has each column once.
pub open spec fn valid_table(t: TableInfoView) -> bool {
    distinct_keys(t.columns) && distinct_keys(t.rows) && forall|i: int|
        0 <= i < t.rows.len() ==> row_matches((#[trigger] t.rows[i]).1, t.columns)
}

/// What is wrong with the column list of an insert, if anything.
pub open spec fn names_fault(
    columns: SchemaView,
    names: Seq<Seq<char>>,
) -> Option<SchemaFault> {
    if names.len() == 0 || names.len() > columns.len() {
        Some(SchemaFault::ColumnCount)
    } else if exists|i: int| 0 <= i < names.len() && !has_key(columns, #[trigger] names[i]) {
        Some(SchemaFault::UnknownColumn)
    } else if names.to_set().len() != columns.len() {
        Some(SchemaFault::ColumnSet)
    } else {
        None
    }
}

/// The rows of an insert, each expression as what it holds.
pub open spec fn expr_rows(values: Seq<Vec<Expr>>) -> Seq<Seq<ExprView>> {
    Seq::new(values.len(), |i: int| views(values[i]@))
}

/// The text that an expression of an insert leaves in its column.
pub open spec fn cell_text(e: ExprView) -> Option<Seq<char>> {
    match e {
        ExprView::Value(v) => raw_text(v),
        ExprView::Other(_) => None,
    }
}

/// What is wrong with one expression of an insert, if anything: it is no
/// literal, or it is no value of its column.
pub open spec fn cell_fault(column: ColumnInfoView, e: ExprView) -> Option<DbErrorView> {
    match e {
        ExprView::Other(_) => Some(DbErrorView::UnsupportedStatement(Feature::InsertExpression)),
        ExprView::Value(v) => if column_accepts(column, v) {
            None
        } else {
            Some(DbErrorView::ValueError)
        },
    }
}

/// The first thing that is wrong among the first `n` expressions of a row.
pub open spec fn cells_fault(
    columns: SchemaView,
    names: Seq<Seq<char>>,
    row: Seq<ExprView>,
    n: int,
) -> Option<DbErrorView>
    decreases n,
{
    if n <= 0 {
        None
    } else if cells_fault(columns, names, row, n - 1) is Some {
        cells_fault(columns, names, row, n - 1)
    } else {
        cell_fault(value_of(columns, names[n - 1]), row[n - 1])
    }
}

/// The first thing that is wrong with a row of an insert: it has not one
/// expression for each name, or one of its expressions is at fault.
pub open spec fn row_fault(
    columns: SchemaView,
    names: Seq<Seq<char>>,
    row: Seq<ExprView>,
) -> Option<DbErrorView> {
    if row.len() != names.len() {
        Some(DbErrorView::SchemaError(SchemaFault::RowArity))
    } else {
        cells_fault(columns, names, row, names.len() as int)
    }
}

/// The first thing that is wrong among the first `n` rows of an insert.
pub open spec fn rows_fault(
    columns: SchemaView,
    names: Seq<Seq<char>>,
    rows: Seq<Seq<ExprView>>,
    n: int,
) -> Option<DbErrorView>
    decreases n,
{
    if n <= 0 {
        None
    } else if rows_fault(columns, names, rows, n - 1) is Some {
        rows_fault(columns, names, rows, n - 1)
    } else {
        row_fault(columns, names, rows[n - 1])
    }
}

/// The first thing that is wrong with an insert, if anything: first the
/// column list, then the rows in their order, and in a row its length
/// before its expressions.
pub open spec fn insert_fault(
    t: TableInfoView,
    names: Seq<Seq<char>>,
    rows: Seq<Seq<ExprView>>,
) -> Option<DbErrorView> {
    match names_fault(t.columns, names) {
        Some(fault) => Some(DbErrorView::SchemaError(fault)),
        None => rows_fault(t.columns, names, rows, rows.len() as int),
    }
}

/// The row that the first `n` expressions leave under the first `n` names.
pub open spec fn row_of(names: Seq<Seq<char>>, row: Seq<ExprView>, n: int) -> RowView {
    Seq::new(n as nat, |i: int| (names[i], cell_text(row[i])))
}

/// What a primary-key column gives to the key: its text, or `|` where it
/// has none.
pub open spec fn key_part(text: Option<Seq<char>>) -> Seq<char> {
    match text {
        Some(t) => t,
        None => "|"@,
    }
}

/// What the primary-key columns among the first `n` names give to the key,
/// in the order of the names.
pub open spec fn key_parts(
    names: Seq<Seq<char>>,
    primary_keys: Seq<Seq<char>>,
    row: Seq<ExprView>,
    n: int,
) -> Seq<Seq<char>>
    decreases n,
{
    if n <= 0 {
        Seq::empty()
    } else if primary_keys.contains(names[n - 1]) {
        key_parts(names, primary_keys, row, n - 1).push(key_part(cell_text(row[n - 1])))
    } else {
        key_parts(names, primary_keys, row, n - 1)
    }
}

/// The parts with `_` between each two.
pub open spec fn joined(parts: Seq<Seq<char>>) -> Seq<char>
    decreases parts.len(),
{
    if parts.len() == 0 {
        Seq::empty()
    } else if parts.len() == 1 {
        parts[0]
    } else {
        joined(parts.drop_last()) + "_"@ + parts.last()
    }
}

/// The key of a row: the texts of its primary-key columns, in the order of
/// the column list, with `_` between them.
pub open spec fn composite_key(
    names: Seq<Seq<char>>,
    primary_keys: Seq<Seq<char>>,
    row: Seq<ExprView>,
) -> Seq<char> {
    joined(key_parts(names, primary_keys, row, names.len() as int))
}

/// The rows of an insert as they go into the table: each under its key.
pub open spec fn staged(
    names: Seq<Seq<char>>,
    primary_keys: Seq<Seq<char>>,
    rows: Seq<Seq<ExprView>>,
) -> RowsView {
    Seq::new(
        rows.len(),
        |i: int|
            (composite_key(names, primary_keys, rows[i]), row_of(names, rows[i], names.len() as int)),
    )
}

/// The table after an insert that has no fault: each row is put under its
/// key, in the order of the rows, in the place of the row that had the key
/// or behind all others.
pub open spec fn inserted(
    t: TableInfoView,
    names: Seq<Seq<char>>,
    rows: Seq<Seq<ExprView>>,
) -> TableInfoView {
    TableInfoView {
        rows: upsert_all(t.rows, staged(names, t.primary_keys, rows), rows.len() as int),
        ..t
    }
}

/// The columns that a read of a table gives: those that the selection
/// names, or all of the schema, in its order.
pub open spec fn asked_columns(t: TableInfoView, selection: SelectFields) -> Seq<Seq<char>> {
    match selection {
        SelectFields::WildCard => keys(t.columns),
        SelectFields::NamedFields(fields) => views(fields@),
    }
}

/// A fault among the first expressions of a row is the fault of the row.
pub proof fn cells_fault_stays(
    columns: SchemaView,
    names: Seq<Seq<char>>,
    row: Seq<ExprView>,
    i: int,
    n: int,
)
    requires
        0 <= i <= n,
        cells_fault(columns, names, row, i) is Some,
    ensures
        cells_fault(columns, names, row, n) == cells_fault(columns, names, row, i),
    decreases n - i,
{
    if i < n {
        cells_fault_stays(columns, names, row, i, n - 1);
    }
}

/// A fault among the first rows of an insert is the fault of the insert.
pub proof fn rows_fault_stays(
    columns: SchemaView,
    names: Seq<Seq<char>>,
    rows: Seq<Seq<ExprView>>,
    i: int,
    n: int,
)
    requires
        0 <= i <= n,
        rows_fault(columns, names, rows, i) is Some,
    ensures
        rows_fault(columns, names, rows, n) == rows_fault(columns, names, rows, i),
    decreases n - i,
{
    if i < n {
        rows_fault_stays(columns, names, rows, i, n - 1);
    }
}

/// A column list without a fault names each column of the schema once.
pub proof fn faultless_names_cover(columns: SchemaView, names: Seq<Seq<char>>)
    requires
        distinct_keys(columns),
        names_fault(columns, names) is None,
    ensures
        names.no_duplicates(),
        names.len() == columns.len(),
        forall|i: int| 0 <= i < names.len() ==> has_key(columns, #[trigger] names[i]),
        forall|c: int| 0 <= c < columns.len() ==> names.contains((#[trigger] columns[c]).0),
{
    let named = names.to_set();
    let schema = keys(columns).to_set();
    names.lemma_cardinality_of_set();
    assert(names.len() == columns.len());
    names.lemma_no_dup_set_cardinality();
    assert forall|i: int, j: int|
        0 <= i < keys(columns).len() && 0 <= j < keys(columns).len() && i != j implies keys(
        columns,
    )[i] != keys(columns)[j] by {
        if i < j {
            assert(columns[i].0 != columns[j].0);
        } else {
            assert(columns[j].0 != columns[i].0);
        }
    }
    keys(columns).unique_seq_to_set();
    vstd::seq_lib::seq_to_set_is_finite(names);
    vstd::seq_lib::seq_to_set_is_finite(keys(columns));
    assert forall|name: Seq<char>| named.contains(name) implies schema.contains(name) by {
        let i = choose|i: int| 0 <= i < names.len() && names[i] == name;
        assert(has_key(columns, names[i]));
        let k = index_of(columns, name);
        assert(keys(columns)[k] == name);
    }
    vstd::set_lib::lemma_subset_equality(named, schema);
    assert forall|c: int| 0 <= c < columns.len() implies names.contains(
        (#[trigger] columns[c]).0,
    ) by {
        assert(keys(columns)[c] == columns[c].0);
        assert(schema.contains(columns[c].0));
        assert(named.contains(columns[c].0));
    }
}

/// The row that a faultless column list leaves has each column once.
pub proof fn full_row_matches(
    columns: SchemaView,
    names: Seq<Seq<char>>,
    row: Seq<ExprView>,
)
    requires
        distinct_keys(columns),
        names_fault(columns, names) is None,
    ensures
        row_matches(row_of(names, row, names.len() as int), columns),
{
    faultless_names_cover(columns, names);
    let r = row_of(names, row, names.len() as int);
    assert forall|c: int| 0 <= c < keys(columns).len() implies has_key(
        r,
        #[trigger] keys(columns)[c],
    ) by {
        assert(names.contains(columns[c].0));
        let i = choose|i: int| 0 <= i < names.len() && names[i] == columns[c].0;
        assert(r[i].0 == columns[c].0);
    }
}

/// The columns of a schema as contracts see them, in their order.
pub open spec fn schema_of(columns: TextMap<ColumnInfo>) -> SchemaView {
    map_values(columns.model(), |c: ColumnInfo| c@)
}

/// A table: its schema and its rows.
#[derive(Debug)]
pub struct TableInfo {
    table_name: String,
    primary_keys: Vec<String>,
    indexes: Vec<String>,
    schema: TextMap<ColumnInfo>,
    data: TableData,
}

impl View for TableInfo {
    type V = TableInfoView;

    closed spec fn view(&self) -> TableInfoView {
        TableInfoView {
            table_name: self.table_name@,
            primary_keys: views(self.primary_keys@),
            indexes: views(self.indexes@),
            columns: schema_of(self.schema),
            rows: self.data@,
        }
    }
}

impl TableInfo {
    /// The table is well formed.
    pub open spec fn wf(&self) -> bool {
        valid_table(self@)
    }

    /// A table of this schema, without rows.
    pub fn new(
        table_name: String,
        primary_keys: Vec<String>,
        indexes: Vec<String>,
        schema: TextMap<ColumnInfo>,
    ) -> (r: Self)
        requires
            schema.wf(),
        ensures
            r.wf(),
            r@ == (TableInfoView {
                table_name: table_name@,
                primary_keys: views(primary_keys@),
                indexes: views(indexes@),
                columns: schema_of(schema),
                rows: Seq::empty(),
            }),
    {
        proof {
            map_values_keeps_keys(schema.model(), |c: ColumnInfo| c@);
        }
        Self { table_name, primary_keys, indexes, schema, data: TableData::new() }
    }

    /// The name of the table.
    pub fn name(&self) -> (r: &String)
        ensures
            r@ == self@.table_name,
    {
        &self.table_name
    }

    /// How many rows the table has.
    pub fn row_count(&self) -> (n: usize)
        ensures
            n == self@.rows.len(),
    {
        self.data.len()
    }

    /// What is wrong with a column list, if anything.
    fn check_columns(&self, columns: &Vec<String>) -> (r: Option<SchemaFault>)
        requires
            self.wf(),
        ensures
            r == names_fault(self@.columns, views(columns@)),
    {
        let ghost names = views(columns@);
        let ghost f = |c: ColumnInfo| c@;
        proof {
            map_values_keeps_keys(self.schema.model(), f);
        }
        if columns.len() == 0 || columns.len() > self.schema.len() {
            return Some(SchemaFault::ColumnCount);
        }
        let mut i: usize = 0;
        while i < columns.len()
            invariant
                i <= columns.len(),
                names == views(columns@),
                0 < names.len() <= self@.columns.len(),
                forall|key: Seq<char>|
                    has_key(self@.columns, key) == has_key(self.schema.model(), key),
                forall|j: int| 0 <= j < i ==> has_key(self@.columns, #[trigger] names[j]),
            decreases columns.len() - i,
        {
            if !self.schema.contains_key(&columns[i]) {
                assert(names[i as int] == columns@[i as int]@);
                assert(!has_key(self@.columns, names[i as int]));
                return Some(SchemaFault::UnknownColumn);
            }
            assert(names[i as int] == columns@[i as int]@);
            i += 1;
        }
        let mut a: usize = 0;
        while a < columns.len()
            invariant
                a <= columns.len(),
                names == views(columns@),
                0 < names.len() <= self@.columns.len(),
                forall|j: int| 0 <= j < names.len() ==> has_key(self@.columns, #[trigger] names[j]),
                forall|x: int, y: int| 0 <= x < y < a ==> names[x] != names[y],
            decreases columns.len() - a,
        {
            let mut b: usize = 0;
            while b < a
                invariant
                    b <= a < columns.len(),
                    names == views(columns@),
                    0 < names.len() <= self@.columns.len(),
                    forall|j: int|
                        0 <= j < names.len() ==> has_key(self@.columns, #[trigger] names[j]),
                    forall|x: int| 0 <= x < b ==> names[x] != names[a as int],
                decreases a - b,
            {
                if columns[b] == columns[a] {
                    proof {
                        assert(names[b as int] == names[a as int]);
                        names.lemma_cardinality_of_set();
                        if names.to_set().len() == names.len() {
                            names.lemma_no_dup_set_cardinality();
                        }
                    }
                    return Some(SchemaFault::ColumnSet);
                }
                b += 1;
            }
            a += 1;
        }
        proof {
            assert(names.no_duplicates());
            names.unique_seq_to_set();
        }
        if columns.len() != self.schema.len() {
            return Some(SchemaFault::ColumnSet);
        }
        None
    }

    /// The key and the row that one row of an insert gives, or the first
    /// thing that is wrong with it.
    fn build_row(&self, columns: &Vec<String>, val_row: &Vec<Expr>) -> (r: Result<
        (String, TableRowData),
        DbError,
    >)
        requires
            self.wf(),
            names_fault(self@.columns, views(columns@)) is None,
        ensures
            match r {
                Ok(pair) => row_fault(self@.columns, views(columns@), views(val_row@)) is None
                    && pair.0@ == composite_key(
                    views(columns@),
                    self@.primary_keys,
                    views(val_row@),
                ) && pair.1@ == row_of(views(columns@), views(val_row@), columns.len() as int)
                    && pair.1.wf(),
                Err(e) => row_fault(self@.columns, views(columns@), views(val_row@)) == Some(e@),
            },
    {
        let ghost names = views(columns@);
        let ghost exprs = views(val_row@);
        let ghost schema = self@.columns;
        let ghost pks = self@.primary_keys;
        let ghost f = |c: ColumnInfo| c@;
        proof {
            map_values_keeps_keys(self.schema.model(), f);
            faultless_names_cover(schema, names);
        }
        if columns.len() != val_row.len() {
            return Err(DbError::SchemaError(SchemaFault::RowArity));
        }
        let mut pk_string = String::new();
        let mut any_part: bool = false;
        let mut row_data = TableRowData::new();
        let mut i: usize = 0;
        while i < columns.len()
            invariant
                i <= columns.len(),
                columns.len() == val_row.len(),
                names == views(columns@),
                exprs == views(val_row@),
                schema == self@.columns,
                pks == self@.primary_keys,
                pks == views(self.primary_keys@),
                self.schema.wf(),
                f == |c: ColumnInfo| c@,
                schema == map_values(self.schema.model(), f),
                forall|key: Seq<char>|
                    has_key(schema, key) == has_key(self.schema.model(), key),
                forall|key: Seq<char>|
                    has_key(self.schema.model(), key) ==> value_of(schema, key) == f(
                        value_of(self.schema.model(), key),
                    ),
                names.no_duplicates(),
                forall|k: int| 0 <= k < names.len() ==> has_key(schema, #[trigger] names[k]),
                row_data.wf(),
                row_data@ == row_of(names, exprs, i as int),
                pk_string@ == joined(key_parts(names, pks, exprs, i as int)),
                any_part == (key_parts(names, pks, exprs, i as int).len() > 0),
                cells_fault(schema, names, exprs, i as int) is None,
            decreases columns.len() - i,
        {
            let c_name = &columns[i];
            let value_expr = &val_row[i];
            assert(names[i as int] == c_name@);
            assert(exprs[i as int] == value_expr@);
            assert(has_key(schema, names[i as int]));
            match value_expr {
                Expr::Value(value) => {
                    let value_raw = value.get_inner_raw_str();
                    assert(opt_text(value_raw) == cell_text(exprs[i as int]));
                    let ghost parts = key_parts(names, pks, exprs, i as int);
                    if contains_text(&self.primary_keys, c_name) {
                        if any_part {
                            pk_string.append("_");
                        }
                        match &value_raw {
                            Some(v) => {
                                pk_string.append(v.as_str());
                            },
                            None => {
                                pk_string.append("|");
                            },
                        }
                        any_part = true;
                        proof {
                            let part = key_part(cell_text(exprs[i as int]));
                            let more = parts.push(part);
                            assert(key_parts(names, pks, exprs, i + 1) == more);
                            assert(more.drop_last() =~= parts);
                            if parts.len() == 0 {
                                assert(joined(more) == part);
                                assert(pk_string@ =~= part);
                            } else {
                                assert(joined(more) == joined(parts) + "_"@ + part);
                                assert(pk_string@ =~= joined(parts) + "_"@ + part);
                            }
                        }
                    }
                    match self.schema.get(c_name) {
                        Some(col_prop) => {
                            assert(col_prop@ == value_of(schema, names[i as int]));
                            if !col_prop.validate_value(value) {
                                proof {
                                    assert(cells_fault(schema, names, exprs, i + 1) == Some(
                                        DbErrorView::ValueError,
                                    ));
                                    cells_fault_stays(
                                        schema,
                                        names,
                                        exprs,
                                        i + 1,
                                        names.len() as int,
                                    );
                                }
                                return Err(DbError::ValueError);
                            }
                        },
                        None => {},
                    }
                    proof {
                        let before = row_of(names, exprs, i as int);
                        if has_key(before, names[i as int]) {
                            let k = index_of(before, names[i as int]);
                            assert(before[k].0 == names[k]);
                            assert(names[k] != names[i as int]);
                        }
                        assert(upsert(before, c_name@, opt_text(value_raw)) =~= row_of(
                            names,
                            exprs,
                            i + 1,
                        ));
                    }
                    row_data.insert(c_name.clone(), value_raw);
                },
                Expr::Other(_) => {
                    proof {
                        assert(cells_fault(schema, names, exprs, i + 1) == Some(
                            DbErrorView::UnsupportedStatement(Feature::InsertExpression),
                        ));
                        cells_fault_stays(schema, names, exprs, i + 1, names.len() as int);
                    }
                    return Err(DbError::UnsupportedStatement(Feature::InsertExpression));
                },
            }
            i += 1;
        }
        Ok((pk_string, row_data))
    }

    /// Puts rows into the table. `columns` names each column of the table
    /// once, in any order; each row of `values` has one literal for each
    /// name, and each literal is a value of its column. Each row goes under
    /// the key that its primary-key columns give it, in the place of the row
    /// that had that key or behind all others. Where anything is at fault,
    /// nothing is put in and the first fault is returned.
    pub fn insert_values(&mut self, columns: &Vec<String>, values: Vec<Vec<Expr>>) -> (r: Result<
        (),
        DbError,
    >)
        requires
            old(self).wf(),
        ensures
            final(self).wf(),
            match r {
                Ok(_) => insert_fault(old(self)@, views(columns@), expr_rows(values@)) is None
                    && final(self)@ == inserted(old(self)@, views(columns@), expr_rows(values@)),
                Err(e) => insert_fault(old(self)@, views(columns@), expr_rows(values@)) == Some(e@)
                    && final(self)@ == old(self)@,
            },
    {
        let ghost names = views(columns@);
        let ghost rows = expr_rows(values@);
        let ghost schema = self@.columns;
        match self.check_columns(columns) {
            Some(fault) => {
                return Err(DbError::SchemaError(fault));
            },
            None => {},
        }
        let mut batch: Vec<(String, TableRowData)> = Vec::new();
        let mut k: usize = 0;
        while k < values.len()
            invariant
                k <= values.len(),
                self.wf(),
                *self == *old(self),
                names == views(columns@),
                rows == expr_rows(values@),
                schema == self@.columns,
                names_fault(schema, names) is None,
                rows_fault(schema, names, rows, k as int) is None,
                batch.len() == k,
                forall|i: int| 0 <= i < k ==> (#[trigger] batch@[i]).1.wf(),
                forall|i: int|
                    0 <= i < k ==> (#[trigger] batch@[i]).0@ == composite_key(
                        names,
                        self@.primary_keys,
                        rows[i],
                    ) && batch@[i].1@ == row_of(names, rows[i], names.len() as int),
            decreases values.len() - k,
        {
            assert(rows[k as int] == views(values@[k as int]@));
            match self.build_row(columns, &values[k]) {
                Ok(pair) => {
                    batch.push(pair);
                },
                Err(e) => {
                    proof {
                        assert(rows_fault(schema, names, rows, k + 1) == Some(e@));
                        rows_fault_stays(schema, names, rows, k + 1, rows.len() as int);
                    }
                    return Err(e);
                },
            }
            k += 1;
        }
        proof {
            let pending = staged(names, self@.primary_keys, rows);
            assert(keyed_rows(batch@) =~= pending);
            let fits = |row: RowView| row_matches(row, schema);
            assert forall|i: int| 0 <= i < pending.len() implies fits((#[trigger] pending[i]).1) by {
                full_row_matches(schema, names, rows[i]);
            }
            upsert_all_keeps(self@.rows, pending, pending.len() as int, fits);
        }
        self.data.insert_all(batch);
        Ok(())
    }

    /// For each row what `selection` asks for, in the order of the rows:
    /// the values under the columns that it names, or under all columns in
    /// the order of the schema.
    pub fn find_all(&self, selection: SelectFields) -> (r: Vec<Vec<&Option<String>>>)
        requires
            self.wf(),
            forall|j: int|
                0 <= j < asked_columns(self@, selection).len() ==> has_key(
                    self@.columns,
                    #[trigger] asked_columns(self@, selection)[j],
                ),
        ensures
            batch_texts(r@) == select_rows(self@.rows, Some(asked_columns(self@, selection))),
    {
        let ghost asked = asked_columns(self@, selection);
        let ghost f = |c: ColumnInfo| c@;
        proof {
            map_values_keeps_keys(self.schema.model(), f);
        }
        let fields: Vec<String> = match selection {
            SelectFields::WildCard => {
                let mut all: Vec<String> = Vec::new();
                let mut i: usize = 0;
                while i < self.schema.len()
                    invariant
                        i <= self.schema.model().len(),
                        all.len() == i,
                        self@.columns.len() == self.schema.model().len(),
                        forall|j: int| 0 <= j < i ==> all@[j]@ == self@.columns[j].0,
                    decreases self.schema.model().len() - i,
                {
                    all.push(self.schema.key_at(i).clone());
                    i += 1;
                }
                assert(views(all@) =~= keys(self@.columns));
                all
            },
            SelectFields::NamedFields(fields) => fields,
        };
        proof {
            assert(views(fields@) == asked);
            assert forall|i: int| 0 <= i < self@.rows.len() implies row_has(
                (#[trigger] self@.rows[i]).1,
                asked,
            ) by {
                let row = self@.rows[i].1;
                assert(row_matches(row, self@.columns));
                assert forall|j: int| 0 <= j < asked.len() implies has_key(
                    row,
                    #[trigger] asked[j],
                ) by {
                    let c = index_of(self@.columns, asked[j]);
                    assert(keys(self@.columns)[c] == asked[j]);
                }
            }
        }
        self.data.find_all(SelectFields::NamedFields(fields))
    }
}

/// A database is well formed: no table name stands twice, and each table
/// is well formed.
pub open spec fn valid_database(db: DataBaseView) -> bool {
    distinct_keys(db) && forall|i: int| 0 <= i < db.len() ==> valid_table((#[trigger] db[i]).1)
}

/// A table of this schema, without rows.
pub open spec fn empty_table(
    table_name: Seq<char>,
    primary_keys: Seq<Seq<char>>,
    indexes: Seq<Seq<char>>,
    columns: SchemaView,
) -> TableInfoView {
    TableInfoView { table_name, primary_keys, indexes, columns, rows: Seq::empty() }
}

/// To put a well-formed table into a well-formed database leaves it well
/// formed.
pub proof fn upsert_keeps_valid(db: DataBaseView, name: Seq<char>, t: TableInfoView)
    requires
        valid_database(db),
        valid_table(t),
    ensures
        valid_database(upsert(db, name, t)),
{
    upsert_keeps_distinct(db, name, t);
    upsert_keeps(db, name, t, |x: TableInfoView| valid_table(x));
}

/// The tables, each under its name. The database owns them: a caller gets
/// a table on loan, never for good.
#[derive(Debug)]
pub struct DataBase {
    tables: TextMap<TableInfo>,
}

impl View for DataBase {
    type V = DataBaseView;

    closed spec fn view(&self) -> DataBaseView {
        map_values(self.tables.model(), |t: TableInfo| t@)
    }
}

impl DataBase {
    /// The database is well formed.
    pub open spec fn wf(&self) -> bool {
        valid_database(self@)
    }

    pub fn new() -> (r: Self)
        ensures
            r@ == Seq::<(Seq<char>, TableInfoView)>::empty(),
            r.wf(),
    {
        let r = Self { tables: TextMap::new() };
        assert(r@ =~= Seq::<(Seq<char>, TableInfoView)>::empty());
        r
    }

    /// Makes a table of this schema, without rows, and puts it under
    /// `table_name`. A table that had the name is gone, and its rows with it.
    pub fn create_table(
        &mut self,
        table_name: &String,
        primary_keys: Vec<String>,
        indexes: Vec<String>,
        schema: TextMap<ColumnInfo>,
    )
        requires
            old(self).wf(),
            schema.wf(),
        ensures
            final(self).wf(),
            final(self)@ == upsert(
                old(self)@,
                table_name@,
                empty_table(
                    table_name@,
                    views(primary_keys@),
                    views(indexes@),
                    schema_of(schema),
                ),
            ),
    {
        let table = TableInfo::new(table_name.clone(), primary_keys, indexes, schema);
        proof {
            let f = |t: TableInfo| t@;
            map_values_keeps_keys(self.tables.model(), f);
            map_values_upsert(self.tables.model(), f, table_name@, table);
            upsert_keeps_valid(self@, table_name@, table@);
        }
        self.tables.insert(table_name.clone(), table);
    }

    /// The table under `table_name`, to read, if there is one.
    pub fn get_table(&self, table_name: &String) -> (r: Option<&TableInfo>)
        requires
            self.wf(),
        ensures
            match r {
                Some(table) => has_key(self@, table_name@) && table@ == value_of(
                    self@,
                    table_name@,
                ) && table.wf(),
                None => !has_key(self@, table_name@),
            },
    {
        proof {
            map_values_keeps_keys(self.tables.model(), |t: TableInfo| t@);
        }
        match self.tables.position(table_name) {
            Some(i) => {
                proof {
                    index_is_unique(self@, table_name@, i as int);
                }
                Some(self.tables.value_at(i))
            },
            None => None,
        }
    }

    pub fn table_exists(&mut self, table_name: &String) -> (r: bool)
        ensures
            r == has_key(old(self)@, table_name@),
            *final(self) == *old(self),
    {
        proof {
            map_values_keeps_keys(self.tables.model(), |t: TableInfo| t@);
        }
        self.tables.contains_key(table_name)
    }

    /// The table under `table_name`, on loan and open to change, if there is
    /// one. What the caller leaves in it is what the database then holds
    /// under that name.
    pub fn get_table_ref(&mut self, table_name: &String) -> (r: Option<&mut TableInfo>)
        requires
            old(self).wf(),
        ensures
            match r {
                Some(table) => has_key(old(self)@, table_name@) && table@ == value_of(
                    old(self)@,
                    table_name@,
                ) && table.wf() && final(self)@ == upsert(
                    old(self)@,
                    table_name@,
                    (*final(table))@,
                ) && (final(table).wf() ==> final(self).wf()),
                None => !has_key(old(self)@, table_name@) && final(self)@ == old(self)@,
            },
    {
        let ghost f = |t: TableInfo| t@;
        proof {
            map_values_keeps_keys(self.tables.model(), f);
            assert forall|t: TableInfoView| valid_table(t) implies valid_database(
                upsert(self@, table_name@, t),
            ) by {
                upsert_keeps_valid(self@, table_name@, t);
            }
        }
        match self.tables.position(table_name) {
            Some(i) => {
                proof {
                    index_is_unique(self@, table_name@, i as int);
                }
                Some(self.tables.value_at_mut(i))
            },
            None => None,
        }
    }
}

} // verus!
