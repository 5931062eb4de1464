//! What holds of the store, whatever it holds.

use vstd::prelude::*;
use crate::ast::{views, DataTypeView, ExprView, Query, Statement, ValueView};
use crate::data_descriptor::{
    cell_text,
    composite_key,
    faultless_names_cover,
    insert_fault,
    inserted,
    names_fault,
    row_of,
    staged,
    valid_database,
    valid_table,
    DataBaseView,
    TableInfoView,
};
use crate::error::{DbErrorView, SchemaFault};
use crate::executor::{
    all_rows,
    all_wildcards,
    executed,
    query_items,
    query_target,
    repeated,
    selected,
    source_rows,
    SuccessView,
};
use crate::outside::encoded_rows;
use crate::text_map::{
    has_key,
    index_is_unique,
    index_of,
    keys,
    upsert,
    upsert_all,
    upsert_keeps_distinct,
    upsert_twice,
    value_of,
};
use crate::validators::{member_text, valid_for};

verus! {

/// What a read of all columns of `t` gives for the row under `key`, in the
/// place of `column`.
pub open spec fn read_value(t: TableInfoView, key: Seq<char>, column: Seq<char>) -> Option<
    Seq<char>,
> {
    all_rows(t)[index_of(t.rows, key)][index_of(t.columns, column)]
}

/// What was inserted is what is read. After a row went into a table, the
/// table has a row under the row's key, and a read of all columns gives, in
/// the place of each column, the text of the literal that the insert had for
/// that column: a number or a string as it was written, `true` or `false`
/// for a boolean, and no text for `NULL`.
pub proof fn inserted_row_reads_back(t: TableInfoView, names: Seq<Seq<char>>, row: Seq<ExprView>)
    requires
        valid_table(t),
        insert_fault(t, names, seq![row]) is None,
    ensures
        has_key(inserted(t, names, seq![row]).rows, composite_key(names, t.primary_keys, row)),
        forall|i: int|
            0 <= i < names.len() ==> read_value(
                inserted(t, names, seq![row]),
                composite_key(names, t.primary_keys, row),
                #[trigger] names[i],
            ) == cell_text(row[i]),
{
    let key = composite_key(names, t.primary_keys, row);
    let kept = row_of(names, row, names.len() as int);
    let after = inserted(t, names, seq![row]);
    let pending = staged(names, t.primary_keys, seq![row]);
    assert(pending[0] == (key, kept));
    assert(upsert_all(t.rows, pending, 0) == t.rows);
    assert(after.rows == upsert(t.rows, key, kept));
    upsert_keeps_distinct(t.rows, key, kept);
    faultless_names_cover(t.columns, names);
    let at = index_of(after.rows, key);
    assert(after.rows[at].1 == kept);
    assert forall|x: int, y: int| 0 <= x < y < kept.len() implies (#[trigger] kept[x]).0 != (
    #[trigger] kept[y]).0 by {
        assert(names[x] != names[y]);
    }
    assert forall|i: int| 0 <= i < names.len() implies read_value(
        after,
        key,
        #[trigger] names[i],
    ) == cell_text(row[i]) by {
        let c = index_of(t.columns, names[i]);
        assert(has_key(t.columns, names[i]));
        assert(0 <= c < t.columns.len() && t.columns[c].0 == names[i]);
        assert(keys(t.columns)[c] == names[i]);
        assert(kept[i].0 == names[i]);
        index_is_unique(kept, names[i], i);
    }
}

/// The last write wins. Of two rows with the same key in one insert, the
/// table keeps what the second alone would have left.
pub proof fn last_write_wins(
    t: TableInfoView,
    names: Seq<Seq<char>>,
    first: Seq<ExprView>,
    second: Seq<ExprView>,
)
    requires
        valid_table(t),
        composite_key(names, t.primary_keys, first) == composite_key(
            names,
            t.primary_keys,
            second,
        ),
    ensures
        inserted(t, names, seq![first, second]) == inserted(t, names, seq![second]),
{
    let key = composite_key(names, t.primary_keys, second);
    let one = row_of(names, first, names.len() as int);
    let two = row_of(names, second, names.len() as int);
    let both = staged(names, t.primary_keys, seq![first, second]);
    let last = staged(names, t.primary_keys, seq![second]);
    assert(both[0] == (key, one));
    assert(both[1] == (key, two));
    assert(last[0] == (key, two));
    assert(upsert_all(t.rows, both, 0) == t.rows);
    assert(upsert_all(t.rows, both, 1) == upsert(t.rows, key, one));
    assert(upsert_all(t.rows, both, 2) == upsert(upsert(t.rows, key, one), key, two));
    assert(upsert_all(t.rows, last, 0) == t.rows);
    assert(upsert_all(t.rows, last, 1) == upsert(t.rows, key, two));
    upsert_twice(t.rows, key, one, two);
}

/// The last write wins from one insert to the next as well: a row that goes
/// in under the key of a row that went in before leaves what it alone would
/// have left.
pub proof fn later_insert_wins(
    t: TableInfoView,
    names: Seq<Seq<char>>,
    first: Seq<ExprView>,
    second: Seq<ExprView>,
)
    requires
        valid_table(t),
        composite_key(names, t.primary_keys, first) == composite_key(
            names,
            t.primary_keys,
            second,
        ),
    ensures
        inserted(inserted(t, names, seq![first]), names, seq![second]) == inserted(
            t,
            names,
            seq![second],
        ),
{
    let key = composite_key(names, t.primary_keys, second);
    let one = row_of(names, first, names.len() as int);
    let two = row_of(names, second, names.len() as int);
    let head = staged(names, t.primary_keys, seq![first]);
    let last = staged(names, t.primary_keys, seq![second]);
    let mid = inserted(t, names, seq![first]);
    assert(head[0] == (key, one));
    assert(last[0] == (key, two));
    assert(upsert_all(t.rows, head, 0) == t.rows);
    assert(mid.rows == upsert(t.rows, key, one));
    assert(upsert_all(mid.rows, last, 0) == mid.rows);
    assert(upsert_all(t.rows, last, 0) == t.rows);
    upsert_twice(t.rows, key, one, two);
}

/// A row with more or fewer values than the column list has names is
/// refused for its shape, where nothing before it is at fault.
pub proof fn short_row_is_refused(t: TableInfoView, names: Seq<Seq<char>>, row: Seq<ExprView>)
    requires
        names_fault(t.columns, names) is None,
        row.len() != names.len(),
    ensures
        insert_fault(t, names, seq![row]) == Some(
            DbErrorView::SchemaError(SchemaFault::RowArity),
        ),
{
    reveal_with_fuel(crate::data_descriptor::rows_fault, 2);
}

/// A statement that fails changes nothing.
pub proof fn failed_statement_changes_nothing(stmt: Statement, db: DataBaseView)
    requires
        valid_database(db),
        executed(stmt, db).0 is Err,
    ensures
        executed(stmt, db).1 == db,
{
    if stmt is Insert && has_key(db, stmt->table_name@) {
        let at = index_of(db, stmt->table_name@);
        assert(executed(stmt, db).1 =~= db);
    }
}

/// A table that is made again is empty. After a `CREATE TABLE`, whatever
/// the database held under that name, the table of that name has no rows,
/// and a query that reads all of it gets the bytes of no rows.
pub proof fn recreated_table_is_empty(
    stmt: Statement,
    db: DataBaseView,
    query: Query,
)
    requires
        valid_database(db),
        stmt is CreateTable,
        query_target(query) == Ok::<Seq<char>, crate::error::Feature>(stmt->name@),
        all_wildcards(query_items(query)),
    ensures
        has_key(executed(stmt, db).1, stmt->name@),
        value_of(executed(stmt, db).1, stmt->name@).rows.len() == 0,
        all_rows(value_of(executed(stmt, db).1, stmt->name@)).len() == 0,
        selected(query, executed(stmt, db).1) == Ok::<SuccessView, DbErrorView>(
            SuccessView::DataFetched(
                repeated(encoded_rows(Seq::empty()), query_items(query).len() as int),
            ),
        ),
{
    let after = executed(stmt, db).1;
    let name = stmt->name@;
    upsert_keeps_distinct(db, name, value_of(after, name));
    let made = crate::executor::created_table(name, stmt->CreateTable_columns@);
    upsert_keeps_distinct(db, name, made);
    assert(value_of(after, name) == made);
    assert(all_rows(made) =~= Seq::empty());
}

/// What an insert left is what a query reads. After an insert that went
/// well, a query for all columns of the same table returns, once for each
/// `*`, the bytes of the rows of the table as the insert left it.
pub proof fn query_reads_what_insert_left(
    insert: Statement,
    db: DataBaseView,
    query: Query,
)
    requires
        valid_database(db),
        insert is Insert,
        executed(insert, db).0 is Ok,
        query_target(query) == Ok::<Seq<char>, crate::error::Feature>(insert->table_name@),
        all_wildcards(query_items(query)),
    ensures
        has_key(db, insert->table_name@),
        source_rows(insert->source) is Some,
        selected(query, executed(insert, db).1) == Ok::<SuccessView, DbErrorView>(
            SuccessView::DataFetched(
                repeated(
                    encoded_rows(
                        all_rows(
                            inserted(
                                value_of(db, insert->table_name@),
                                views(insert->Insert_columns@),
                                source_rows(insert->source)->0,
                            ),
                        ),
                    ),
                    query_items(query).len() as int,
                ),
            ),
        ),
{
    let name = insert->table_name@;
    let rows = source_rows(insert->source)->0;
    let after = inserted(value_of(db, name), views(insert->Insert_columns@), rows);
    upsert_keeps_distinct(db, name, after);
}

/// A literal that is no member of an enumeration is no value of it,
/// whatever quotes it stands in. Of a literal other than `NULL`, a type of
/// members takes only a string in single quotes, in double quotes or in
/// none whose text is one of the members.
pub proof fn enum_takes_members_only(members: Seq<Seq<char>>, v: ValueView, nullable: bool)
    requires
        !(v is Null),
    ensures
        valid_for(DataTypeView::Enum(members), v, nullable) == (member_text(v) matches Some(t)
            && members.contains(t)),
        valid_for(DataTypeView::SetOf(members), v, nullable) == (member_text(v) matches Some(t)
            && members.contains(t)),
{
}

} // verus!
