use minisql::ast::{
    CharacterLength, ColumnDef, ColumnOption, DataType, Expr, Query, ReferentialAction,
    ScalarType, Select, SelectItem, SetExpr, Statement, TableFactor, TableWithJoins, Token, Value,
};
use minisql::data_descriptor::{ColumnProperties, DataBase, SelectFields};
use minisql::error::{DbError, Feature, SchemaFault};
use minisql::executor::{
    column_properties, copy_rows, fetch, only_wildcards, read_rows, rows_of, schema_parts,
    target_of, write_rows, Execute, Step, SuccessStatus,
};

fn text(s: &str) -> String {
    s.to_string()
}

fn some(s: &str) -> Option<String> {
    Some(s.to_string())
}

fn names(list: &[&str]) -> Vec<String> {
    list.iter().map(|s| s.to_string()).collect()
}

fn number(s: &str) -> Expr {
    Expr::Value(Value::Number(s.to_string(), false))
}

fn string(s: &str) -> Expr {
    Expr::Value(Value::SingleQuotedString(s.to_string()))
}

fn null() -> Expr {
    Expr::Value(Value::Null)
}

fn varchar(n: u64) -> DataType {
    DataType::Scalar(ScalarType::Varchar(Some(CharacterLength::IntegerLength {
        length: n,
        unit: None,
    })))
}

fn word(s: &str) -> Token {
    Token::Word(s.to_string())
}

/// CREATE TABLE users (
///     id BIGINT(20) PRIMARY KEY AUTO_INCREMENT,
///     name VARCHAR(255) NOT NULL,
///     password VARCHAR(255) NULL)
fn create_users() -> Statement {
    Statement::CreateTable {
        name: text("users"),
        columns: vec![
            ColumnDef {
                name: text("id"),
                data_type: DataType::Scalar(ScalarType::BigInt(Some(20))),
                options: vec![
                    ColumnOption::Unique { is_primary: true },
                    ColumnOption::DialectSpecific(vec![word("AUTO_INCREMENT")]),
                ],
            },
            ColumnDef {
                name: text("name"),
                data_type: varchar(255),
                options: vec![ColumnOption::NotNull],
            },
            ColumnDef {
                name: text("password"),
                data_type: varchar(255),
                options: vec![ColumnOption::Null],
            },
        ],
    }
}

fn values(rows: Vec<Vec<Expr>>) -> Option<Query> {
    Some(Query { body: SetExpr::Values(rows), order_by: Vec::new(), limit: None, clauses: Vec::new() })
}

fn insert_users(rows: Vec<Vec<Expr>>) -> Statement {
    Statement::Insert {
        table_name: text("users"),
        columns: names(&["id", "name", "password"]),
        source: values(rows),
    }
}

fn from(name: &str) -> Vec<TableWithJoins> {
    vec![TableWithJoins { relation: TableFactor::Table { name: text(name) }, joins: 0 }]
}

fn select(projection: Vec<SelectItem>, from: Vec<TableWithJoins>) -> Query {
    Query {
        body: SetExpr::Select(Select { projection, from, selection: None, clauses: Vec::new() }),
        order_by: Vec::new(),
        limit: None,
        clauses: Vec::new(),
    }
}

fn select_all(name: &str) -> Statement {
    Statement::Query(select(vec![SelectItem::Wildcard], from(name)))
}

fn decode(status: Result<SuccessStatus, String>) -> Vec<Vec<Option<String>>> {
    match status {
        Ok(SuccessStatus::DataFetched(bytes)) => bitcode::decode(&bytes).unwrap(),
        other => panic!("no rows: {:?}", other),
    }
}

fn message(status: Result<SuccessStatus, String>) -> String {
    match status {
        Err(message) => message,
        other => panic!("no error: {:?}", other),
    }
}

fn users_with(rows: Vec<Vec<Expr>>) -> DataBase {
    let mut db = DataBase::new();
    create_users().execute(&mut db).unwrap();
    insert_users(rows).execute(&mut db).unwrap();
    db
}

#[test]
fn create_table_reports_the_name() {
    let mut db = DataBase::new();
    assert!(!db.table_exists(&text("users")));
    match create_users().execute(&mut db) {
        Ok(SuccessStatus::TableCreated(name)) => assert_eq!(name, "users"),
        other => panic!("{:?}", other),
    }
    assert!(db.table_exists(&text("users")));
    assert!(!db.table_exists(&text("Users")));
    assert!(db.get_table(&text("users")).is_some());
    assert!(db.get_table(&text("other")).is_none());
    assert!(db.get_table_ref(&text("other")).is_none());
    assert_eq!(db.get_table(&text("users")).unwrap().row_count(), 0);
}

#[test]
fn insert_reports_that_it_is_done() {
    let mut db = DataBase::new();
    create_users().execute(&mut db).unwrap();
    match insert_users(vec![vec![number("1"), string("admin"), string("secret")]]).execute(&mut db)
    {
        Ok(SuccessStatus::DataInserted) => {}
        other => panic!("{:?}", other),
    }
    assert_eq!(db.get_table(&text("users")).unwrap().row_count(), 1);
}

#[test]
fn inserted_rows_are_selected() {
    let mut db = users_with(vec![
        vec![number("1"), string("admin"), string("$2b$10$I6gmAyHE0r3TGZEnDP0O5e")],
        vec![number("2"), string("armando"), null()],
    ]);
    assert_eq!(
        decode(select_all("users").execute(&mut db)),
        vec![
            vec![some("1"), some("admin"), some("$2b$10$I6gmAyHE0r3TGZEnDP0O5e")],
            vec![some("2"), some("armando"), None],
        ]
    );
}

#[test]
fn every_kind_of_literal_round_trips() {
    let mut db = DataBase::new();
    Statement::CreateTable {
        name: text("t"),
        columns: vec![
            ColumnDef {
                name: text("n"),
                data_type: DataType::Scalar(ScalarType::Int(None)),
                options: vec![ColumnOption::Unique { is_primary: true }],
            },
            ColumnDef { name: text("s"), data_type: varchar(20), options: Vec::new() },
            ColumnDef {
                name: text("b"),
                data_type: DataType::Scalar(ScalarType::Boolean),
                options: Vec::new(),
            },
            ColumnDef {
                name: text("o"),
                data_type: DataType::Scalar(ScalarType::Date),
                options: vec![ColumnOption::Null],
            },
        ],
    }
    .execute(&mut db)
    .unwrap();
    Statement::Insert {
        table_name: text("t"),
        columns: names(&["n", "s", "b", "o"]),
        source: values(vec![
            vec![number("-42"), string("it's"), Expr::Value(Value::Boolean(true)), null()],
            vec![
                number("007"),
                Expr::Value(Value::DoubleQuotedString(text(""))),
                Expr::Value(Value::Boolean(false)),
                string("2024-01-15"),
            ],
        ]),
    }
    .execute(&mut db)
    .unwrap();
    assert_eq!(
        decode(select_all("t").execute(&mut db)),
        vec![
            vec![some("-42"), some("it's"), some("true"), None],
            vec![some("007"), some(""), some("false"), some("2024-01-15")],
        ]
    );
}

#[test]
fn later_insert_with_the_same_key_wins() {
    let mut db = users_with(vec![vec![number("1"), string("ann"), null()]]);
    insert_users(vec![vec![number("1"), string("eve"), string("pw")]]).execute(&mut db).unwrap();
    assert_eq!(
        decode(select_all("users").execute(&mut db)),
        vec![vec![some("1"), some("eve"), some("pw")]]
    );
}

#[test]
fn three_columns_and_two_values_are_a_schema_error() {
    let mut db = users_with(vec![vec![number("1"), string("ann"), null()]]);
    let stmt = insert_users(vec![vec![number("2"), string("bob")]]);
    assert_eq!(stmt.run(&mut db), Err(DbError::SchemaError(SchemaFault::RowArity)));
    assert_eq!(message(stmt.execute(&mut db)), "wrong number of values in a row");
    assert_eq!(db.get_table(&text("users")).unwrap().row_count(), 1);
    assert_eq!(
        decode(select_all("users").execute(&mut db)),
        vec![vec![some("1"), some("ann"), None]]
    );
}

#[test]
fn table_made_again_has_no_rows() {
    let mut db = users_with(vec![vec![number("1"), string("ann"), null()]]);
    assert_eq!(decode(select_all("users").execute(&mut db)).len(), 1);
    create_users().execute(&mut db).unwrap();
    assert_eq!(decode(select_all("users").execute(&mut db)), Vec::<Vec<Option<String>>>::new());
    assert_eq!(db.get_table(&text("users")).unwrap().row_count(), 0);
}

#[test]
fn table_made_again_takes_its_new_schema() {
    let mut db = users_with(vec![vec![number("1"), string("ann"), null()]]);
    Statement::CreateTable {
        name: text("users"),
        columns: vec![ColumnDef { name: text("x"), data_type: varchar(3), options: Vec::new() }],
    }
    .execute(&mut db)
    .unwrap();
    assert_eq!(
        insert_users(vec![vec![number("1"), string("ann"), null()]]).run(&mut db),
        Err(DbError::SchemaError(SchemaFault::ColumnCount))
    );
    Statement::Insert {
        table_name: text("users"),
        columns: names(&["x"]),
        source: values(vec![vec![string("abc")]]),
    }
    .execute(&mut db)
    .unwrap();
    assert_eq!(decode(select_all("users").execute(&mut db)), vec![vec![some("abc")]]);
}

#[test]
fn tables_are_apart() {
    let mut db = users_with(vec![vec![number("1"), string("ann"), null()]]);
    Statement::CreateTable {
        name: text("notes"),
        columns: vec![ColumnDef { name: text("x"), data_type: varchar(3), options: Vec::new() }],
    }
    .execute(&mut db)
    .unwrap();
    assert_eq!(decode(select_all("notes").execute(&mut db)).len(), 0);
    assert_eq!(decode(select_all("users").execute(&mut db)).len(), 1);
}

#[test]
fn each_wildcard_gives_the_rows_once() {
    let mut db = users_with(vec![vec![number("1"), string("ann"), null()]]);
    let once = match select_all("users").execute(&mut db) {
        Ok(SuccessStatus::DataFetched(bytes)) => bytes,
        other => panic!("{:?}", other),
    };
    let rows: Vec<Vec<Option<&str>>> = vec![vec![Some("1"), Some("ann"), None]];
    assert_eq!(once, bitcode::encode(&rows));
    let twice =
        Statement::Query(select(vec![SelectItem::Wildcard, SelectItem::Wildcard], from("users")));
    match twice.execute(&mut db) {
        Ok(SuccessStatus::DataFetched(bytes)) => {
            assert_eq!(bytes, [once.clone(), once.clone()].concat())
        }
        other => panic!("{:?}", other),
    }
    let none = Statement::Query(select(Vec::new(), from("users")));
    match none.execute(&mut db) {
        Ok(SuccessStatus::DataFetched(bytes)) => assert!(bytes.is_empty()),
        other => panic!("{:?}", other),
    }
}

#[test]
fn missing_table_is_not_found() {
    let mut db = DataBase::new();
    let insert = insert_users(vec![vec![number("1"), string("ann"), null()]]);
    assert_eq!(insert.run(&mut db), Err(DbError::NotFound(text("users"))));
    assert_eq!(message(insert.execute(&mut db)), "No table named users exists");
    let query = select_all("users");
    assert_eq!(query.run(&mut db), Err(DbError::NotFound(text("users"))));
    assert_eq!(message(query.execute(&mut db)), "No table named users exists");
    assert!(!db.table_exists(&text("users")));
}

#[test]
fn value_of_the_wrong_type_is_a_value_error() {
    let mut db = users_with(Vec::new());
    let stmt = insert_users(vec![vec![string("one"), string("ann"), null()]]);
    assert_eq!(stmt.run(&mut db), Err(DbError::ValueError));
    assert_eq!(
        message(stmt.execute(&mut db)),
        "a value does not fit the type of its column"
    );
    assert_eq!(db.get_table(&text("users")).unwrap().row_count(), 0);
}

#[test]
fn auto_increment_lets_the_key_be_null() {
    let mut db = users_with(vec![vec![null(), string("ann"), null()]]);
    assert_eq!(
        decode(select_all("users").execute(&mut db)),
        vec![vec![None, some("ann"), None]]
    );
    let named = insert_users(vec![vec![number("1"), null(), null()]]);
    assert_eq!(named.run(&mut db), Err(DbError::ValueError));
}

#[test]
fn unsupported_shapes_are_named() {
    let mut db = users_with(vec![vec![number("1"), string("ann"), null()]]);
    let run = |stmt: Statement, db: &mut DataBase| stmt.run(db);
    let unsupported = |f: Feature| Err(DbError::UnsupportedStatement(f));

    assert_eq!(run(Statement::Other(text("DROP TABLE users")), &mut db), unsupported(Feature::StatementKind));

    let body = Query {
        body: SetExpr::Other(text("a UNION b")),
        order_by: Vec::new(),
        limit: None,
        clauses: Vec::new(),
    };
    assert_eq!(run(Statement::Query(body), &mut db), unsupported(Feature::QueryBody));
    let body = Query {
        body: SetExpr::Values(Vec::new()),
        order_by: Vec::new(),
        limit: None,
        clauses: Vec::new(),
    };
    assert_eq!(run(Statement::Query(body), &mut db), unsupported(Feature::QueryBody));

    let mut ordered = select(vec![SelectItem::Wildcard], from("users"));
    ordered.order_by = vec![Expr::Other(text("id"))];
    assert_eq!(run(Statement::Query(ordered), &mut db), unsupported(Feature::OrderBy));

    let mut limited = select(vec![SelectItem::Wildcard], from("users"));
    limited.limit = Some(number("1"));
    assert_eq!(run(Statement::Query(limited), &mut db), unsupported(Feature::Limit));

    let filtered = Query {
        body: SetExpr::Select(Select {
            projection: vec![SelectItem::Wildcard],
            from: from("users"),
            selection: Some(Expr::Other(text("id = 1"))),
            clauses: Vec::new(),
        }),
        order_by: Vec::new(),
        limit: None,
        clauses: Vec::new(),
    };
    assert_eq!(run(Statement::Query(filtered), &mut db), unsupported(Feature::Filter));

    let mut offset = select(vec![SelectItem::Wildcard], from("users"));
    offset.clauses = vec![text("OFFSET 1")];
    assert_eq!(run(Statement::Query(offset), &mut db), unsupported(Feature::Clause));
    let grouped = Query {
        body: SetExpr::Select(Select {
            projection: vec![SelectItem::Wildcard],
            from: from("users"),
            selection: None,
            clauses: vec![text("GROUP BY id")],
        }),
        order_by: Vec::new(),
        limit: None,
        clauses: Vec::new(),
    };
    assert_eq!(run(Statement::Query(grouped), &mut db), unsupported(Feature::Clause));

    let none = select(vec![SelectItem::Wildcard], Vec::new());
    assert_eq!(run(Statement::Query(none), &mut db), unsupported(Feature::TableList));
    let two = select(vec![SelectItem::Wildcard], [from("users"), from("users")].concat_tables());
    assert_eq!(run(Statement::Query(two), &mut db), unsupported(Feature::TableList));

    let joined = select(
        vec![SelectItem::Wildcard],
        vec![TableWithJoins { relation: TableFactor::Table { name: text("users") }, joins: 1 }],
    );
    assert_eq!(run(Statement::Query(joined), &mut db), unsupported(Feature::Join));

    let derived = select(
        vec![SelectItem::Wildcard],
        vec![TableWithJoins { relation: TableFactor::Other(text("(SELECT 1)")), joins: 0 }],
    );
    assert_eq!(run(Statement::Query(derived), &mut db), unsupported(Feature::TableSource));

    let named = select(vec![SelectItem::Column(text("id"))], from("users"));
    assert_eq!(run(Statement::Query(named), &mut db), unsupported(Feature::Projection));
    let mixed = select(vec![SelectItem::Wildcard, SelectItem::Other(text("1 + 1"))], from("users"));
    assert_eq!(run(Statement::Query(mixed), &mut db), unsupported(Feature::Projection));

    let from_query = Statement::Insert {
        table_name: text("users"),
        columns: names(&["id", "name", "password"]),
        source: Some(select(vec![SelectItem::Wildcard], from("users"))),
    };
    assert_eq!(run(from_query, &mut db), unsupported(Feature::InsertSource));
    let from_nothing = Statement::Insert {
        table_name: text("users"),
        columns: names(&["id", "name", "password"]),
        source: None,
    };
    assert_eq!(run(from_nothing, &mut db), unsupported(Feature::InsertSource));

    let computed = insert_users(vec![vec![number("2"), Expr::Other(text("upper('x')")), null()]]);
    assert_eq!(run(computed, &mut db), unsupported(Feature::InsertExpression));

    assert_eq!(
        decode(select_all("users").execute(&mut db)),
        vec![vec![some("1"), some("ann"), None]]
    );
}

trait ConcatTables {
    fn concat_tables(self) -> Vec<TableWithJoins>;
}

impl ConcatTables for [Vec<TableWithJoins>; 2] {
    fn concat_tables(self) -> Vec<TableWithJoins> {
        self.into_iter().flatten().collect()
    }
}

#[test]
fn faults_are_found_in_their_order() {
    let mut db = DataBase::new();
    let named = Statement::Query(select(vec![SelectItem::Column(text("id"))], from("users")));
    assert_eq!(named.run(&mut db), Err(DbError::NotFound(text("users"))));
    let from_nothing = Statement::Insert {
        table_name: text("users"),
        columns: names(&["id"]),
        source: None,
    };
    assert_eq!(from_nothing.run(&mut db), Err(DbError::NotFound(text("users"))));
    let ordered = Query {
        body: SetExpr::Select(Select {
            projection: vec![SelectItem::Column(text("id"))],
            from: from("users"),
            selection: None,
            clauses: Vec::new(),
        }),
        order_by: vec![Expr::Other(text("id"))],
        limit: None,
        clauses: Vec::new(),
    };
    assert_eq!(
        Statement::Query(ordered).run(&mut db),
        Err(DbError::UnsupportedStatement(Feature::OrderBy))
    );
    create_users().execute(&mut db).unwrap();
    let bad_columns = Statement::Insert {
        table_name: text("users"),
        columns: names(&["id"]),
        source: None,
    };
    assert_eq!(
        bad_columns.run(&mut db),
        Err(DbError::UnsupportedStatement(Feature::InsertSource))
    );
}

#[test]
fn every_error_has_its_message() {
    let says = |e: DbError| e.message();
    assert_eq!(says(DbError::SchemaError(SchemaFault::ColumnCount)), "wrong number of columns");
    assert_eq!(
        says(DbError::SchemaError(SchemaFault::UnknownColumn)),
        "the column list does not exist for table"
    );
    assert_eq!(
        says(DbError::SchemaError(SchemaFault::ColumnSet)),
        "the column list does not name every column of the table once"
    );
    assert_eq!(
        says(DbError::SchemaError(SchemaFault::RowArity)),
        "wrong number of values in a row"
    );
    assert_eq!(says(DbError::ValueError), "a value does not fit the type of its column");
    assert_eq!(says(DbError::NotFound(text("t"))), "No table named t exists");
    assert_eq!(says(DbError::NotFound(text(""))), "No table named  exists");
    assert_eq!(says(DbError::LockError), "the lock of the table is poisoned");
    for (feature, words) in [
        (Feature::StatementKind, "not yet implemented: this kind of statement"),
        (Feature::QueryBody, "not yet implemented: a query that is no plain SELECT"),
        (Feature::TableList, "not yet implemented: a SELECT from no table or from several"),
        (Feature::Join, "not yet implemented: JOIN"),
        (Feature::TableSource, "not yet implemented: a source that is no table"),
        (Feature::Filter, "not yet implemented: WHERE"),
        (Feature::OrderBy, "not yet implemented: ORDER BY"),
        (Feature::Limit, "not yet implemented: LIMIT"),
        (Feature::Clause, "not yet implemented: a clause of the query"),
        (Feature::Projection, "not yet implemented: a projection other than *"),
        (Feature::InsertSource, "not yet implemented: an insert without VALUES"),
        (Feature::InsertExpression, "only raw values are supported for insert"),
    ] {
        assert_eq!(says(DbError::UnsupportedStatement(feature)), words);
    }
}

#[test]
fn unsupported_statement_says_so_in_words() {
    let mut db = DataBase::new();
    assert_eq!(
        message(Statement::Other(text("DROP TABLE users")).execute(&mut db)),
        "not yet implemented: this kind of statement"
    );
}

#[test]
fn column_options_become_properties() {
    let column = ColumnDef {
        name: text("c"),
        data_type: varchar(3),
        options: vec![
            ColumnOption::Null,
            ColumnOption::NotNull,
            ColumnOption::Default(number("0")),
            ColumnOption::Unique { is_primary: false },
            ColumnOption::Unique { is_primary: true },
            ColumnOption::ForeignKey {
                foreign_table: text("other"),
                referred_columns: names(&["a", "b"]),
                on_delete: Some(ReferentialAction::Cascade),
                on_update: None,
            },
            ColumnOption::OnUpdate(Expr::Other(text("now()"))),
            ColumnOption::DialectSpecific(vec![word("AUTO_INCREMENT")]),
            ColumnOption::DialectSpecific(vec![Token::Other(text("(")), word("x")]),
            ColumnOption::DialectSpecific(Vec::new()),
            ColumnOption::Other,
        ],
    };
    let mut primary_keys = names(&["p"]);
    let mut indexes = names(&["i"]);
    let properties = column_properties(&column, &mut primary_keys, &mut indexes);
    assert_eq!(primary_keys, names(&["p", "c"]));
    assert_eq!(indexes, names(&["i", "c", "c"]));
    assert_eq!(properties.len(), 9);
    assert!(matches!(properties[0], ColumnProperties::Null));
    assert!(matches!(properties[1], ColumnProperties::NotNull));
    assert!(matches!(
        &properties[2],
        ColumnProperties::Default(Expr::Value(Value::Number(n, false))) if n == "0"
    ));
    assert!(matches!(properties[3], ColumnProperties::Unique));
    assert!(matches!(properties[4], ColumnProperties::PrimaryKey));
    assert!(matches!(properties[5], ColumnProperties::Unique));
    match &properties[6] {
        ColumnProperties::ForeignKey { foreign_table, referred_columns, on_delete, on_update } => {
            assert_eq!(foreign_table, "other");
            assert_eq!(referred_columns, &names(&["a", "b"]));
            assert_eq!(*on_delete, Some(ReferentialAction::Cascade));
            assert_eq!(*on_update, None);
        }
        other => panic!("{:?}", other),
    }
    assert!(matches!(
        &properties[7],
        ColumnProperties::OnUpdate(Expr::Other(t)) if t == "now()"
    ));
    assert!(matches!(properties[8], ColumnProperties::AutoIncrement));
}

#[test]
fn schema_comes_from_the_column_definitions() {
    let columns = match create_users() {
        Statement::CreateTable { columns, .. } => columns,
        _ => unreachable!(),
    };
    let (primary_keys, indexes, schema) = schema_parts(&columns);
    assert_eq!(primary_keys, names(&["id"]));
    assert_eq!(indexes, names(&["id"]));
    assert_eq!(schema.len(), 3);
    assert_eq!(schema.key_at(0), "id");
    assert_eq!(schema.key_at(1), "name");
    assert_eq!(schema.key_at(2), "password");
    assert!(schema.value_at(0).nullable());
    assert!(!schema.value_at(1).nullable());
    assert!(schema.value_at(2).nullable());
    assert!(matches!(
        schema.value_at(0).declared_type,
        DataType::Scalar(ScalarType::BigInt(Some(20)))
    ));
}

#[test]
fn column_defined_twice_keeps_its_last_definition() {
    let columns = vec![
        ColumnDef {
            name: text("a"),
            data_type: varchar(3),
            options: vec![ColumnOption::Unique { is_primary: true }],
        },
        ColumnDef { name: text("b"), data_type: varchar(3), options: Vec::new() },
        ColumnDef {
            name: text("a"),
            data_type: DataType::Scalar(ScalarType::Boolean),
            options: vec![ColumnOption::Null],
        },
    ];
    let (primary_keys, indexes, schema) = schema_parts(&columns);
    assert_eq!(primary_keys, names(&["a"]));
    assert_eq!(indexes, names(&["a"]));
    assert_eq!(schema.len(), 2);
    assert_eq!(schema.key_at(0), "a");
    assert_eq!(schema.key_at(1), "b");
    assert!(matches!(schema.value_at(0).declared_type, DataType::Scalar(ScalarType::Boolean)));
    assert_eq!(schema.value_at(0).properties.len(), 1);
}

#[test]
fn pieces_of_a_query() {
    assert!(only_wildcards(&Vec::new()));
    assert!(only_wildcards(&vec![SelectItem::Wildcard, SelectItem::Wildcard]));
    assert!(!only_wildcards(&vec![SelectItem::Wildcard, SelectItem::Column(text("a"))]));
    let query = select(vec![SelectItem::Wildcard], from("users"));
    match target_of(&query) {
        Ok((name, items)) => {
            assert_eq!(name, "users");
            assert_eq!(items.len(), 1);
        }
        Err(feature) => panic!("{:?}", feature),
    }
    let rows = vec![vec![number("1"), null()], Vec::new(), vec![Expr::Other(text("f(x)"))]];
    let copy = copy_rows(&rows);
    assert_eq!(format!("{:?}", copy), format!("{:?}", rows));
    let source = values(rows);
    assert_eq!(format!("{:?}", rows_of(&source).unwrap()), format!("{:?}", copy));
    assert_eq!(rows_of(&None).unwrap_err(), DbError::UnsupportedStatement(Feature::InsertSource));
}

#[test]
fn fetch_reads_a_table() {
    let db = users_with(vec![vec![number("1"), string("ann"), null()]]);
    let table = db.get_table(&text("users")).unwrap();
    let bytes = fetch(table, &vec![SelectItem::Wildcard]).unwrap();
    let rows: Vec<Vec<Option<String>>> = bitcode::decode(&bytes).unwrap();
    assert_eq!(rows, vec![vec![some("1"), some("ann"), None]]);
    assert_eq!(
        fetch(table, &vec![SelectItem::Column(text("id"))]),
        Err(DbError::UnsupportedStatement(Feature::Projection))
    );
    assert_eq!(table.find_all(SelectFields::NamedFields(names(&["name"]))).len(), 1);
}

#[test]
fn table_on_loan_can_be_changed() {
    let mut db = users_with(vec![vec![number("1"), string("ann"), null()]]);
    {
        let table = db.get_table_ref(&text("users")).unwrap();
        table
            .insert_values(
                &names(&["id", "name", "password"]),
                vec![vec![number("2"), string("bob"), null()]],
            )
            .unwrap();
    }
    assert_eq!(
        decode(select_all("users").execute(&mut db)),
        vec![vec![some("1"), some("ann"), None], vec![some("2"), some("bob"), None]]
    );
}

#[test]
fn statements_say_what_they_ask_of_the_tables() {
    match create_users().step() {
        Step::Create { name, primary_keys, indexes, schema } => {
            assert_eq!(name, "users");
            assert_eq!(primary_keys, names(&["id"]));
            assert_eq!(indexes, names(&["id"]));
            assert_eq!(schema.len(), 3);
        }
        other => panic!("{:?}", other),
    }
    match insert_users(vec![vec![number("1")]]).step() {
        Step::Write { table_name, columns, source } => {
            assert_eq!(table_name, "users");
            assert_eq!(columns, &names(&["id", "name", "password"]));
            assert!(source.is_some());
        }
        other => panic!("{:?}", other),
    }
    match select_all("users").step() {
        Step::Read { table_name, items } => {
            assert_eq!(table_name, "users");
            assert_eq!(items.len(), 1);
        }
        other => panic!("{:?}", other),
    }
    assert!(matches!(
        Statement::Query(select(vec![SelectItem::Wildcard], Vec::new())).step(),
        Step::Refuse(Feature::TableList)
    ));
    assert!(matches!(Statement::Other(text("COMMIT")).step(), Step::Refuse(Feature::StatementKind)));
}

#[test]
fn rows_are_written_and_read_on_a_table() {
    let mut db = users_with(Vec::new());
    let table = db.get_table_ref(&text("users")).unwrap();
    let columns = names(&["id", "name", "password"]);
    assert_eq!(
        write_rows(table, &columns, &values(vec![vec![number("1"), string("ann"), null()]])),
        Ok(SuccessStatus::DataInserted)
    );
    assert_eq!(
        write_rows(table, &columns, &None),
        Err(DbError::UnsupportedStatement(Feature::InsertSource))
    );
    assert_eq!(
        write_rows(table, &columns, &values(vec![vec![number("2"), null(), null()]])),
        Err(DbError::ValueError)
    );
    assert_eq!(table.row_count(), 1);
    match read_rows(table, &vec![SelectItem::Wildcard]) {
        Ok(SuccessStatus::DataFetched(bytes)) => {
            let rows: Vec<Vec<Option<String>>> = bitcode::decode(&bytes).unwrap();
            assert_eq!(rows, vec![vec![some("1"), some("ann"), None]]);
        }
        other => panic!("{:?}", other),
    }
    assert_eq!(
        read_rows(table, &vec![SelectItem::Other(text("count(*)"))]),
        Err(DbError::UnsupportedStatement(Feature::Projection))
    );
}
