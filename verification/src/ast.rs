//! The parsed statements that the store executes.
//!
//! A parser outside this crate reads SQL text; its caller hands the result
//! over in these types. They hold what the store reads of a statement and
//! nothing else. Text is held as `String`; the contracts speak of it through
//! views, in which it is a `Seq<char>`.

use vstd::prelude::*;

verus! {

/// The views of the items of `s`, in order.
pub open spec fn views<T: View>(s: Seq<T>) -> Seq<T::V> {
    Seq::new(s.len(), |i: int| s[i]@)
}

/// What an optional text holds, as a view.
pub open spec fn opt_text(o: Option<String>) -> Option<Seq<char>> {
    match o {
        Some(s) => Some(s@),
        None => None,
    }
}

/// A copy of a list of texts.
pub fn copy_texts(v: &Vec<String>) -> (r: Vec<String>)
    ensures
        views(r@) == views(v@),
{
    let mut out: Vec<String> = Vec::new();
    let mut i: usize = 0;
    while i < v.len()
        invariant
            i <= v.len(),
            out.len() == i,
            forall|j: int| 0 <= j < i ==> out@[j]@ == v@[j]@,
        decreases v.len() - i,
    {
        out.push(v[i].clone());
        i += 1;
    }
    assert(views(out@) =~= views(v@));
    out
}

/// Whether `text` is one of `list`.
pub fn contains_text(list: &Vec<String>, text: &String) -> (r: bool)
    ensures
        r == views(list@).contains(text@),
{
    let ghost members = views(list@);
    let mut i: usize = 0;
    while i < list.len()
        invariant
            i <= list.len(),
            members == views(list@),
            forall|j: int| 0 <= j < i ==> members[j] != text@,
        decreases list.len() - i,
    {
        if list[i] == *text {
            assert(members[i as int] == text@);
            return true;
        }
        i += 1;
    }
    false
}

/// The unit in which a character type counts its length.
#[derive(Clone, Copy, Debug, PartialEq, Eq)]
pub enum CharLengthUnits {
    Characters,
    Octets,
}

/// The length that a character type declares.
#[derive(Clone, Copy, Debug, PartialEq, Eq)]
pub enum CharacterLength {
    IntegerLength { length: u64, unit: Option<CharLengthUnits> },
    /// `VARCHAR(MAX)`: as long as the store allows.
    Max,
}

/// The precision and scale that an exact numeric type declares.
#[derive(Clone, Copy, Debug, PartialEq, Eq)]
pub enum ExactNumberInfo {
    Unstated,
    Precision(u64),
    PrecisionAndScale(u64, u64),
}

/// What a time type says of time zones.
#[derive(Clone, Copy, Debug, PartialEq, Eq)]
pub enum TimezoneInfo {
    Unstated,
    WithTimeZone,
    WithoutTimeZone,
    Tz,
}

/// A declared type that has numbers for parameters at most.
#[derive(Clone, Copy, Debug, PartialEq, Eq)]
pub enum ScalarType {
    Character(Option<CharacterLength>),
    Char(Option<CharacterLength>),
    CharacterVarying(Option<CharacterLength>),
    CharVarying(Option<CharacterLength>),
    Varchar(Option<CharacterLength>),
    Nvarchar(Option<u64>),
    Uuid,
    CharacterLargeObject(Option<u64>),
    CharLargeObject(Option<u64>),
    Clob(Option<u64>),
    Binary(Option<u64>),
    Varbinary(Option<u64>),
    Blob(Option<u64>),
    Bytes(Option<u64>),
    Numeric(ExactNumberInfo),
    Decimal(ExactNumberInfo),
    BigNumeric(ExactNumberInfo),
    BigDecimal(ExactNumberInfo),
    Dec(ExactNumberInfo),
    Float(Option<u64>),
    TinyInt(Option<u64>),
    UnsignedTinyInt(Option<u64>),
    Int2(Option<u64>),
    UnsignedInt2(Option<u64>),
    SmallInt(Option<u64>),
    UnsignedSmallInt(Option<u64>),
    MediumInt(Option<u64>),
    UnsignedMediumInt(Option<u64>),
    Int(Option<u64>),
    Int4(Option<u64>),
    Int64,
    Integer(Option<u64>),
    UnsignedInt(Option<u64>),
    UnsignedInt4(Option<u64>),
    UnsignedInteger(Option<u64>),
    BigInt(Option<u64>),
    UnsignedBigInt(Option<u64>),
    Int8(Option<u64>),
    UnsignedInt8(Option<u64>),
    Float4,
    Float64,
    Real,
    Float8,
    Double,
    DoublePrecision,
    Bool,
    Boolean,
    Date,
    Time(Option<u64>, TimezoneInfo),
    Datetime(Option<u64>),
    Timestamp(Option<u64>, TimezoneInfo),
    Interval,
    Json,
    Jsonb,
    Regclass,
    Text,
    Str(Option<u64>),
    Bytea,
    Unspecified,
}

/// The type that a column declares.
#[derive(Debug)]
pub enum DataType {
    Scalar(ScalarType),
    /// `ENUM(..)`, with its members.
    Enum(Vec<String>),
    /// `SET(..)`, with its members.
    SetOf(Vec<String>),
    /// A type that the store does not know, as it was written.
    Other(String),
}

pub enum DataTypeView {
    Scalar(ScalarType),
    Enum(Seq<Seq<char>>),
    SetOf(Seq<Seq<char>>),
    Other(Seq<char>),
}

impl View for DataType {
    type V = DataTypeView;

    open spec fn view(&self) -> DataTypeView {
        match *self {
            DataType::Scalar(s) => DataTypeView::Scalar(s),
            DataType::Enum(m) => DataTypeView::Enum(views(m@)),
            DataType::SetOf(m) => DataTypeView::SetOf(views(m@)),
            DataType::Other(t) => DataTypeView::Other(t@),
        }
    }
}

impl Clone for DataType {
    fn clone(&self) -> (r: Self)
        ensures
            r@ == self@,
    {
        match self {
            DataType::Scalar(s) => DataType::Scalar(*s),
            DataType::Enum(m) => DataType::Enum(copy_texts(m)),
            DataType::SetOf(m) => DataType::SetOf(copy_texts(m)),
            DataType::Other(t) => DataType::Other(t.clone()),
        }
    }
}

/// A literal of a statement.
#[derive(Debug)]
pub enum Value {
    /// A number as it was written, and whether an `L` follows it.
    Number(String, bool),
    SingleQuotedString(String),
    DollarQuotedString(String),
    EscapedStringLiteral(String),
    SingleQuotedByteStringLiteral(String),
    DoubleQuotedByteStringLiteral(String),
    RawStringLiteral(String),
    NationalStringLiteral(String),
    HexStringLiteral(String),
    DoubleQuotedString(String),
    Boolean(bool),
    Null,
    Placeholder(String),
    UnQuotedString(String),
}

pub enum ValueView {
    Number(Seq<char>, bool),
    SingleQuotedString(Seq<char>),
    DollarQuotedString(Seq<char>),
    EscapedStringLiteral(Seq<char>),
    SingleQuotedByteStringLiteral(Seq<char>),
    DoubleQuotedByteStringLiteral(Seq<char>),
    RawStringLiteral(Seq<char>),
    NationalStringLiteral(Seq<char>),
    HexStringLiteral(Seq<char>),
    DoubleQuotedString(Seq<char>),
    Boolean(bool),
    Null,
    Placeholder(Seq<char>),
    UnQuotedString(Seq<char>),
}

impl View for Value {
    type V = ValueView;

    open spec fn view(&self) -> ValueView {
        match *self {
            Value::Number(t, l) => ValueView::Number(t@, l),
            Value::SingleQuotedString(t) => ValueView::SingleQuotedString(t@),
            Value::DollarQuotedString(t) => ValueView::DollarQuotedString(t@),
            Value::EscapedStringLiteral(t) => ValueView::EscapedStringLiteral(t@),
            Value::SingleQuotedByteStringLiteral(t) => ValueView::SingleQuotedByteStringLiteral(t@),
            Value::DoubleQuotedByteStringLiteral(t) => ValueView::DoubleQuotedByteStringLiteral(t@),
            Value::RawStringLiteral(t) => ValueView::RawStringLiteral(t@),
            Value::NationalStringLiteral(t) => ValueView::NationalStringLiteral(t@),
            Value::HexStringLiteral(t) => ValueView::HexStringLiteral(t@),
            Value::DoubleQuotedString(t) => ValueView::DoubleQuotedString(t@),
            Value::Boolean(b) => ValueView::Boolean(b),
            Value::Null => ValueView::Null,
            Value::Placeholder(t) => ValueView::Placeholder(t@),
            Value::UnQuotedString(t) => ValueView::UnQuotedString(t@),
        }
    }
}

impl Clone for Value {
    fn clone(&self) -> (r: Self)
        ensures
            r@ == self@,
    {
        match self {
            Value::Number(t, l) => Value::Number(t.clone(), *l),
            Value::SingleQuotedString(t) => Value::SingleQuotedString(t.clone()),
            Value::DollarQuotedString(t) => Value::DollarQuotedString(t.clone()),
            Value::EscapedStringLiteral(t) => Value::EscapedStringLiteral(t.clone()),
            Value::SingleQuotedByteStringLiteral(t) => Value::SingleQuotedByteStringLiteral(
                t.clone(),
            ),
            Value::DoubleQuotedByteStringLiteral(t) => Value::DoubleQuotedByteStringLiteral(
                t.clone(),
            ),
            Value::RawStringLiteral(t) => Value::RawStringLiteral(t.clone()),
            Value::NationalStringLiteral(t) => Value::NationalStringLiteral(t.clone()),
            Value::HexStringLiteral(t) => Value::HexStringLiteral(t.clone()),
            Value::DoubleQuotedString(t) => Value::DoubleQuotedString(t.clone()),
            Value::Boolean(b) => Value::Boolean(*b),
            Value::Null => Value::Null,
            Value::Placeholder(t) => Value::Placeholder(t.clone()),
            Value::UnQuotedString(t) => Value::UnQuotedString(t.clone()),
        }
    }
}

/// An expression of a statement: a literal, or anything else, kept as it
/// was written.
#[derive(Debug)]
pub enum Expr {
    Value(Value),
    Other(String),
}

pub enum ExprView {
    Value(ValueView),
    Other(Seq<char>),
}

impl View for Expr {
    type V = ExprView;

    open spec fn view(&self) -> ExprView {
        match *self {
            Expr::Value(v) => ExprView::Value(v@),
            Expr::Other(t) => ExprView::Other(t@),
        }
    }
}

impl Clone for Expr {
    fn clone(&self) -> (r: Self)
        ensures
            r@ == self@,
    {
        match self {
            Expr::Value(v) => Expr::Value(v.clone()),
            Expr::Other(t) => Expr::Other(t.clone()),
        }
    }
}

/// What a foreign key does when the row it refers to changes.
#[derive(Clone, Copy, Debug, PartialEq, Eq)]
pub enum ReferentialAction {
    Restrict,
    Cascade,
    SetNull,
    NoAction,
    SetDefault,
}

/// A token of a clause that only one dialect has.
#[derive(Debug)]
pub enum Token {
    /// A keyword or an identifier.
    Word(String),
    /// Any other token, as it was written.
    Other(String),
}

/// One option of a column definition.
#[derive(Debug)]
pub enum ColumnOption {
    Null,
    NotNull,
    Default(Expr),
    /// `UNIQUE`, or `PRIMARY KEY` where `is_primary` holds.
    Unique { is_primary: bool },
    ForeignKey {
        foreign_table: String,
        referred_columns: Vec<String>,
        on_delete: Option<ReferentialAction>,
        on_update: Option<ReferentialAction>,
    },
    OnUpdate(Expr),
    DialectSpecific(Vec<Token>),
    /// An option that the store keeps no record of.
    Other,
}

/// One column of a `CREATE TABLE`.
#[derive(Debug)]
pub struct ColumnDef {
    pub name: String,
    pub data_type: DataType,
    pub options: Vec<ColumnOption>,
}

/// One item of what a `SELECT` asks for.
#[derive(Debug)]
pub enum SelectItem {
    /// `*`
    Wildcard,
    /// A column by its name.
    Column(String),
    /// Any other item, as it was written.
    Other(String),
}

/// What a `FROM` clause reads.
#[derive(Debug)]
pub enum TableFactor {
    Table { name: String },
    /// A subquery, a function or another source, as it was written.
    Other(String),
}

/// One source of a `FROM` clause, with the number of tables joined to it.
#[derive(Debug)]
pub struct TableWithJoins {
    pub relation: TableFactor,
    pub joins: usize,
}

/// The body of a `SELECT`.
#[derive(Debug)]
pub struct Select {
    pub projection: Vec<SelectItem>,
    pub from: Vec<TableWithJoins>,
    /// The condition of its `WHERE`.
    pub selection: Option<Expr>,
    /// Its other clauses, such as `DISTINCT`, `GROUP BY` or `HAVING`, each as
    /// it was written.
    pub clauses: Vec<String>,
}

/// The body of a query.
#[derive(Debug)]
pub enum SetExpr {
    Select(Select),
    /// `VALUES (..), (..)`: rows of expressions.
    Values(Vec<Vec<Expr>>),
    /// A set operation or another body, as it was written.
    Other(String),
}

/// A query: its body and what orders and limits the result.
#[derive(Debug)]
pub struct Query {
    pub body: SetExpr,
    pub order_by: Vec<Expr>,
    pub limit: Option<Expr>,
    /// Its other clauses, such as `WITH`, `OFFSET` or `FETCH`, each as it
    /// was written.
    pub clauses: Vec<String>,
}

/// A parsed statement.
#[derive(Debug)]
#[allow(inconsistent_fields)]
pub enum Statement {
    CreateTable { name: String, columns: Vec<ColumnDef> },
    Insert { table_name: String, columns: Vec<String>, source: Option<Query> },
    Query(Query),
    /// Any other statement, as it was written.
    Other(String),
}

} // verus!
