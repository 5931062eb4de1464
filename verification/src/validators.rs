//! Whether a literal is a value of the type that a column declares.
//!
//! Each declared type stands for a rule, and a literal either obeys the rule
//! or does not. `rule_of` gives the rule, `obeys` says what it asks, and
//! `valid_for` puts the two together with the one thing that no type
//! decides: whether the column takes `NULL`.

use vstd::prelude::*;
use vstd::string::*;
use vstd::utf8::encode_utf8;
use crate::ast::{
    contains_text,
    views,
    CharacterLength,
    DataType,
    DataTypeView,
    ExactNumberInfo,
    ScalarType,
    Value,
    ValueView,
};
use crate::outside::{
    date_parses,
    datetime_parses,
    json_parses,
    json_text_parses,
    naive_date_parses,
    naive_datetime_parses,
    naive_time_parses,
    time_parses,
};
use crate::text::{
    decimal_text,
    is_decimal_text,
    is_signed_text,
    is_unsigned_text,
    signed_text,
    unsigned_text,
};

verus! {

/// No character type holds more bytes than this.
pub const ABSOLUTE_CHAR_MAX: u64 = 536_870_912;

/// The kinds of calendar and clock types.
#[derive(Clone, Copy, Debug, PartialEq, Eq)]
pub enum DateTypes {
    Date,
    Time,
    DateTime,
    Timestamp,
}

/// What a declared type asks of a literal that is not `NULL`.
pub enum TypeRule {
    /// A quoted string of at most `limit` bytes.
    Text { limit: u64 },
    /// A number or a string of any bytes, of at most `limit` bytes.
    Binary { limit: u64 },
    /// A number with one decimal point, within `precision` and `scale`.
    Decimal { precision: u64, scale: Option<u64> },
    /// A 64-bit integer, written in at most `digits` bytes.
    Integer { signed: bool, digits: u64 },
    /// `TRUE`, `FALSE`, `0` or `1`.
    Boolean,
    /// A quoted string in the format of a date or a time.
    Temporal(DateTypes),
    /// A quoted string that holds JSON.
    Json,
    /// A string that is one of the members.
    Member(Seq<Seq<char>>),
    /// Nothing passes.
    Unsupported,
}

/// The smaller of two numbers.
pub open spec fn smaller(a: u64, b: u64) -> u64 {
    if a <= b {
        a
    } else {
        b
    }
}

/// The most bytes that a character type takes: its declared length, or
/// `default` where it declares none, and never more than `max`.
pub open spec fn char_limit(declared: Option<CharacterLength>, default: u64, max: u64) -> u64 {
    match declared {
        Some(CharacterLength::IntegerLength { length, unit }) => smaller(length, max),
        Some(CharacterLength::Max) => max,
        None => smaller(default, max),
    }
}

/// `declared`, or `default` where nothing is declared.
pub open spec fn declared_or(declared: Option<u64>, default: u64) -> u64 {
    match declared {
        Some(n) => n,
        None => default,
    }
}

/// The rule of a character type that declares its length as a character
/// length.
pub open spec fn char_rule(declared: Option<CharacterLength>, default: u64) -> TypeRule {
    TypeRule::Text { limit: char_limit(declared, default, ABSOLUTE_CHAR_MAX) }
}

/// The rule of a large character type: 60 bytes where it declares no
/// length.
pub open spec fn clob_rule(declared: Option<u64>) -> TypeRule {
    char_rule(None, declared_or(declared, 60))
}

/// The rule of a binary type: 30 bytes where it declares no length.
pub open spec fn binary_rule(declared: Option<u64>) -> TypeRule {
    TypeRule::Binary { limit: declared_or(declared, 30) }
}

/// The rule of an exact numeric type: 18 bytes where no precision is
/// declared, and a scale only where one is.
pub open spec fn decimal_rule(info: ExactNumberInfo, default: u64) -> TypeRule {
    match info {
        ExactNumberInfo::Unstated => TypeRule::Decimal { precision: default, scale: None },
        ExactNumberInfo::Precision(p) => TypeRule::Decimal { precision: p, scale: None },
        ExactNumberInfo::PrecisionAndScale(p, s) => TypeRule::Decimal {
            precision: p,
            scale: Some(s),
        },
    }
}

/// The rule of a floating-point type: a precision, and no scale.
pub open spec fn float_rule(declared: Option<u64>, default: u64) -> TypeRule {
    TypeRule::Decimal { precision: declared_or(declared, default), scale: None }
}

/// The rule of an integer type.
pub open spec fn integer_rule(signed: bool, digits: u64) -> TypeRule {
    TypeRule::Integer { signed, digits }
}

/// The rule that each scalar type stands for.
pub open spec fn scalar_rule(t: ScalarType) -> TypeRule {
    match t {
        ScalarType::Character(l) => char_rule(l, 1),
        ScalarType::Char(l) => char_rule(l, 1),
        ScalarType::CharacterVarying(l) => char_rule(l, 30),
        ScalarType::CharVarying(l) => char_rule(l, 30),
        ScalarType::Varchar(l) => char_rule(l, 30),
        ScalarType::Nvarchar(n) => clob_rule(n),
        ScalarType::Uuid => char_rule(None, 30),
        ScalarType::CharacterLargeObject(n) => clob_rule(n),
        ScalarType::CharLargeObject(n) => clob_rule(n),
        ScalarType::Clob(n) => clob_rule(n),
        ScalarType::Text => char_rule(None, 60),
        ScalarType::Str(n) => clob_rule(n),
        ScalarType::Binary(n) => binary_rule(n),
        ScalarType::Varbinary(n) => binary_rule(n),
        ScalarType::Blob(n) => binary_rule(n),
        ScalarType::Bytes(n) => binary_rule(n),
        ScalarType::Bytea => binary_rule(None),
        ScalarType::Numeric(i) => decimal_rule(i, 18),
        ScalarType::Decimal(i) => decimal_rule(i, 18),
        ScalarType::BigNumeric(i) => decimal_rule(i, 18),
        ScalarType::BigDecimal(i) => decimal_rule(i, 18),
        ScalarType::Dec(i) => decimal_rule(i, 18),
        ScalarType::Float(n) => float_rule(n, 18),
        ScalarType::Float4 => float_rule(None, 11),
        ScalarType::Float8 => float_rule(None, 11),
        ScalarType::Float64 => float_rule(None, 21),
        ScalarType::Real => float_rule(None, 21),
        ScalarType::Double => float_rule(None, 21),
        ScalarType::DoublePrecision => float_rule(None, 21),
        ScalarType::TinyInt(n) => integer_rule(true, 4),
        ScalarType::UnsignedTinyInt(n) => integer_rule(false, 3),
        ScalarType::Int2(n) => integer_rule(true, 6),
        ScalarType::UnsignedInt2(n) => integer_rule(false, 5),
        ScalarType::SmallInt(n) => integer_rule(true, 6),
        ScalarType::UnsignedSmallInt(n) => integer_rule(false, 5),
        ScalarType::MediumInt(n) => integer_rule(true, 8),
        ScalarType::UnsignedMediumInt(n) => integer_rule(false, 8),
        ScalarType::Int(n) => integer_rule(true, 11),
        ScalarType::Int4(n) => integer_rule(true, 11),
        ScalarType::Integer(n) => integer_rule(true, 11),
        ScalarType::UnsignedInt(n) => integer_rule(false, 11),
        ScalarType::UnsignedInt4(n) => integer_rule(false, 11),
        ScalarType::UnsignedInteger(n) => integer_rule(false, 11),
        ScalarType::Int64 => integer_rule(true, 21),
        ScalarType::BigInt(n) => integer_rule(true, 21),
        ScalarType::UnsignedBigInt(n) => integer_rule(false, 20),
        ScalarType::Int8(n) => integer_rule(true, 11),
        ScalarType::UnsignedInt8(n) => integer_rule(false, 11),
        ScalarType::Bool => TypeRule::Boolean,
        ScalarType::Boolean => TypeRule::Boolean,
        ScalarType::Date => TypeRule::Temporal(DateTypes::Date),
        ScalarType::Time(p, z) => TypeRule::Temporal(DateTypes::Time),
        ScalarType::Datetime(p) => TypeRule::Temporal(DateTypes::DateTime),
        ScalarType::Timestamp(p, z) => TypeRule::Temporal(DateTypes::Timestamp),
        ScalarType::Json => TypeRule::Json,
        ScalarType::Jsonb => TypeRule::Json,
        ScalarType::Interval => TypeRule::Unsupported,
        ScalarType::Regclass => TypeRule::Unsupported,
        ScalarType::Unspecified => TypeRule::Unsupported,
    }
}

/// The rule that a declared type stands for.
pub open spec fn rule_of(t: DataTypeView) -> TypeRule {
    match t {
        DataTypeView::Scalar(s) => scalar_rule(s),
        DataTypeView::Enum(members) => TypeRule::Member(members),
        DataTypeView::SetOf(members) => TypeRule::Member(members),
        DataTypeView::Other(_) => TypeRule::Unsupported,
    }
}

/// The text of a literal that is a quoted or escaped string.
pub open spec fn quoted_text(v: ValueView) -> Option<Seq<char>> {
    match v {
        ValueView::SingleQuotedString(t) => Some(t),
        ValueView::EscapedStringLiteral(t) => Some(t),
        ValueView::DoubleQuotedString(t) => Some(t),
        _ => None,
    }
}

/// The text of a literal that is a number or a string of any kind.
pub open spec fn binary_text(v: ValueView) -> Option<Seq<char>> {
    match v {
        ValueView::Number(t, _) => Some(t),
        ValueView::SingleQuotedString(t) => Some(t),
        ValueView::DollarQuotedString(t) => Some(t),
        ValueView::EscapedStringLiteral(t) => Some(t),
        ValueView::SingleQuotedByteStringLiteral(t) => Some(t),
        ValueView::DoubleQuotedByteStringLiteral(t) => Some(t),
        ValueView::RawStringLiteral(t) => Some(t),
        ValueView::NationalStringLiteral(t) => Some(t),
        ValueView::HexStringLiteral(t) => Some(t),
        ValueView::DoubleQuotedString(t) => Some(t),
        ValueView::UnQuotedString(t) => Some(t),
        ValueView::Boolean(_) => None,
        ValueView::Null => None,
        ValueView::Placeholder(_) => None,
    }
}

/// The text of a literal that can name a member of an enumeration: a string
/// in single quotes, in double quotes or in none.
pub open spec fn member_text(v: ValueView) -> Option<Seq<char>> {
    match v {
        ValueView::SingleQuotedString(t) => Some(t),
        ValueView::UnQuotedString(t) => Some(t),
        ValueView::DoubleQuotedString(t) => Some(t),
        _ => None,
    }
}

/// The text of a literal that is a number.
pub open spec fn number_of(v: ValueView) -> Option<Seq<char>> {
    match v {
        ValueView::Number(t, _) => Some(t),
        _ => None,
    }
}

/// How many bytes `t` takes.
pub open spec fn byte_len(t: Seq<char>) -> nat {
    encode_utf8(t).len()
}

/// `c` is a decimal digit.
pub open spec fn is_digit_char(c: char) -> bool {
    '0' <= c && c <= '9'
}

/// `t` is a date with a time and, behind them, a point and two digits.
pub open spec fn timestamp_text(t: Seq<char>) -> bool {
    t.len() >= 3 && t[t.len() - 3] == '.' && is_digit_char(t[t.len() - 2]) && is_digit_char(
        t[t.len() - 1],
    ) && datetime_parses(t.subrange(0, t.len() - 3), "%Y-%m-%d %H:%M:%S"@)
}

/// `t` is written in the format of its kind: `YYYY-MM-DD` for a date,
/// `HH:MM:SS` for a time, both with a space between for a date with a time,
/// and for a timestamp that and two digits of a second's fraction.
pub open spec fn temporal_text(kind: DateTypes, t: Seq<char>) -> bool {
    match kind {
        DateTypes::Date => date_parses(t, "%Y-%m-%d"@),
        DateTypes::Time => time_parses(t, "%H:%M:%S"@),
        DateTypes::DateTime => datetime_parses(t, "%Y-%m-%d %H:%M:%S"@),
        DateTypes::Timestamp => timestamp_text(t),
    }
}

/// `t` is the text of a 64-bit integer, signed or not, in at most `digits`
/// bytes.
pub open spec fn integer_text(t: Seq<char>, signed: bool, digits: u64) -> bool {
    let b = encode_utf8(t);
    (if signed {
        signed_text(b)
    } else {
        unsigned_text(b)
    }) && b.len() <= digits
}

/// `t` is `0` or `1`.
pub open spec fn bit_text(t: Seq<char>) -> bool {
    t.len() == 1 && (t[0] == '0' || t[0] == '1')
}

/// Whether a literal that is not `NULL` obeys a rule.
pub open spec fn obeys(rule: TypeRule, v: ValueView) -> bool {
    match rule {
        TypeRule::Text { limit } => quoted_text(v) matches Some(t) && byte_len(t) <= limit,
        TypeRule::Binary { limit } => binary_text(v) matches Some(t) && byte_len(t) <= limit,
        TypeRule::Decimal { precision, scale } => number_of(v) matches Some(t) && decimal_text(
            encode_utf8(t),
            precision,
            scale,
        ),
        TypeRule::Integer { signed, digits } => number_of(v) matches Some(t) && integer_text(
            t,
            signed,
            digits,
        ),
        TypeRule::Boolean => v is Boolean || (number_of(v) matches Some(t) && bit_text(t)),
        TypeRule::Temporal(kind) => quoted_text(v) matches Some(t) && temporal_text(kind, t),
        TypeRule::Json => quoted_text(v) matches Some(t) && json_parses(t),
        TypeRule::Member(members) => member_text(v) matches Some(t) && members.contains(t),
        TypeRule::Unsupported => false,
    }
}

/// Whether a literal is a value of a declared type. `NULL` is one where the
/// column takes it, whatever the type, and nowhere else.
pub open spec fn valid_for(t: DataTypeView, v: ValueView, nullable: bool) -> bool {
    if v is Null {
        nullable
    } else {
        obeys(rule_of(t), v)
    }
}

/// Whether `text` takes at most `limit` bytes.
fn fits(text: &String, limit: u64) -> (r: bool)
    ensures
        r == (byte_len(text@) <= limit),
{
    (text.as_str().as_bytes().len() as u64) <= limit
}

/// Whether `value` is a quoted string that a character type takes: one of
/// at most the declared length, or `def_size` where none is declared, and in
/// no case of more than `max_size` bytes.
pub fn validate_value_for_char(
    length_p: &Option<CharacterLength>,
    value: &Value,
    def_size: u64,
    max_size: u64,
) -> (r: bool)
    ensures
        r == obeys(TypeRule::Text { limit: char_limit(*length_p, def_size, max_size) }, value@),
{
    let length: u64 = match length_p {
        Some(CharacterLength::IntegerLength { length, unit }) => if *length <= max_size {
            *length
        } else {
            max_size
        },
        Some(CharacterLength::Max) => max_size,
        None => if def_size <= max_size {
            def_size
        } else {
            max_size
        },
    };
    match value {
        Value::SingleQuotedString(inner_value) => fits(inner_value, length),
        Value::EscapedStringLiteral(inner_value) => fits(inner_value, length),
        Value::DoubleQuotedString(inner_value) => fits(inner_value, length),
        _ => false,
    }
}

/// Whether `value` is a quoted string that a large character type takes:
/// one of at most the declared length, or 60 where none is declared, and in
/// no case of more than `max_size` bytes.
pub fn validate_value_for_clob(len_p_u64: &Option<u64>, value: &Value, max_size: u64) -> (r: bool)
    ensures
        r == obeys(
            TypeRule::Text { limit: char_limit(None, declared_or(*len_p_u64, 60), max_size) },
            value@,
        ),
{
    match len_p_u64 {
        Some(len) => validate_value_for_char(&None, value, *len, max_size),
        None => validate_value_for_char(&None, value, 60, max_size),
    }
}

/// Whether `value` is a number or a string of at most the declared length,
/// or `def_size` where none is declared.
pub fn validate_value_for_binary(len_p_u64: &Option<u64>, value: &Value, def_size: u64) -> (r:
    bool)
    ensures
        r == obeys(TypeRule::Binary { limit: declared_or(*len_p_u64, def_size) }, value@),
{
    let length: u64 = match len_p_u64 {
        Some(len) => *len,
        None => def_size,
    };
    match value {
        Value::Number(inner_value, _) => fits(inner_value, length),
        Value::SingleQuotedString(inner_value) => fits(inner_value, length),
        Value::DollarQuotedString(inner_value) => fits(inner_value, length),
        Value::EscapedStringLiteral(inner_value) => fits(inner_value, length),
        Value::SingleQuotedByteStringLiteral(inner_value) => fits(inner_value, length),
        Value::DoubleQuotedByteStringLiteral(inner_value) => fits(inner_value, length),
        Value::RawStringLiteral(inner_value) => fits(inner_value, length),
        Value::NationalStringLiteral(inner_value) => fits(inner_value, length),
        Value::HexStringLiteral(inner_value) => fits(inner_value, length),
        Value::DoubleQuotedString(inner_value) => fits(inner_value, length),
        Value::UnQuotedString(inner_value) => fits(inner_value, length),
        _ => false,
    }
}

/// `BYTES` goes by the rule of the binary types.
pub fn validate_value_for_bytes(len_p_u64: &Option<u64>, value: &Value, def_size: u64) -> (r: bool)
    ensures
        r == obeys(TypeRule::Binary { limit: declared_or(*len_p_u64, def_size) }, value@),
{
    validate_value_for_binary(len_p_u64, value, def_size)
}

/// Whether `value` is a number with one decimal point within the declared
/// precision and scale, or within `def_precision` where none is declared.
pub fn validate_value_for_decimal(dec_info: &ExactNumberInfo, value: &Value, def_precision: u64) -> (r:
    bool)
    ensures
        r == obeys(decimal_rule(*dec_info, def_precision), value@),
{
    match value {
        Value::Number(inner_value, _) => {
            let bytes = inner_value.as_str().as_bytes();
            match dec_info {
                ExactNumberInfo::Unstated => is_decimal_text(bytes, def_precision, None),
                ExactNumberInfo::Precision(precision) => is_decimal_text(bytes, *precision, None),
                ExactNumberInfo::PrecisionAndScale(precision, scale) => is_decimal_text(
                    bytes,
                    *precision,
                    Some(*scale),
                ),
            }
        },
        _ => false,
    }
}

/// Whether `value` is a number with one decimal point within the declared
/// precision, or within `def_precision` where none is declared.
pub fn validate_value_for_float(len_p_u64: &Option<u64>, value: &Value, def_precision: u64) -> (r:
    bool)
    ensures
        r == obeys(float_rule(*len_p_u64, def_precision), value@),
{
    match len_p_u64 {
        Some(len) => validate_value_for_decimal(&ExactNumberInfo::Unstated, value, *len),
        None => validate_value_for_decimal(&ExactNumberInfo::Unstated, value, def_precision),
    }
}

/// Whether `value` is an integer of a type of `def_precision` bytes at most.
/// The width that the type declares is a width for display: it is not read.
pub fn validate_value_for_integer(
    len_p_u64: &Option<u64>,
    value: &Value,
    def_precision: u64,
    sign: bool,
) -> (r: bool)
    ensures
        r == obeys(integer_rule(sign, def_precision), value@),
{
    match value {
        Value::Number(inner_value, _) => {
            let bytes = inner_value.as_str().as_bytes();
            let can_parse: bool = if sign {
                is_signed_text(bytes)
            } else {
                is_unsigned_text(bytes)
            };
            can_parse && (bytes.len() as u64) <= def_precision
        },
        _ => false,
    }
}

/// Whether `value` is `TRUE`, `FALSE`, or the number `0` or `1`.
pub fn validate_value_for_bool(value: &Value) -> (r: bool)
    ensures
        r == obeys(TypeRule::Boolean, value@),
{
    match value {
        Value::Number(inner_value, _) => {
            let text = inner_value.as_str();
            text.unicode_len() == 1 && (text.get_char(0) == '0' || text.get_char(0) == '1')
        },
        Value::Boolean(_) => true,
        _ => false,
    }
}

/// Whether `c` is a decimal digit.
fn is_digit(c: char) -> (r: bool)
    ensures
        r == is_digit_char(c),
{
    '0' <= c && c <= '9'
}

/// Whether `text` is a date with a time, then a point and two digits. The
/// date and the time are read without that tail.
pub fn validate_timestamp_string(text: &str) -> (r: bool)
    ensures
        r == timestamp_text(text@),
{
    let n: usize = text.unicode_len();
    if n < 3 {
        return false;
    }
    if text.get_char(n - 3) != '.' || !is_digit(text.get_char(n - 2)) || !is_digit(
        text.get_char(n - 1),
    ) {
        return false;
    }
    let head = text.substring_char(0, n - 3);
    naive_datetime_parses(head, "%Y-%m-%d %H:%M:%S")
}

/// Whether `value_str` is written in the format of `date_type`.
pub fn validate_value_for_date_string_general(value_str: &String, date_type: DateTypes) -> (r:
    bool)
    ensures
        r == temporal_text(date_type, value_str@),
{
    match date_type {
        DateTypes::Date => naive_date_parses(value_str.as_str(), "%Y-%m-%d"),
        DateTypes::Time => naive_time_parses(value_str.as_str(), "%H:%M:%S"),
        DateTypes::DateTime => naive_datetime_parses(value_str.as_str(), "%Y-%m-%d %H:%M:%S"),
        DateTypes::Timestamp => validate_timestamp_string(value_str.as_str()),
    }
}

/// Whether `value` is a quoted string in the format of `date_type`.
pub fn validate_value_for_dates_general(value: &Value, date_type: DateTypes) -> (r: bool)
    ensures
        r == obeys(TypeRule::Temporal(date_type), value@),
{
    match value {
        Value::SingleQuotedString(inner_value) => validate_value_for_date_string_general(
            inner_value,
            date_type,
        ),
        Value::EscapedStringLiteral(inner_value) => validate_value_for_date_string_general(
            inner_value,
            date_type,
        ),
        Value::DoubleQuotedString(inner_value) => validate_value_for_date_string_general(
            inner_value,
            date_type,
        ),
        _ => false,
    }
}

/// Whether `value` is a quoted string that holds JSON.
pub fn validate_value_for_json(value: &Value) -> (r: bool)
    ensures
        r == obeys(TypeRule::Json, value@),
{
    match value {
        Value::SingleQuotedString(inner_value) => json_text_parses(inner_value.as_str()),
        Value::EscapedStringLiteral(inner_value) => json_text_parses(inner_value.as_str()),
        Value::DoubleQuotedString(inner_value) => json_text_parses(inner_value.as_str()),
        _ => false,
    }
}

/// Whether `value` is a string, in single quotes, in double quotes or in
/// none, that is one of `set`.
pub fn validate_value_for_enum(set: &Vec<String>, value: &Value) -> (r: bool)
    ensures
        r == obeys(TypeRule::Member(views(set@)), value@),
{
    match value {
        Value::SingleQuotedString(inner_value) => contains_text(set, inner_value),
        Value::UnQuotedString(inner_value) => contains_text(set, inner_value),
        Value::DoubleQuotedString(inner_value) => contains_text(set, inner_value),
        _ => false,
    }
}

/// Whether `value` is a value of the scalar type `declared`.
pub fn validate_value_for_scalar(declared: &ScalarType, value: &Value) -> (r: bool)
    ensures
        r == obeys(scalar_rule(*declared), value@),
{
    match declared {
        ScalarType::Character(length_p) => validate_value_for_char(
            length_p,
            value,
            1,
            ABSOLUTE_CHAR_MAX,
        ),
        ScalarType::Char(length_p) => validate_value_for_char(length_p, value, 1, ABSOLUTE_CHAR_MAX),
        ScalarType::CharacterVarying(length_p) => validate_value_for_char(
            length_p,
            value,
            30,
            ABSOLUTE_CHAR_MAX,
        ),
        ScalarType::CharVarying(length_p) => validate_value_for_char(
            length_p,
            value,
            30,
            ABSOLUTE_CHAR_MAX,
        ),
        ScalarType::Varchar(length_p) => validate_value_for_char(
            length_p,
            value,
            30,
            ABSOLUTE_CHAR_MAX,
        ),
        ScalarType::Nvarchar(len_p_u64) => validate_value_for_clob(len_p_u64, value, ABSOLUTE_CHAR_MAX),
        ScalarType::Uuid => validate_value_for_char(&None, value, 30, ABSOLUTE_CHAR_MAX),
        ScalarType::CharacterLargeObject(len_p_u64) => validate_value_for_clob(
            len_p_u64,
            value,
            ABSOLUTE_CHAR_MAX,
        ),
        ScalarType::CharLargeObject(len_p_u64) => validate_value_for_clob(
            len_p_u64,
            value,
            ABSOLUTE_CHAR_MAX,
        ),
        ScalarType::Clob(len_p_u64) => validate_value_for_clob(len_p_u64, value, ABSOLUTE_CHAR_MAX),
        ScalarType::Binary(len_p_u64) => validate_value_for_binary(len_p_u64, value, 30),
        ScalarType::Varbinary(len_p_u64) => validate_value_for_binary(len_p_u64, value, 30),
        ScalarType::Blob(len_p_u64) => validate_value_for_binary(len_p_u64, value, 30),
        ScalarType::Bytes(len_p_u64) => validate_value_for_bytes(len_p_u64, value, 30),
        ScalarType::Numeric(number_info) => validate_value_for_decimal(number_info, value, 18),
        ScalarType::Decimal(number_info) => validate_value_for_decimal(number_info, value, 18),
        ScalarType::BigNumeric(number_info) => validate_value_for_decimal(number_info, value, 18),
        ScalarType::BigDecimal(number_info) => validate_value_for_decimal(number_info, value, 18),
        ScalarType::Dec(number_info) => validate_value_for_decimal(number_info, value, 18),
        ScalarType::Float(len_p_u64) => validate_value_for_float(len_p_u64, value, 18),
        ScalarType::TinyInt(len_p_u64) => validate_value_for_integer(len_p_u64, value, 4, true),
        ScalarType::UnsignedTinyInt(len_p_u64) => validate_value_for_integer(len_p_u64, value, 3, false),
        ScalarType::Int2(len_p_u64) => validate_value_for_integer(len_p_u64, value, 6, true),
        ScalarType::UnsignedInt2(len_p_u64) => validate_value_for_integer(len_p_u64, value, 5, false),
        ScalarType::SmallInt(len_p_u64) => validate_value_for_integer(len_p_u64, value, 6, true),
        ScalarType::UnsignedSmallInt(len_p_u64) => validate_value_for_integer(len_p_u64, value, 5, false),
        ScalarType::MediumInt(len_p_u64) => validate_value_for_integer(len_p_u64, value, 8, true),
        ScalarType::UnsignedMediumInt(len_p_u64) => validate_value_for_integer(len_p_u64, value, 8, false),
        ScalarType::Int(len_p_u64) => validate_value_for_integer(len_p_u64, value, 11, true),
        ScalarType::Int4(len_p_u64) => validate_value_for_integer(len_p_u64, value, 11, true),
        ScalarType::Int64 => validate_value_for_integer(&None, value, 21, true),
        ScalarType::Integer(len_p_u64) => validate_value_for_integer(len_p_u64, value, 11, true),
        ScalarType::UnsignedInt(len_p_u64) => validate_value_for_integer(len_p_u64, value, 11, false),
        ScalarType::UnsignedInt4(len_p_u64) => validate_value_for_integer(len_p_u64, value, 11, false),
        ScalarType::UnsignedInteger(len_p_u64) => validate_value_for_integer(len_p_u64, value, 11, false),
        ScalarType::BigInt(len_p_u64) => validate_value_for_integer(len_p_u64, value, 21, true),
        ScalarType::UnsignedBigInt(len_p_u64) => validate_value_for_integer(len_p_u64, value, 20, false),
        ScalarType::Int8(len_p_u64) => validate_value_for_integer(len_p_u64, value, 11, true),
        ScalarType::UnsignedInt8(len_p_u64) => validate_value_for_integer(len_p_u64, value, 11, false),
        ScalarType::Float4 => validate_value_for_float(&None, value, 11),
        ScalarType::Float64 => validate_value_for_float(&None, value, 21),
        ScalarType::Real => validate_value_for_float(&None, value, 21),
        ScalarType::Float8 => validate_value_for_float(&None, value, 11),
        ScalarType::Double => validate_value_for_float(&None, value, 21),
        ScalarType::DoublePrecision => validate_value_for_float(&None, value, 21),
        ScalarType::Bool => validate_value_for_bool(value),
        ScalarType::Boolean => validate_value_for_bool(value),
        ScalarType::Date => validate_value_for_dates_general(value, DateTypes::Date),
        ScalarType::Time(_, _) => validate_value_for_dates_general(value, DateTypes::Time),
        ScalarType::Datetime(_) => validate_value_for_dates_general(value, DateTypes::DateTime),
        ScalarType::Timestamp(_, _) => validate_value_for_dates_general(
            value,
            DateTypes::Timestamp,
        ),
        ScalarType::Json => validate_value_for_json(value),
        ScalarType::Jsonb => validate_value_for_json(value),
        ScalarType::Text => validate_value_for_char(&None, value, 60, ABSOLUTE_CHAR_MAX),
        ScalarType::Str(len_p_u64) => validate_value_for_clob(len_p_u64, value, ABSOLUTE_CHAR_MAX),
        ScalarType::Bytea => validate_value_for_binary(&None, value, 30),
        ScalarType::Interval => false,
        ScalarType::Regclass => false,
        ScalarType::Unspecified => false,
    }
}

/// Whether `value` is a value of the declared type `declared`, in a column
/// that takes `NULL` where `nullable` holds.
pub fn validate_value_for_col(declared: &DataType, value: &Value, nullable: bool) -> (r: bool)
    ensures
        r == valid_for(declared@, value@, nullable),
{
    if let Value::Null = value {
        return nullable;
    }
    match declared {
        DataType::Scalar(scalar) => validate_value_for_scalar(scalar, value),
        DataType::Enum(set) => validate_value_for_enum(set, value),
        DataType::SetOf(set) => validate_value_for_enum(set, value),
        DataType::Other(_) => false,
    }
}

} // verus!
