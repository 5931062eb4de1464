//! What the store asks of other crates.
//!
//! Calendar dates and times are read by `chrono`, JSON text by `serde_json`,
//! and a batch of rows is put into bytes by `bitcode`. Each call stands
//! behind one function here. Verus does not look into these functions: what
//! their contracts say is taken on trust. What a call returns is given a
//! name where it takes pages to state; the contracts of the store then speak
//! of that name.

use vstd::prelude::*;
use crate::data_descriptor::batch_texts;

verus! {

/// Whether `chrono::NaiveDate::parse_from_str` reads `text` by `format`.
pub uninterp spec fn date_parses(text: Seq<char>, format: Seq<char>) -> bool;

/// Whether `chrono::NaiveTime::parse_from_str` reads `text` by `format`.
pub uninterp spec fn time_parses(text: Seq<char>, format: Seq<char>) -> bool;

/// Whether `chrono::NaiveDateTime::parse_from_str` reads `text` by `format`.
pub uninterp spec fn datetime_parses(text: Seq<char>, format: Seq<char>) -> bool;

/// Whether `serde_json::from_str` reads `text` as a `serde_json::Value`.
pub uninterp spec fn json_parses(text: Seq<char>) -> bool;

/// The bytes that `bitcode::encode` gives for a list of rows, each a list of
/// optional texts.
pub uninterp spec fn encoded_rows(rows: Seq<Seq<Option<Seq<char>>>>) -> Seq<u8>;

/// Calls `chrono::NaiveDate::parse_from_str` and says whether it returned a
/// date. The call reads nothing but its two arguments, so the answer is the
/// one named `date_parses`.
#[verifier::external_body]
pub(crate) fn naive_date_parses(text: &str, format: &str) -> (ok: bool)
    ensures
        ok == date_parses(text@, format@),
{
    chrono::NaiveDate::parse_from_str(text, format).is_ok()
}

/// Calls `chrono::NaiveTime::parse_from_str` and says whether it returned a
/// time of day. The call reads nothing but its two arguments, so the answer
/// is the one named `time_parses`.
#[verifier::external_body]
pub(crate) fn naive_time_parses(text: &str, format: &str) -> (ok: bool)
    ensures
        ok == time_parses(text@, format@),
{
    chrono::NaiveTime::parse_from_str(text, format).is_ok()
}

/// Calls `chrono::NaiveDateTime::parse_from_str` and says whether it
/// returned a date with a time. The call reads nothing but its two
/// arguments, so the answer is the one named `datetime_parses`.
#[verifier::external_body]
pub(crate) fn naive_datetime_parses(text: &str, format: &str) -> (ok: bool)
    ensures
        ok == datetime_parses(text@, format@),
{
    chrono::NaiveDateTime::parse_from_str(text, format).is_ok()
}

/// Calls `serde_json::from_str` for a `serde_json::Value` and says whether
/// it returned one. The call reads nothing but the text, so the answer is
/// the one named `json_parses`.
#[verifier::external_body]
pub(crate) fn json_text_parses(text: &str) -> (ok: bool)
    ensures
        ok == json_parses(text@),
{
    serde_json::from_str::<serde_json::Value>(text).is_ok()
}

/// Calls `bitcode::encode` on the rows, each value handed over as an
/// optional string slice. The bytes depend on the texts alone, so they are
/// the ones named `encoded_rows`.
#[verifier::external_body]
pub(crate) fn encode_rows(rows: &Vec<Vec<&Option<String>>>) -> (bytes: Vec<u8>)
    ensures
        bytes@ == encoded_rows(batch_texts(rows@)),
{
    let plain: Vec<Vec<Option<&str>>> = rows.iter().map(
        |row| row.iter().map(|value| value.as_deref()).collect(),
    ).collect();
    bitcode::encode(&plain)
}

} // verus!
