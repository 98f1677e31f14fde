//! Declarations of what this crate takes from other crates. Nothing here is
//! proved: each contract restates what the other crate documents.

use vstd::prelude::*;
use once_cell::sync::OnceCell;

verus! {

/// A JSON value. The library stores and forwards metric values without ever
/// looking inside them.
#[verifier::external_type_specification]
#[verifier::external_body]
pub struct ExJsonValue(serde_json::Value);

/// The error that the HTTP client reports when a request could not be carried
/// out. The library only passes it on.
#[verifier::external_type_specification]
#[verifier::external_body]
pub struct ExHttpError(reqwest::Error);

/// `serde_json::Value::clone` is the derived deep copy: the copy is the same
/// JSON value as the one it was made from.
pub assume_specification[ <serde_json::Value as Clone>::clone ](value: &serde_json::Value) -> (copy:
    serde_json::Value)
    ensures
        copy == *value,
;

/// Whether `c` is one of the ten ASCII digits.
pub open spec fn is_digit(c: char) -> bool {
    '0' as u32 <= c as u32 <= '9' as u32
}

/// The number that a run of ASCII digits writes in base ten.
pub open spec fn digits_value(digits: Seq<char>) -> nat
    decreases digits.len(),
{
    if digits.len() == 0 {
        0
    } else {
        (10 * digits_value(digits.drop_last()) + (digits.last() as u32 - '0' as u32)) as nat
    }
}

/// Whether `digits` is one or more ASCII digits and nothing else.
pub open spec fn all_digits(digits: Seq<char>) -> bool {
    &&& digits.len() > 0
    &&& forall|i: int| 0 <= i < digits.len() ==> is_digit(#[trigger] digits[i])
}

/// `text` without the `+` that it may start with.
pub open spec fn unsigned(text: Seq<char>) -> Seq<char> {
    if text.len() > 0 && text[0] == '+' {
        text.drop_first()
    } else {
        text
    }
}

/// The number that `text` writes: an optional `+`, then one or more ASCII
/// digits and nothing else, for a number that fits in 64 bits. Any other text
/// writes no number.
pub open spec fn decimal_u64(text: Seq<char>) -> Option<u64> {
    if all_digits(unsigned(text)) && digits_value(unsigned(text)) <= u64::MAX {
        Some(digits_value(unsigned(text)) as u64)
    } else {
        None
    }
}

/// `str::parse::<u64>` reads a number in base ten as `decimal_u64` says, and
/// reports every other text, and every number too large for 64 bits, as an
/// error, which is `None` here.
#[verifier::external_body]
pub(crate) fn parse_u64(text: &str) -> (number: Option<u64>)
    ensures
        number == decimal_u64(text@),
{
    text.parse::<u64>().ok()
}

/// A cell that can be written once.
#[verifier::external_type_specification]
#[verifier::external_body]
#[verifier::reject_recursive_types(T)]
pub struct ExOnceCell<T>(OnceCell<T>);

/// What a cell of text holds: nothing, or the one text that was stored in it.
pub uninterp spec fn cell_text(cell: OnceCell<String>) -> Option<Seq<char>>;

/// `OnceCell::new` makes an empty cell.
#[verifier::external_body]
pub(crate) fn cell_new() -> (cell: OnceCell<String>)
    ensures
        cell_text(cell) is None,
{
    OnceCell::new()
}

/// `OnceCell::get` hands out the stored text, or `None` from an empty cell.
#[verifier::external_body]
pub(crate) fn cell_get(cell: &OnceCell<String>) -> (text: Option<&String>)
    ensures
        match text {
            Some(t) => cell_text(*cell) == Some(t@),
            None => cell_text(*cell) is None,
        },
{
    cell.get()
}

/// `OnceCell::set` stores `text` in an empty cell and returns `Ok`; a full
/// cell keeps what it has and gives `text` back in `Err`.
#[verifier::external_body]
pub(crate) fn cell_set(cell: &mut OnceCell<String>, text: String) -> (result: Result<(), String>)
    ensures
        match cell_text(*old(cell)) {
            Some(kept) => cell_text(*final(cell)) == Some(kept) && result == Err::<(), String>(text),
            None => cell_text(*final(cell)) == Some(text@) && result is Ok,
        },
{
    cell.set(text)
}

} // verus!
