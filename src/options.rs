//! The numeric options of a paste: the first line, the number of lines, and
//! the time to live, each given as text.

use vstd::prelude::*;

use crate::error::{result_view, ErrorView, PasteError};
use crate::text::{decimal_value, parse_decimal};

verus! {

/// The first line read when no start line is given.
pub const DEFAULT_START_LINE: usize = 1;

/// The option `name` given as `text`: its value when `text` is a decimal
/// number from `low` to `high`, else an error naming the option and its text.
pub open spec fn number_model(name: Seq<char>, text: Seq<char>, low: nat, high: nat) -> Result<
    nat,
    ErrorView,
> {
    match decimal_value(text) {
        Some(n) => if low <= n <= high {
            Ok(n)
        } else {
            Err(ErrorView::InvalidParameter { name, value: text })
        },
        None => Err(ErrorView::InvalidParameter { name, value: text }),
    }
}

/// Reads the option `name` from `text`, between `low` and `high`.
fn parse_number(name: &str, text: &str, low: u64, high: u64) -> (r: Result<u64, PasteError>)
    ensures
        r matches Ok(v) ==> number_model(name@, text@, low as nat, high as nat) == Ok::<
            nat,
            ErrorView,
        >(v as nat),
        r matches Err(e) ==> number_model(name@, text@, low as nat, high as nat) == Err::<
            nat,
            ErrorView,
        >(e@),
{
    match parse_decimal(text, high) {
        Some(v) if v >= low => Ok(v),
        _ => Err(PasteError::InvalidParameter { name: name.to_owned(), value: text.to_owned() }),
    }
}

/// The start line that the text of the `start` option gives: line 1 when
/// there is none; an error unless it is a number of at least 1.
pub open spec fn start_model(text: Option<Seq<char>>) -> Result<usize, ErrorView> {
    match text {
        None => Ok(1),
        Some(t) => match number_model("start"@, t, 1, usize::MAX as nat) {
            Ok(n) => Ok(n as usize),
            Err(e) => Err(e),
        },
    }
}

/// The line count that the text of the `lines` option gives: no count when
/// there is none; an error unless it is a number.
pub open spec fn count_model(text: Option<Seq<char>>) -> Result<Option<usize>, ErrorView> {
    match text {
        None => Ok(None),
        Some(t) => match number_model("lines"@, t, 0, usize::MAX as nat) {
            Ok(n) => Ok(Some(n as usize)),
            Err(e) => Err(e),
        },
    }
}

/// The time to live that the text of the `ttl-seconds` option gives: none
/// when there is none; an error unless it is a number that fits in 32 bits.
pub open spec fn ttl_model(text: Option<Seq<char>>) -> Result<Option<u32>, ErrorView> {
    match text {
        None => Ok(None),
        Some(t) => match number_model("ttl-seconds"@, t, 0, u32::MAX as nat) {
            Ok(n) => Ok(Some(n as u32)),
            Err(e) => Err(e),
        },
    }
}

/// The character view of an optional string slice.
pub open spec fn opt_str(o: Option<&str>) -> Option<Seq<char>> {
    match o {
        Some(s) => Some(s@),
        None => None,
    }
}

/// The one-based line to start reading at.
pub fn parse_start(text: Option<&str>) -> (r: Result<usize, PasteError>)
    ensures
        result_view(r) == start_model(opt_str(text)),
{
    match text {
        None => Ok(DEFAULT_START_LINE),
        Some(t) => match parse_number("start", t, 1, usize::MAX as u64) {
            Ok(v) => Ok(v as usize),
            Err(e) => Err(e),
        },
    }
}

/// The number of lines to read, if one is given.
pub fn parse_line_count(text: Option<&str>) -> (r: Result<Option<usize>, PasteError>)
    ensures
        r matches Ok(c) ==> count_model(opt_str(text)) == Ok::<Option<usize>, ErrorView>(c),
        r matches Err(e) ==> count_model(opt_str(text)) == Err::<Option<usize>, ErrorView>(e@),
{
    match text {
        None => Ok(None),
        Some(t) => match parse_number("lines", t, 0, usize::MAX as u64) {
            Ok(v) => Ok(Some(v as usize)),
            Err(e) => Err(e),
        },
    }
}

/// The number of seconds after which the paste expires, if one is given.
pub fn parse_ttl(text: Option<&str>) -> (r: Result<Option<u32>, PasteError>)
    ensures
        r matches Ok(c) ==> ttl_model(opt_str(text)) == Ok::<Option<u32>, ErrorView>(c),
        r matches Err(e) ==> ttl_model(opt_str(text)) == Err::<Option<u32>, ErrorView>(e@),
{
    match text {
        None => Ok(None),
        Some(t) => match parse_number("ttl-seconds", t, 0, u32::MAX as u64) {
            Ok(v) => Ok(Some(v as u32)),
            Err(e) => Err(e),
        },
    }
}

} // verus!

verus! {

/// A start line of zero, or a start or line count that is not a number, is
/// refused with an error that names the option and holds its text.
pub proof fn lemma_bad_numbers_refused(t: Seq<char>)
    ensures
        decimal_value(t) is None || decimal_value(t) == Some(0nat) ==> start_model(Some(t))
            == Err::<usize, ErrorView>(ErrorView::InvalidParameter { name: "start"@, value: t }),
        decimal_value(t) is None ==> count_model(Some(t)) == Err::<Option<usize>, ErrorView>(
            ErrorView::InvalidParameter { name: "lines"@, value: t },
        ),
        decimal_value(t) is None ==> ttl_model(Some(t)) == Err::<Option<u32>, ErrorView>(
            ErrorView::InvalidParameter { name: "ttl-seconds"@, value: t },
        ),
{
}

} // verus!
