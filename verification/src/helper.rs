//! Reading the numeric fields of a wire record.
//!
//! A field arrives already scanned: either the number its text spelled, or
//! the scanner's reason for refusing the text.

use crate::error::{parse_detail, ErrorView, OrderBookError};
use crate::number::Number;
use vstd::prelude::*;

verus! {

/// What a strict reader makes of a scanned field: the number, or a parse
/// error that names the field and repeats the scanner's reason.
pub open spec fn field_outcome(value: Result<Number, String>, name: Seq<char>) -> Result<
    Number,
    ErrorView,
> {
    match value {
        Ok(number) => Ok(number),
        Err(reason) => Err(ErrorView::ParseError(parse_detail(name, reason@))),
    }
}

/// What a lenient reader makes of a scanned field: the number, or zero where
/// the text was refused.
pub open spec fn or_zero(value: Result<Number, String>) -> Number {
    match value {
        Ok(number) => number,
        Err(_) => Number::zero(),
    }
}

/// Reads the field `name` strictly.
pub fn parse_f64(value: &Result<Number, String>, name: &str) -> (outcome: Result<
    Number,
    OrderBookError,
>)
    ensures
        match outcome {
            Ok(number) => field_outcome(*value, name@) == Ok::<Number, ErrorView>(number),
            Err(error) => field_outcome(*value, name@) == Err::<Number, ErrorView>(error@),
        },
{
    match value {
        Ok(number) => Ok(*number),
        Err(reason) => Err(OrderBookError::parse(name, reason.as_str())),
    }
}

/// Reads a field leniently.
pub fn number_or_zero(value: &Result<Number, String>) -> (number: Number)
    ensures
        number == or_zero(*value),
{
    match value {
        Ok(number) => *number,
        Err(_) => Number::zero(),
    }
}

} // verus!
