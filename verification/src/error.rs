//! The conditions under which the book turns an update away.

use crate::text::{decimal, push_decimal};
use vstd::prelude::*;
use vstd::string::*;

verus! {

/// Why an update was not applied. Each condition is reported to the caller
/// and leaves the book as it was.
#[derive(Debug)]
pub enum OrderBookError {
    /// The update is for another symbol than the one the book tracks.
    DifferentSymbol(String),
    /// The update's id is not above the id of the last update applied.
    UpdateIdOutdated(String),
    /// A numeric field of a best-price update is not a number.
    ParseError(String),
    /// The payload has neither the shape of a best-price update nor that of
    /// a depth update.
    IncorrectJsonData,
}

/// An error with its detail text as a sequence of characters.
pub enum ErrorView {
    DifferentSymbol(Seq<char>),
    UpdateIdOutdated(Seq<char>),
    ParseError(Seq<char>),
    IncorrectJsonData,
}

impl View for OrderBookError {
    type V = ErrorView;

    open spec fn view(&self) -> ErrorView {
        match self {
            OrderBookError::DifferentSymbol(detail) => ErrorView::DifferentSymbol(detail@),
            OrderBookError::UpdateIdOutdated(detail) => ErrorView::UpdateIdOutdated(detail@),
            OrderBookError::ParseError(detail) => ErrorView::ParseError(detail@),
            OrderBookError::IncorrectJsonData => ErrorView::IncorrectJsonData,
        }
    }
}

/// The detail of a symbol mismatch.
pub open spec fn different_symbol_detail(expected: Seq<char>, found: Seq<char>) -> Seq<char> {
    "Symbol is different! expected: "@ + expected + ", found: "@ + found
}

/// The detail of a stale update.
pub open spec fn outdated_detail(update_id: u64) -> Seq<char> {
    "Skipping outdated update: "@ + decimal(update_id as nat)
}

/// The detail of a field that is not a number: the field's name, then the
/// reason the scanner gave.
pub open spec fn parse_detail(name: Seq<char>, reason: Seq<char>) -> Seq<char> {
    "Error parsing "@ + name + ": "@ + reason
}

impl ErrorView {
    /// The line shown to the user for this error.
    pub open spec fn text(self) -> Seq<char> {
        match self {
            ErrorView::DifferentSymbol(detail) => "Symbol is different: "@ + detail,
            ErrorView::UpdateIdOutdated(detail) => "lastUpdateId is outdated: "@ + detail,
            ErrorView::ParseError(detail) => "Parse error: "@ + detail,
            ErrorView::IncorrectJsonData => "Json data is incorrect!"@,
        }
    }
}

impl OrderBookError {
    /// The mismatch between the symbol the book tracks and the one found in
    /// an update.
    pub fn different_symbol(expected: &str, found: &str) -> (error: OrderBookError)
        ensures
            error@ == ErrorView::DifferentSymbol(different_symbol_detail(expected@, found@)),
    {
        let mut detail = String::from_str("Symbol is different! expected: ");
        detail.append(expected);
        detail.append(", found: ");
        detail.append(found);
        OrderBookError::DifferentSymbol(detail)
    }

    /// The rejection of an update whose id is not above the book's.
    pub fn outdated(update_id: u64) -> (error: OrderBookError)
        ensures
            error@ == ErrorView::UpdateIdOutdated(outdated_detail(update_id)),
    {
        let mut detail = String::from_str("Skipping outdated update: ");
        push_decimal(&mut detail, update_id);
        OrderBookError::UpdateIdOutdated(detail)
    }

    /// The rejection of the field `name`, which the scanner refused for
    /// `reason`.
    pub fn parse(name: &str, reason: &str) -> (error: OrderBookError)
        ensures
            error@ == ErrorView::ParseError(parse_detail(name@, reason@)),
    {
        let mut detail = String::from_str("Error parsing ");
        detail.append(name);
        detail.append(": ");
        detail.append(reason);
        OrderBookError::ParseError(detail)
    }

    /// The line shown to the user for this error.
    pub fn to_string(&self) -> (text: String)
        ensures
            text@ == self@.text(),
    {
        match self {
            OrderBookError::DifferentSymbol(detail) => {
                let mut text = String::from_str("Symbol is different: ");
                text.append(detail.as_str());
                text
            },
            OrderBookError::UpdateIdOutdated(detail) => {
                let mut text = String::from_str("lastUpdateId is outdated: ");
                text.append(detail.as_str());
                text
            },
            OrderBookError::ParseError(detail) => {
                let mut text = String::from_str("Parse error: ");
                text.append(detail.as_str());
                text
            },
            OrderBookError::IncorrectJsonData => String::from_str("Json data is incorrect!"),
        }
    }
}

} // verus!
