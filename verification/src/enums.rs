//! The messages of the feed and the commands of the menu.

use crate::error::{ErrorView, OrderBookError};
use crate::number::Number;
use crate::structs::{BookTickerUpdateReader, DepthUpdateReader};
use vstd::prelude::*;

verus! {

/// One message of the feed, told apart by its shape.
#[derive(Debug)]
pub enum BinanceMessage {
    BookTicker(BookTickerUpdateReader),
    DepthUpdate(DepthUpdateReader),
}

/// What the user asks of the menu.
#[derive(Debug)]
pub enum MenuCommand {
    /// Show the best bid and the best ask.
    BestBidAsk,
    /// Show the quantity standing at a price.
    VolumeAtPrice(Number),
    /// Apply the update spelled by a line of JSON.
    JsonProcessing(String),
    /// Apply the next update that the feed delivered.
    WebSocketProcessing,
    /// Leave the menu.
    Exit,
}

impl BinanceMessage {
    /// The id that the message carries.
    pub open spec fn update_id(self) -> u64 {
        match self {
            BinanceMessage::BookTicker(update) => update.last_update_id,
            BinanceMessage::DepthUpdate(update) => update.last_update_id,
        }
    }

    /// Tells a payload's shape from the two attempts to read it: a payload
    /// that reads as a best-price update is one; else one that reads as a
    /// depth update is one; a payload that reads as neither is malformed.
    pub fn from_parsed(
        ticker: Option<BookTickerUpdateReader>,
        depth: Option<DepthUpdateReader>,
    ) -> (message: Result<BinanceMessage, OrderBookError>)
        ensures
            match ticker {
                Some(update) => message == Ok::<BinanceMessage, OrderBookError>(
                    BinanceMessage::BookTicker(update),
                ),
                None => match depth {
                    Some(update) => message == Ok::<BinanceMessage, OrderBookError>(
                        BinanceMessage::DepthUpdate(update),
                    ),
                    None => message matches Err(error) && error@ == ErrorView::IncorrectJsonData,
                },
            },
    {
        match ticker {
            Some(update) => Ok(BinanceMessage::BookTicker(update)),
            None => match depth {
                Some(update) => Ok(BinanceMessage::DepthUpdate(update)),
                None => Err(OrderBookError::IncorrectJsonData),
            },
        }
    }
}

} // verus!
