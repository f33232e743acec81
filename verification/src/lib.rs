//! A local mirror of one symbol's order book, kept current from a feed of
//! best-price and depth updates.
//!
//! The book holds two sides of price levels, the symbol it tracks and the id
//! of the last update it applied. An update is first validated (right symbol,
//! fresh id, readable fields) and then applied in full, or it is turned away
//! and the book stays as it was.
//!
//! Prices and quantities are IEEE 754 binary64 values. They cross the
//! boundary of this library as bit patterns ([`Number`]); turning decimal
//! text into such a value is left to the caller, who hands over each numeric
//! field already scanned.

pub mod enums;
pub mod error;
pub mod helper;
pub mod levels;
pub mod menu;
pub mod number;
pub mod process;
pub mod structs;
pub mod text;

pub use enums::{BinanceMessage, MenuCommand};
pub use error::{ErrorView, OrderBookError};
pub use levels::{Level, PriceLevels};
pub use menu::{Choice, MenuStep};
pub use number::Number;
pub use structs::{
    BookTickerUpdate, BookTickerUpdateReader, DepthUpdate, DepthUpdateReader, OrderBook,
    OrderBookView,
};
