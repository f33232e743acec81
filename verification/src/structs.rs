//! The book, the two kinds of update it accepts, and the wire records the
//! updates are read from.

use crate::error::{different_symbol_detail, outdated_detail, ErrorView, OrderBookError};
use crate::helper::{field_outcome, number_or_zero, or_zero, parse_f64};
use crate::levels::{
    is_highest, is_lowest, levels_valid, write_level, write_levels, Level, PriceLevels,
};
use crate::number::Number;
use vstd::prelude::*;
use vstd::string::*;

verus! {

/// A best-price update: the single best bid and the single best ask.
#[derive(Debug)]
pub struct BookTickerUpdate {
    pub last_update_id: u64,
    pub bid_price: Number,
    pub bid_qty: Number,
    pub ask_price: Number,
    pub ask_qty: Number,
}

/// A depth update: any number of level writes on each side, in wire order.
#[derive(Debug)]
pub struct DepthUpdate {
    pub last_update_id: u64,
    pub bids: Vec<(Number, Number)>,
    pub asks: Vec<(Number, Number)>,
}

/// A best-price update as it comes off the wire, its numeric fields scanned.
#[derive(Debug)]
pub struct BookTickerUpdateReader {
    pub last_update_id: u64,
    pub symbol: String,
    pub bid_price: Result<Number, String>,
    pub bid_qty: Result<Number, String>,
    pub ask_price: Result<Number, String>,
    pub ask_qty: Result<Number, String>,
}

/// A depth update as it comes off the wire: each level a `[price, quantity]`
/// pair of scanned fields.
#[derive(Debug)]
pub struct DepthUpdateReader {
    pub last_update_id: u64,
    pub bids: Vec<[Result<Number, String>; 2]>,
    pub asks: Vec<[Result<Number, String>; 2]>,
}

/// The best-price update that a wire record stands for. The four fields are
/// read strictly in the order bid price, bid quantity, ask price, ask
/// quantity; the first one that is not a number decides the error.
pub open spec fn ticker_outcome(reader: BookTickerUpdateReader) -> Result<
    BookTickerUpdate,
    ErrorView,
> {
    match field_outcome(reader.bid_price, "bid_price"@) {
        Err(error) => Err(error),
        Ok(bid_price) => match field_outcome(reader.bid_qty, "bid_qty"@) {
            Err(error) => Err(error),
            Ok(bid_qty) => match field_outcome(reader.ask_price, "ask_price"@) {
                Err(error) => Err(error),
                Ok(ask_price) => match field_outcome(reader.ask_qty, "ask_qty"@) {
                    Err(error) => Err(error),
                    Ok(ask_qty) => Ok(
                        BookTickerUpdate {
                            last_update_id: reader.last_update_id,
                            bid_price,
                            bid_qty,
                            ask_price,
                            ask_qty,
                        },
                    ),
                },
            },
        },
    }
}

/// The level that a wire pair stands for, each field read leniently.
pub open spec fn level_of(pair: [Result<Number, String>; 2]) -> (Number, Number) {
    (or_zero(pair[0]), or_zero(pair[1]))
}

/// The levels that a sequence of wire pairs stands for, in the same order.
pub open spec fn levels_of(pairs: Seq<[Result<Number, String>; 2]>) -> Seq<(Number, Number)> {
    Seq::new(pairs.len(), |index: int| level_of(pairs[index]))
}

impl BookTickerUpdate {
    /// A best-price update from its five values.
    pub fn new(
        last_update_id: u64,
        bid_price: Number,
        bid_qty: Number,
        ask_price: Number,
        ask_qty: Number,
    ) -> (update: BookTickerUpdate)
        ensures
            update == (BookTickerUpdate { last_update_id, bid_price, bid_qty, ask_price, ask_qty }),
    {
        BookTickerUpdate { last_update_id, bid_price, bid_qty, ask_price, ask_qty }
    }

    /// Reads a wire record strictly: one field that is not a number rejects
    /// the whole update.
    pub fn from_reader(reader: BookTickerUpdateReader) -> (outcome: Result<
        BookTickerUpdate,
        OrderBookError,
    >)
        ensures
            match outcome {
                Ok(update) => ticker_outcome(reader) == Ok::<BookTickerUpdate, ErrorView>(update),
                Err(error) => ticker_outcome(reader) == Err::<BookTickerUpdate, ErrorView>(
                    error@,
                ),
            },
    {
        let bid_price = parse_f64(&reader.bid_price, "bid_price")?;
        let bid_qty = parse_f64(&reader.bid_qty, "bid_qty")?;
        let ask_price = parse_f64(&reader.ask_price, "ask_price")?;
        let ask_qty = parse_f64(&reader.ask_qty, "ask_qty")?;
        Ok(
            BookTickerUpdate {
                last_update_id: reader.last_update_id,
                bid_price,
                bid_qty,
                ask_price,
                ask_qty,
            },
        )
    }
}

/// Reads a sequence of wire pairs leniently.
fn read_levels(pairs: &Vec<[Result<Number, String>; 2]>) -> (levels: Vec<(Number, Number)>)
    ensures
        levels@ == levels_of(pairs@),
{
    let mut levels: Vec<(Number, Number)> = Vec::new();
    let mut index: usize = 0;
    while index < pairs.len()
        invariant
            index <= pairs.len(),
            levels@ == levels_of(pairs@.take(index as int)),
        decreases pairs.len() - index,
    {
        let pair = &pairs[index];
        let price = number_or_zero(&pair[0]);
        let quantity = number_or_zero(&pair[1]);
        levels.push((price, quantity));
        index += 1;
    }
    levels
}

impl DepthUpdate {
    /// A depth update from its id and the levels of each side.
    pub fn new(
        last_update_id: u64,
        bids: Vec<(Number, Number)>,
        asks: Vec<(Number, Number)>,
    ) -> (update: DepthUpdate)
        ensures
            update == (DepthUpdate { last_update_id, bids, asks }),
    {
        DepthUpdate { last_update_id, bids, asks }
    }

    /// Reads a wire record leniently: a field that is not a number counts as
    /// zero, and the update is never rejected.
    pub fn from_reader(reader: DepthUpdateReader) -> (update: DepthUpdate)
        ensures
            update.last_update_id == reader.last_update_id,
            update.bids@ == levels_of(reader.bids@),
            update.asks@ == levels_of(reader.asks@),
    {
        DepthUpdate {
            last_update_id: reader.last_update_id,
            bids: read_levels(&reader.bids),
            asks: read_levels(&reader.asks),
        }
    }
}

/// The book of one symbol: its bids and asks, and the id of the last update
/// that was applied.
#[derive(Debug)]
pub struct OrderBook {
    symbol: String,
    last_update_id: u64,
    bids: PriceLevels,
    asks: PriceLevels,
}

/// The state of a book as plain values.
pub struct OrderBookView {
    pub symbol: Seq<char>,
    pub last_update_id: u64,
    pub bids: Map<i64, Level>,
    pub asks: Map<i64, Level>,
}

impl OrderBookView {
    /// No level on either side holds a quantity that is not positive, and
    /// each level sits under the rank of its price.
    pub open spec fn well_formed(self) -> bool {
        levels_valid(self.bids) && levels_valid(self.asks)
    }

    /// The book after a best-price update: the id advances to the update's,
    /// the bid is written on the bid side and the ask on the ask side, and
    /// every other level stays.
    pub open spec fn apply_ticker(self, data: BookTickerUpdate) -> OrderBookView {
        OrderBookView {
            symbol: self.symbol,
            last_update_id: data.last_update_id,
            bids: write_level(self.bids, data.bid_price, data.bid_qty),
            asks: write_level(self.asks, data.ask_price, data.ask_qty),
        }
    }

    /// The book after a depth update: the id advances to the update's, and
    /// the levels of each side are written in order.
    pub open spec fn apply_depth(
        self,
        update_id: u64,
        bids: Seq<(Number, Number)>,
        asks: Seq<(Number, Number)>,
    ) -> OrderBookView {
        OrderBookView {
            symbol: self.symbol,
            last_update_id: update_id,
            bids: write_levels(self.bids, bids),
            asks: write_levels(self.asks, asks),
        }
    }

    /// The quantity at `price`: that of the bid side where the price holds a
    /// bid, else that of the ask side where it holds an ask, else zero.
    pub open spec fn volume_at(self, price: Number) -> Number {
        if self.bids.contains_key(price.rank()) {
            self.bids[price.rank()].quantity
        } else if self.asks.contains_key(price.rank()) {
            self.asks[price.rank()].quantity
        } else {
            Number::zero()
        }
    }

    /// The verdict on a candidate symbol: `None` where it is the book's own.
    pub open spec fn symbol_verdict(self, symbol: Seq<char>) -> Option<ErrorView> {
        if symbol == self.symbol {
            None
        } else {
            Some(ErrorView::DifferentSymbol(different_symbol_detail(self.symbol, symbol)))
        }
    }

    /// The verdict on a candidate update id: `None` where it is above the id
    /// of the last update applied.
    pub open spec fn sequence_verdict(self, update_id: u64) -> Option<ErrorView> {
        if update_id > self.last_update_id {
            None
        } else {
            Some(ErrorView::UpdateIdOutdated(outdated_detail(update_id)))
        }
    }
}

impl View for OrderBook {
    type V = OrderBookView;

    closed spec fn view(&self) -> OrderBookView {
        OrderBookView {
            symbol: self.symbol@,
            last_update_id: self.last_update_id,
            bids: self.bids@,
            asks: self.asks@,
        }
    }
}

impl Clone for OrderBook {
    fn clone(&self) -> (copy: Self)
        ensures
            copy@ == self@,
            copy@.well_formed(),
    {
        OrderBook {
            symbol: self.symbol.clone(),
            last_update_id: self.last_update_id,
            bids: self.bids.clone(),
            asks: self.asks.clone(),
        }
    }
}

impl OrderBook {
    /// An empty book for `symbol`, with no update applied yet.
    pub fn new(symbol: String) -> (book: OrderBook)
        ensures
            book@ == (OrderBookView {
                symbol: symbol@,
                last_update_id: 0,
                bids: Map::empty(),
                asks: Map::empty(),
            }),
            book@.well_formed(),
    {
        OrderBook { symbol, last_update_id: 0, bids: PriceLevels::new(), asks: PriceLevels::new() }
    }

    /// Applies a best-price update without checking it.
    pub fn update_book_ticker(&mut self, data: &BookTickerUpdate)
        ensures
            final(self)@ == old(self)@.apply_ticker(*data),
            final(self)@.well_formed(),
    {
        self.last_update_id = data.last_update_id;
        self.bids.set(data.bid_price, data.bid_qty);
        self.asks.set(data.ask_price, data.ask_qty);
    }

    /// Applies a depth update without checking it.
    pub fn update_depth(&mut self, data: &DepthUpdate)
        ensures
            final(self)@ == old(self)@.apply_depth(data.last_update_id, data.bids@, data.asks@),
            final(self)@.well_formed(),
    {
        self.last_update_id = data.last_update_id;
        self.bids.write_all(&data.bids);
        self.asks.write_all(&data.asks);
    }

    /// The best bid and the best ask, each as `(price, quantity)`: the bid
    /// with the highest price and the ask with the lowest. `None` when either
    /// side is empty.
    pub fn get_best_bid_ask(&self) -> (best: Option<((Number, Number), (Number, Number))>)
        ensures
            self@.well_formed(),
            best is None <==> (self@.bids == Map::<i64, Level>::empty() || self@.asks == Map::<
                i64,
                Level,
            >::empty()),
            match best {
                Some((bid, ask)) => {
                    &&& is_highest(self@.bids, bid.0.rank())
                    &&& self@.bids[bid.0.rank()] == (Level { price: bid.0, quantity: bid.1 })
                    &&& is_lowest(self@.asks, ask.0.rank())
                    &&& self@.asks[ask.0.rank()] == (Level { price: ask.0, quantity: ask.1 })
                },
                None => true,
            },
    {
        proof {
            use_type_invariant(&self.bids);
            use_type_invariant(&self.asks);
        }
        let best_bid = self.bids.last();
        let best_ask = self.asks.first();
        match (best_bid, best_ask) {
            (Some(bid), Some(ask)) => Some((bid, ask)),
            _ => None,
        }
    }

    /// The quantity standing at `price`; a bid takes precedence over an ask
    /// at the same price, and a price that holds no level has quantity zero.
    pub fn get_volume_at_price(&self, price: Number) -> (quantity: Number)
        ensures
            self@.well_formed(),
            quantity == self@.volume_at(price),
    {
        proof {
            use_type_invariant(&self.bids);
            use_type_invariant(&self.asks);
        }
        match self.bids.get(price) {
            Some(quantity) => quantity,
            None => match self.asks.get(price) {
                Some(quantity) => quantity,
                None => Number::zero(),
            },
        }
    }

    /// Accepts `symbol` exactly when it is the symbol the book tracks.
    pub fn is_symbol_same(&self, symbol: &str) -> (verdict: Result<(), OrderBookError>)
        ensures
            self@.well_formed(),
            match verdict {
                Ok(()) => self@.symbol_verdict(symbol@) is None,
                Err(error) => self@.symbol_verdict(symbol@) == Some(error@),
            },
    {
        proof {
            use_type_invariant(&self.bids);
            use_type_invariant(&self.asks);
        }
        let candidate = String::from_str(symbol);
        if self.symbol != candidate {
            return Err(OrderBookError::different_symbol(self.symbol.as_str(), symbol));
        }
        Ok(())
    }

    /// Accepts `last_update_id` exactly when it is above the id of the last
    /// update applied; an equal id is a duplicate and is turned away.
    pub fn is_update_sequential(&self, last_update_id: u64) -> (verdict: Result<
        (),
        OrderBookError,
    >)
        ensures
            self@.well_formed(),
            match verdict {
                Ok(()) => self@.sequence_verdict(last_update_id) is None,
                Err(error) => self@.sequence_verdict(last_update_id) == Some(error@),
            },
    {
        proof {
            use_type_invariant(&self.bids);
            use_type_invariant(&self.asks);
        }
        if self.last_update_id >= last_update_id {
            return Err(OrderBookError::outdated(last_update_id));
        }
        Ok(())
    }
}

} // verus!
