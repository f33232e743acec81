//! The transaction that takes one message of the feed: validate, then apply,
//! or turn the message away and leave the book as it was.

use crate::enums::BinanceMessage;
use crate::error::{ErrorView, OrderBookError};
use crate::levels::{lemma_write_level_valid, lemma_write_levels_valid};
use crate::structs::{
    levels_of, ticker_outcome, BookTickerUpdate, DepthUpdate, OrderBook, OrderBookView,
};
use vstd::prelude::*;

verus! {

impl OrderBookView {
    /// The outcome of one message: the next state of the book, or the reason
    /// the message is turned away.
    ///
    /// A best-price update must name the book's symbol, carry an id above the
    /// book's, and spell four numbers, checked in that order. A depth update
    /// carries no symbol and cannot fail to read; only its id is checked.
    pub open spec fn accept(self, message: BinanceMessage) -> Result<OrderBookView, ErrorView> {
        match message {
            BinanceMessage::BookTicker(update) => {
                if let Some(error) = self.symbol_verdict(update.symbol@) {
                    Err(error)
                } else if let Some(error) = self.sequence_verdict(update.last_update_id) {
                    Err(error)
                } else {
                    match ticker_outcome(update) {
                        Ok(data) => Ok(self.apply_ticker(data)),
                        Err(error) => Err(error),
                    }
                }
            },
            BinanceMessage::DepthUpdate(update) => {
                if let Some(error) = self.sequence_verdict(update.last_update_id) {
                    Err(error)
                } else {
                    Ok(
                        self.apply_depth(
                            update.last_update_id,
                            levels_of(update.bids@),
                            levels_of(update.asks@),
                        ),
                    )
                }
            },
        }
    }

    /// The book after one message, accepted or not.
    pub open spec fn step(self, message: BinanceMessage) -> OrderBookView {
        match self.accept(message) {
            Ok(next) => next,
            Err(_) => self,
        }
    }

    /// The book after a sequence of messages, taken in order.
    pub open spec fn run(self, messages: Seq<BinanceMessage>) -> OrderBookView
        decreases messages.len(),
    {
        if messages.len() == 0 {
            self
        } else {
            self.run(messages.drop_last()).step(messages.last())
        }
    }

    /// A message that this book has no reason to turn away, provided its id
    /// is fresh: a depth update, or a best-price update for the book's symbol
    /// whose four fields are numbers.
    pub open spec fn reads(self, message: BinanceMessage) -> bool {
        match message {
            BinanceMessage::BookTicker(update) => update.symbol@ == self.symbol && ticker_outcome(
                update,
            ) is Ok,
            BinanceMessage::DepthUpdate(_) => true,
        }
    }
}

impl OrderBook {
    /// Takes one message of the feed as a single transaction: the message is
    /// validated and, if it passes, applied in full; if it does not, the
    /// error says why and the book is left untouched.
    pub fn process_message(&mut self, message: BinanceMessage) -> (outcome: Result<
        (),
        OrderBookError,
    >)
        ensures
            match outcome {
                Ok(()) => old(self)@.accept(message) == Ok::<OrderBookView, ErrorView>(
                    final(self)@,
                ),
                Err(error) => old(self)@.accept(message) == Err::<OrderBookView, ErrorView>(
                    error@,
                ) && final(self)@ == old(self)@,
            },
            final(self)@ == old(self)@.step(message),
            final(self)@.well_formed(),
    {
        match message {
            BinanceMessage::BookTicker(update) => {
                self.is_symbol_same(update.symbol.as_str())?;
                self.is_update_sequential(update.last_update_id)?;
                let data = BookTickerUpdate::from_reader(update)?;
                self.update_book_ticker(&data);
                Ok(())
            },
            BinanceMessage::DepthUpdate(update) => {
                self.is_update_sequential(update.last_update_id)?;
                let data = DepthUpdate::from_reader(update);
                self.update_depth(&data);
                Ok(())
            },
        }
    }
}

/// An accepted message advances the book's id to its own, which was above
/// the id before, and keeps the symbol.
pub proof fn lemma_accepted_sets_id(book: OrderBookView, message: BinanceMessage)
    requires
        book.accept(message) is Ok,
    ensures
        book.step(message).last_update_id == message.update_id(),
        book.step(message).last_update_id > book.last_update_id,
        book.step(message).symbol == book.symbol,
{
}

/// A message that reads and carries an id above the book's is accepted.
pub proof fn lemma_fresh_is_accepted(book: OrderBookView, message: BinanceMessage)
    requires
        book.reads(message),
        message.update_id() > book.last_update_id,
    ensures
        book.accept(message) is Ok,
{
}

/// Whatever the message, the book's id never goes down and its symbol never
/// changes.
pub proof fn lemma_step_never_lowers_id(book: OrderBookView, message: BinanceMessage)
    ensures
        book.step(message).last_update_id >= book.last_update_id,
        book.step(message).symbol == book.symbol,
{
}

/// Whatever the message, a well-formed book stays well-formed: no level with
/// a quantity that is not positive is ever left on either side.
pub proof fn lemma_step_keeps_well_formed(book: OrderBookView, message: BinanceMessage)
    requires
        book.well_formed(),
    ensures
        book.step(message).well_formed(),
{
    match book.accept(message) {
        Ok(next) => {
            match message {
                BinanceMessage::BookTicker(update) => {
                    let data = ticker_outcome(update)->Ok_0;
                    lemma_write_level_valid(book.bids, data.bid_price, data.bid_qty);
                    lemma_write_level_valid(book.asks, data.ask_price, data.ask_qty);
                },
                BinanceMessage::DepthUpdate(update) => {
                    lemma_write_levels_valid(book.bids, levels_of(update.bids@));
                    lemma_write_levels_valid(book.asks, levels_of(update.asks@));
                },
            }
        },
        Err(_) => {},
    }
}

/// A message whose id is not above the book's is turned away and changes
/// nothing, whatever else it holds.
pub proof fn lemma_stale_changes_nothing(book: OrderBookView, message: BinanceMessage)
    requires
        message.update_id() <= book.last_update_id,
    ensures
        book.accept(message) is Err,
        book.step(message) == book,
{
}

/// Once a message has been applied, a second message under the same id, or
/// under any id not above it, leaves the book exactly as the first left it.
pub proof fn lemma_duplicate_changes_nothing(
    book: OrderBookView,
    first: BinanceMessage,
    second: BinanceMessage,
)
    requires
        book.accept(first) is Ok,
        second.update_id() <= first.update_id(),
    ensures
        book.step(first).step(second) == book.step(first),
{
    lemma_accepted_sets_id(book, first);
    lemma_stale_changes_nothing(book.step(first), second);
}

/// Taking the same message twice is the same as taking it once.
pub proof fn lemma_replay_changes_nothing(book: OrderBookView, message: BinanceMessage)
    ensures
        book.step(message).step(message) == book.step(message),
{
    if book.accept(message) is Ok {
        lemma_duplicate_changes_nothing(book, message, message);
    }
}

/// A sequence of messages that read, with ids that rise strictly from above
/// the book's id, is applied in full: every message is accepted in its turn,
/// and the book ends at the id of the last one.
pub proof fn lemma_run_ends_at_last_id(book: OrderBookView, messages: Seq<BinanceMessage>)
    requires
        messages.len() > 0,
        forall|index: int| 0 <= index < messages.len() ==> book.reads(#[trigger] messages[index]),
        messages[0].update_id() > book.last_update_id,
        forall|earlier: int, later: int|
            0 <= earlier < later < messages.len() ==> messages[earlier].update_id()
                < messages[later].update_id(),
    ensures
        book.run(messages).last_update_id == messages.last().update_id(),
        book.run(messages).symbol == book.symbol,
        forall|index: int|
            0 <= index < messages.len() ==> (#[trigger] book.run(messages.take(index))).accept(
                messages[index],
            ) is Ok,
    decreases messages.len(),
{
    let front = messages.drop_last();
    let last = messages.last();
    if front.len() == 0 {
        lemma_fresh_is_accepted(book, last);
        lemma_accepted_sets_id(book, last);
    } else {
        lemma_run_ends_at_last_id(book, front);
        let before = book.run(front);
        lemma_fresh_is_accepted(before, last);
        lemma_accepted_sets_id(before, last);
        assert forall|index: int| 0 <= index < messages.len() implies (#[trigger] book.run(
            messages.take(index),
        )).accept(messages[index]) is Ok by {
            if index < front.len() {
                assert(messages.take(index) =~= front.take(index));
            } else {
                assert(messages.take(index) =~= front);
            }
        }
    }
}

} // verus!
