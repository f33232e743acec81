//! One side of the book: price levels in ascending order of price.

use crate::number::Number;
use std::collections::BTreeMap;
use vstd::prelude::*;

verus! {

/// A resting price level: the price as it was first written, and the
/// quantity now standing at it.
#[derive(Clone, Copy, Debug)]
pub struct Level {
    pub price: Number,
    pub quantity: Number,
}

/// Every level sits under the rank of its own price and holds a positive
/// quantity.
pub open spec fn levels_valid(levels: Map<i64, Level>) -> bool {
    forall|rank: i64| #[trigger]
        levels.contains_key(rank) ==> levels[rank].price.rank() == rank
            && levels[rank].quantity.is_positive()
}

/// The effect of one `(price, quantity)` write: a positive quantity is stored
/// at the price, replacing what stood there; any other quantity clears the
/// price. A level that is overwritten keeps the price it was first written
/// with.
pub open spec fn write_level(levels: Map<i64, Level>, price: Number, quantity: Number) -> Map<
    i64,
    Level,
> {
    let rank = price.rank();
    if quantity.is_positive() {
        let kept = if levels.contains_key(rank) {
            levels[rank].price
        } else {
            price
        };
        levels.insert(rank, Level { price: kept, quantity })
    } else {
        levels.remove(rank)
    }
}

/// The effect of a batch of writes, applied in the order of the sequence.
pub open spec fn write_levels(levels: Map<i64, Level>, entries: Seq<(Number, Number)>) -> Map<
    i64,
    Level,
>
    decreases entries.len(),
{
    if entries.len() == 0 {
        levels
    } else {
        let (price, quantity) = entries.last();
        write_level(write_levels(levels, entries.drop_last()), price, quantity)
    }
}

/// One write decides the level at its own price and leaves every other
/// price as it was: afterwards the price holds a level exactly when the
/// quantity written was positive, and that level holds the quantity.
pub proof fn lemma_write_level_at(
    levels: Map<i64, Level>,
    price: Number,
    quantity: Number,
    rank: i64,
)
    ensures
        rank == price.rank() ==> {
            &&& write_level(levels, price, quantity).contains_key(rank) == quantity.is_positive()
            &&& quantity.is_positive() ==> write_level(levels, price, quantity)[rank].quantity
                == quantity
        },
        rank != price.rank() ==> {
            &&& write_level(levels, price, quantity).contains_key(rank) == levels.contains_key(rank)
            &&& write_level(levels, price, quantity)[rank] == levels[rank]
        },
{
}

/// A write keeps the levels valid: it never leaves a quantity that is not
/// positive behind.
pub proof fn lemma_write_level_valid(levels: Map<i64, Level>, price: Number, quantity: Number)
    requires
        levels_valid(levels),
    ensures
        levels_valid(write_level(levels, price, quantity)),
{
}

/// A batch of writes keeps the levels valid.
pub proof fn lemma_write_levels_valid(levels: Map<i64, Level>, entries: Seq<(Number, Number)>)
    requires
        levels_valid(levels),
    ensures
        levels_valid(write_levels(levels, entries)),
    decreases entries.len(),
{
    if entries.len() > 0 {
        lemma_write_levels_valid(levels, entries.drop_last());
        let (price, quantity) = entries.last();
        lemma_write_level_valid(write_levels(levels, entries.drop_last()), price, quantity);
    }
}

/// A batch leaves a price alone that none of its entries names.
pub proof fn lemma_write_levels_untouched(
    levels: Map<i64, Level>,
    entries: Seq<(Number, Number)>,
    rank: i64,
)
    requires
        forall|index: int| 0 <= index < entries.len() ==> entries[index].0.rank() != rank,
    ensures
        write_levels(levels, entries).contains_key(rank) == levels.contains_key(rank),
        write_levels(levels, entries)[rank] == levels[rank],
    decreases entries.len(),
{
    if entries.len() > 0 {
        lemma_write_levels_untouched(levels, entries.drop_last(), rank);
    }
}

/// Within a batch the last entry for a price wins: if `last` is the position
/// of the final entry that names the price, the price afterwards holds a
/// level exactly when that entry's quantity is positive, and the level holds
/// that quantity, whatever earlier entries wrote there.
pub proof fn lemma_write_levels_last_wins(
    levels: Map<i64, Level>,
    entries: Seq<(Number, Number)>,
    last: int,
)
    requires
        0 <= last < entries.len(),
        forall|index: int|
            last < index < entries.len() ==> entries[index].0.rank() != entries[last].0.rank(),
    ensures
        write_levels(levels, entries).contains_key(entries[last].0.rank())
            == entries[last].1.is_positive(),
        entries[last].1.is_positive() ==> write_levels(
            levels,
            entries,
        )[entries[last].0.rank()].quantity == entries[last].1,
    decreases entries.len(),
{
    if last < entries.len() - 1 {
        let front = entries.drop_last();
        lemma_write_levels_last_wins(levels, front, last);
    }
}

/// `rank` holds a level and no level stands below it.
pub open spec fn is_lowest(levels: Map<i64, Level>, rank: i64) -> bool {
    &&& levels.contains_key(rank)
    &&& forall|other: i64| levels.contains_key(other) ==> rank <= other
}

/// `rank` holds a level and no level stands above it.
pub open spec fn is_highest(levels: Map<i64, Level>, rank: i64) -> bool {
    &&& levels.contains_key(rank)
    &&& forall|other: i64| levels.contains_key(other) ==> other <= rank
}

/// `BTreeMap::first_key_value`: the entry under the least key, or `None` when
/// the map holds no entry.
#[verifier::external_body]
fn first_entry(levels: &BTreeMap<i64, Level>) -> (entry: Option<(&i64, &Level)>)
    ensures
        match entry {
            Some((rank, level)) => is_lowest(levels@, *rank) && levels@[*rank] == *level,
            None => forall|rank: i64| !levels@.contains_key(rank),
        },
{
    levels.first_key_value()
}

/// `BTreeMap::last_key_value`: the entry under the greatest key, or `None`
/// when the map holds no entry.
#[verifier::external_body]
fn last_entry(levels: &BTreeMap<i64, Level>) -> (entry: Option<(&i64, &Level)>)
    ensures
        match entry {
            Some((rank, level)) => is_highest(levels@, *rank) && levels@[*rank] == *level,
            None => forall|rank: i64| !levels@.contains_key(rank),
        },
{
    levels.last_key_value()
}

/// Price levels keyed by the rank of their price.
#[derive(Debug)]
pub struct PriceLevels {
    levels: BTreeMap<i64, Level>,
}

impl View for PriceLevels {
    type V = Map<i64, Level>;

    closed spec fn view(&self) -> Map<i64, Level> {
        self.levels@
    }
}

impl Clone for PriceLevels {
    fn clone(&self) -> (copy: Self)
        ensures
            copy@ == self@,
            copy.well_formed(),
    {
        proof {
            use_type_invariant(self);
        }
        PriceLevels { levels: self.levels.clone() }
    }
}

impl PriceLevels {
    /// What holds of every value of this type: the levels are valid.
    #[verifier::type_invariant]
    pub open spec fn well_formed(&self) -> bool {
        levels_valid(self@)
    }

    /// A side without levels.
    pub fn new() -> (levels: PriceLevels)
        ensures
            levels@ == Map::<i64, Level>::empty(),
            levels.well_formed(),
    {
        PriceLevels { levels: BTreeMap::new() }
    }

    /// Writes one level.
    pub fn set(&mut self, price: Number, quantity: Number)
        ensures
            final(self)@ == write_level(old(self)@, price, quantity),
            final(self).well_formed(),
    {
        proof {
            use_type_invariant(&*self);
        }
        let rank = price.rank();
        // The map is taken out while it changes and put back when the write
        // is complete.
        let mut levels = BTreeMap::new();
        std::mem::swap(&mut levels, &mut self.levels);
        if quantity.is_positive() {
            let kept = match levels.get(&rank) {
                Some(level) => level.price,
                None => price,
            };
            levels.insert(rank, Level { price: kept, quantity });
        } else {
            levels.remove(&rank);
        }
        self.levels = levels;
    }

    /// The quantity standing at `price`, if the price holds a level.
    pub fn get(&self, price: Number) -> (quantity: Option<Number>)
        ensures
            quantity == (if self@.contains_key(price.rank()) {
                Some(self@[price.rank()].quantity)
            } else {
                None
            }),
    {
        match self.levels.get(&price.rank()) {
            Some(level) => Some(level.quantity),
            None => None,
        }
    }

    /// The level with the lowest price, or `None` when no level stands.
    pub fn first(&self) -> (entry: Option<(Number, Number)>)
        ensures
            match entry {
                Some((price, quantity)) => {
                    &&& is_lowest(self@, price.rank())
                    &&& self@[price.rank()] == (Level { price, quantity })
                },
                None => self@ == Map::<i64, Level>::empty(),
            },
    {
        proof {
            use_type_invariant(self);
        }
        match first_entry(&self.levels) {
            Some((_, level)) => Some((level.price, level.quantity)),
            None => None,
        }
    }

    /// The level with the highest price, or `None` when no level stands.
    pub fn last(&self) -> (entry: Option<(Number, Number)>)
        ensures
            match entry {
                Some((price, quantity)) => {
                    &&& is_highest(self@, price.rank())
                    &&& self@[price.rank()] == (Level { price, quantity })
                },
                None => self@ == Map::<i64, Level>::empty(),
            },
    {
        proof {
            use_type_invariant(self);
        }
        match last_entry(&self.levels) {
            Some((_, level)) => Some((level.price, level.quantity)),
            None => None,
        }
    }

    /// Writes a batch of levels, one after the other in the order given.
    pub fn write_all(&mut self, entries: &Vec<(Number, Number)>)
        ensures
            final(self)@ == write_levels(old(self)@, entries@),
            final(self).well_formed(),
    {
        let mut index: usize = 0;
        while index < entries.len()
            invariant
                index <= entries.len(),
                self@ == write_levels(old(self)@, entries@.take(index as int)),
            decreases entries.len() - index,
        {
            let (price, quantity) = entries[index];
            self.set(price, quantity);
            proof {
                let done = entries@.take(index + 1);
                assert(done.drop_last() == entries@.take(index as int));
            }
            index += 1;
        }
        proof {
            assert(entries@.take(entries@.len() as int) == entries@);
            use_type_invariant(&*self);
        }
    }
}

} // verus!
