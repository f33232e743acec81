//! The decisions of the menu: which command an answer stands for, and what
//! has to be asked next.

use crate::enums::MenuCommand;
use crate::number::Number;
use vstd::prelude::*;
use vstd::string::*;

verus! {

/// A command together with whether the answer that led to it was understood.
/// An answer that was not understood is reported to the user, and the
/// command runs in its place.
#[derive(Debug)]
pub struct Choice {
    pub command: MenuCommand,
    pub understood: bool,
}

/// What follows from the selection of a menu entry.
#[derive(Debug)]
pub enum MenuStep {
    /// The selection settles the command.
    Settled(Choice),
    /// A price has to be asked for.
    AskPrice,
    /// A line of JSON has to be asked for.
    AskJson,
}

/// The step that a selection stands for. The selection is the line the user
/// entered, without the white space around it.
pub open spec fn selection_step(choice: Seq<char>) -> MenuStep {
    if choice == seq!['1'] {
        MenuStep::Settled(Choice { command: MenuCommand::BestBidAsk, understood: true })
    } else if choice == seq!['2'] {
        MenuStep::AskPrice
    } else if choice == seq!['3'] {
        MenuStep::AskJson
    } else if choice == seq!['4'] {
        MenuStep::Settled(Choice { command: MenuCommand::WebSocketProcessing, understood: true })
    } else if choice == seq!['5'] {
        MenuStep::Settled(Choice { command: MenuCommand::Exit, understood: true })
    } else {
        MenuStep::Settled(Choice { command: MenuCommand::BestBidAsk, understood: false })
    }
}

/// The choice that an answer to the question for a price stands for.
pub open spec fn price_choice(price: Result<Number, String>) -> Choice {
    match price {
        Ok(number) => Choice { command: MenuCommand::VolumeAtPrice(number), understood: true },
        Err(_) => Choice { command: MenuCommand::BestBidAsk, understood: false },
    }
}

impl MenuStep {
    /// Reads the selection of a menu entry: `1` to `5` are the entries of the
    /// menu, and anything else falls back to showing the best bid and ask.
    pub fn select(choice: &str) -> (step: MenuStep)
        ensures
            step == selection_step(choice@),
    {
        if choice.unicode_len() != 1 {
            return MenuStep::Settled(
                Choice { command: MenuCommand::BestBidAsk, understood: false },
            );
        }
        let entry = choice.get_char(0);
        assert(choice@ =~= seq![entry]);
        if entry == '1' {
            MenuStep::Settled(Choice { command: MenuCommand::BestBidAsk, understood: true })
        } else if entry == '2' {
            MenuStep::AskPrice
        } else if entry == '3' {
            MenuStep::AskJson
        } else if entry == '4' {
            MenuStep::Settled(
                Choice { command: MenuCommand::WebSocketProcessing, understood: true },
            )
        } else if entry == '5' {
            MenuStep::Settled(Choice { command: MenuCommand::Exit, understood: true })
        } else {
            MenuStep::Settled(Choice { command: MenuCommand::BestBidAsk, understood: false })
        }
    }
}

impl Choice {
    /// Reads the answer to the question for a price, already scanned: a
    /// number asks for the quantity at that price, and anything else falls
    /// back to showing the best bid and ask.
    pub fn price_entered(price: &Result<Number, String>) -> (choice: Choice)
        ensures
            choice == price_choice(*price),
    {
        match price {
            Ok(number) => Choice { command: MenuCommand::VolumeAtPrice(*number), understood: true },
            Err(_) => Choice { command: MenuCommand::BestBidAsk, understood: false },
        }
    }
}

} // verus!
