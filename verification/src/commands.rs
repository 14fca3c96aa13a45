//! The slash commands of the chat surface.

use vstd::prelude::*;

verus! {

/// A slash command with its arguments.
#[derive(Debug, Clone, PartialEq, Eq)]
pub enum Command {
    /// Show the help text.
    Help,
    /// Open the main menu; the conversation starts afresh.
    Start,
    /// Browse the categories.
    Browse,
    /// Show the saved items.
    Favorites,
    /// Show the items bid on.
    Mybids,
    /// Show one item.
    Item { id: i64 },
    /// Place a bid on an item.
    Bid { item_id: i64, amount: String },
    /// Admin: add a category.
    Addcat { name: String },
    /// Admin: begin the creation of an item.
    Additem,
    /// Admin: close an item.
    Close { item_id: i64 },
}

} // verus!
