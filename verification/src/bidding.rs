//! Bid acceptance: a bid is read, held against the item and against the
//! best bid so far, and only then recorded.

use crate::input::message_payload;
use crate::input::payload;
use crate::models::ItemRow;
use crate::models::ItemView;
use crate::money::cents_text;
use crate::money::money_of_text;
use crate::money::parse_money_to_cents;
use crate::money::push_cents;
use crate::money::MoneyError;
use crate::state::BidDraft;
use crate::state::StateChange;
use crate::state::StateChangeView;
use crate::text::int_text;
use crate::text::push_int;
use crate::text::trimmed;
use vstd::prelude::*;
use vstd::string::StringExecFns;

verus! {

/// Why a bid was not taken.
#[derive(Debug, Clone, Copy, PartialEq, Eq, Structural)]
pub enum BidError {
    /// The store could not be read or written; the bid may be tried again.
    Storage,
    /// The text is no amount of money.
    InvalidAmount(MoneyError),
    /// There is no such item.
    NotFound,
    /// The auction of the item is over.
    Closed,
    /// The bid does not exceed the best bid, whose amount is given.
    TooLow(i64),
    /// The first bid is below the start price, which is given.
    BelowStart(i64),
}

impl BidError {
    /// Whether trying again with another amount is pointless.
    pub open spec fn is_terminal(self) -> bool {
        self == BidError::NotFound || self == BidError::Closed
    }

    pub open spec fn user_message_text(self) -> Seq<char> {
        match self {
            BidError::InvalidAmount(_) => "Amount must match 0.00 format"@,
            BidError::NotFound => "Item not found."@,
            BidError::Closed => "Auction is closed."@,
            BidError::TooLow(value) => "Your bid must exceed "@ + cents_text(value as int) + "."@,
            BidError::BelowStart(value) => "Your bid must be at least "@ + cents_text(
                value as int,
            ) + "."@,
            BidError::Storage => "Temporary error placing bid."@,
        }
    }

    /// The sentence that names the error to the bidder.
    pub fn user_message(&self) -> (r: String)
        ensures
            r@ == self.user_message_text(),
    {
        match self {
            BidError::InvalidAmount(_) => String::from_str("Amount must match 0.00 format"),
            BidError::NotFound => String::from_str("Item not found."),
            BidError::Closed => String::from_str("Auction is closed."),
            BidError::TooLow(value) => {
                let mut out = String::from_str("Your bid must exceed ");
                push_cents(&mut out, *value);
                out.append(".");
                out
            },
            BidError::BelowStart(value) => {
                let mut out = String::from_str("Your bid must be at least ");
                push_cents(&mut out, *value);
                out.append(".");
                out
            },
            BidError::Storage => String::from_str("Temporary error placing bid."),
        }
    }
}

/// Whether an amount may be bid: it must exceed the best bid, or, where
/// there is none, reach the start price.
pub open spec fn amount_verdict(amount: i64, start_price: i64, previous_best: Option<(i64, i64)>)
    -> Result<i64, BidError> {
    match previous_best {
        Some((_, best)) => if amount <= best {
            Err(BidError::TooLow(best))
        } else {
            Ok(amount)
        },
        None => if amount < start_price {
            Err(BidError::BelowStart(start_price))
        } else {
            Ok(amount)
        },
    }
}

/// The verdict on a bid: first the amount must read as money, then the
/// item must exist, then it must be open, then the amount must be high
/// enough. `previous_best` is the bidder and the amount of the best bid.
pub open spec fn bid_verdict(
    amount_text: Seq<char>,
    item: Option<ItemView>,
    previous_best: Option<(i64, i64)>,
) -> Result<i64, BidError> {
    match money_of_text(trimmed(amount_text)) {
        Err(error) => Err(BidError::InvalidAmount(error)),
        Ok(amount) => match item {
            None => Err(BidError::NotFound),
            Some(item) => if !item.is_open {
                Err(BidError::Closed)
            } else {
                amount_verdict(amount, item.start_price, previous_best)
            },
        },
    }
}

/// Reads the amount of a bid.
pub fn parse_bid_amount(amount_text: &str) -> (r: Result<i64, BidError>)
    ensures
        r == match money_of_text(trimmed(amount_text@)) {
            Ok(amount) => Ok::<i64, BidError>(amount),
            Err(error) => Err(BidError::InvalidAmount(error)),
        },
{
    match parse_money_to_cents(amount_text) {
        Ok(amount) => Ok(amount),
        Err(error) => Err(BidError::InvalidAmount(error)),
    }
}

/// Holds the item of a bid to the rule that it exists and is open.
pub fn check_biddable(item: Option<ItemRow>) -> (r: Result<ItemRow, BidError>)
    ensures
        match r {
            Ok(found) => item == Some(found) && found.is_open,
            Err(error) => error == (if item is None {
                BidError::NotFound
            } else {
                BidError::Closed
            }) && (item is Some ==> !item->0.is_open),
        },
{
    match item {
        None => Err(BidError::NotFound),
        Some(found) => if found.is_open {
            Ok(found)
        } else {
            Err(BidError::Closed)
        },
    }
}

/// Holds an amount against the best bid and the start price.
pub fn check_amount(amount: i64, start_price: i64, previous_best: Option<(i64, i64)>) -> (r:
    Result<i64, BidError>)
    ensures
        r == amount_verdict(amount, start_price, previous_best),
{
    match previous_best {
        Some((_, best)) => if amount <= best {
            Err(BidError::TooLow(best))
        } else {
            Ok(amount)
        },
        None => if amount < start_price {
            Err(BidError::BelowStart(start_price))
        } else {
            Ok(amount)
        },
    }
}

/// Decides whether a bid may be recorded, and gives the item, the amount
/// in cents and the best bid that it beats.
pub fn validate_bid(item: Option<ItemRow>, amount: &str, previous_best: Option<(i64, i64)>) -> (r:
    Result<(ItemRow, i64, Option<(i64, i64)>), BidError>)
    ensures
        match r {
            Ok((found, cents, beaten)) => item == Some(found) && beaten == previous_best
                && bid_verdict(amount@, item.deep_view(), previous_best) == Ok::<
                i64,
                BidError,
            >(cents),
            Err(error) => bid_verdict(amount@, item.deep_view(), previous_best) == Err::<
                i64,
                BidError,
            >(error),
        },
{
    let cents = parse_bid_amount(amount)?;
    let found = check_biddable(item)?;
    check_amount(cents, found.start_price, previous_best)?;
    Ok((found, cents, previous_best))
}

/// What a message does to a bid that waits for its amount.
#[derive(Debug, Clone, PartialEq, Eq)]
pub enum BidInput {
    /// The sender is not the bidder of the draft.
    NotOwner,
    /// The message has no text.
    MissingAmount,
    /// The text is offered as the amount of the bid.
    Offer { item_id: i64, bidder_tg_id: i64, amount_text: String },
}

/// [`BidInput`] as contracts speak of it: every text is the sequence of its
/// characters.
pub enum BidInputView {
    NotOwner,
    MissingAmount,
    Offer { item_id: i64, bidder_tg_id: i64, amount_text: Seq<char> },
}

impl View for BidInput {
    type V = BidInputView;

    open spec fn view(&self) -> BidInputView {
        match self {
            BidInput::NotOwner => BidInputView::NotOwner,
            BidInput::MissingAmount => BidInputView::MissingAmount,
            BidInput::Offer { item_id, bidder_tg_id, amount_text } => BidInputView::Offer {
                item_id: *item_id,
                bidder_tg_id: *bidder_tg_id,
                amount_text: amount_text@,
            },
        }
    }
}

impl BidInputView {
    /// What the sender is told at once; an offer is answered when its
    /// verdict is known.
    pub open spec fn reply_text(self) -> Option<Seq<char>> {
        match self {
            BidInputView::NotOwner => Some("Another bid is already in progress."@),
            BidInputView::MissingAmount => Some("Provide your bid in 0.00 format."@),
            BidInputView::Offer { .. } => None,
        }
    }
}

impl BidInput {
    /// What the sender is told at once; an offer is answered when its
    /// verdict is known.
    pub fn reply(&self) -> (r: Option<String>)
        ensures
            r.deep_view() == self@.reply_text(),
    {
        match self {
            BidInput::NotOwner => Some(String::from_str("Another bid is already in progress.")),
            BidInput::MissingAmount => Some(String::from_str("Provide your bid in 0.00 format.")),
            BidInput::Offer { .. } => None,
        }
    }
}

/// What a message means for a bid draft. None of the three outcomes
/// changes the draft by itself.
pub open spec fn bid_input(draft: BidDraft, sender: i64, text: Option<Seq<char>>)
    -> BidInputView {
    if sender != draft.bidder_tg_id {
        BidInputView::NotOwner
    } else {
        match payload(text) {
            None => BidInputView::MissingAmount,
            Some(p) => BidInputView::Offer {
                item_id: draft.item_id,
                bidder_tg_id: sender,
                amount_text: p,
            },
        }
    }
}

/// Takes one message for a bid that waits for its amount.
pub fn handle_bid_message(draft: &BidDraft, sender: i64, text: Option<&str>) -> (r: BidInput)
    ensures
        r@ == bid_input(*draft, sender, text.deep_view()),
{
    if sender != draft.bidder_tg_id {
        return BidInput::NotOwner;
    }
    match message_payload(text) {
        None => BidInput::MissingAmount,
        Some(p) => BidInput::Offer {
            item_id: draft.item_id,
            bidder_tg_id: sender,
            amount_text: p.to_owned(),
        },
    }
}

/// What the bidder is told when a bid is not taken. A failure of the store
/// is answered with a general sentence.
pub open spec fn rejection_text(error: BidError) -> Seq<char> {
    if error == BidError::Storage {
        "Failed to place bid, try again later."@
    } else {
        error.user_message_text()
    }
}

/// What a rejected bid does to the conversation: the draft is dropped where
/// trying again is pointless, and kept otherwise.
pub open spec fn rejection_change(error: BidError) -> StateChangeView {
    if error.is_terminal() {
        StateChangeView::Reset
    } else {
        StateChangeView::Keep
    }
}

/// What follows a bid that was not taken.
pub fn bid_rejected(error: BidError) -> (r: (StateChange, String))
    ensures
        r.0@ == rejection_change(error),
        r.1@ == rejection_text(error),
{
    match error {
        BidError::Storage => (
            StateChange::Keep,
            String::from_str("Failed to place bid, try again later."),
        ),
        BidError::NotFound => (StateChange::Reset, error.user_message()),
        BidError::Closed => (StateChange::Reset, error.user_message()),
        _ => (StateChange::Keep, error.user_message()),
    }
}

/// Whether the bid just recorded is the best one: the best bid of the item
/// is its bidder's, at its amount.
pub open spec fn is_new_highest(highest: Option<(i64, i64)>, bidder: i64, amount: i64) -> bool {
    highest == Some((bidder, amount))
}

/// Whom to tell that they were outbid: the bidder of the beaten best bid,
/// with the beaten amount, where the new bid is the best one and another
/// bidder's.
pub open spec fn outbid_target(
    new_highest: bool,
    previous_best: Option<(i64, i64)>,
    bidder: i64,
) -> Option<(i64, i64)> {
    match previous_best {
        Some((previous_bidder, previous_amount)) => if new_highest && previous_bidder != bidder {
            Some((previous_bidder, previous_amount))
        } else {
            None
        },
        None => None,
    }
}

/// The confirmation of a recorded bid.
pub open spec fn confirmation_text(item_id: i64, amount: i64, new_highest: bool) -> Seq<char> {
    "Bid placed at "@ + cents_text(amount as int) + " for item #"@ + int_text(item_id as int)
        + "."@ + if new_highest {
        "\n\n🎉 You're now the highest bidder!"@
    } else {
        Seq::empty()
    }
}

/// What follows a recorded bid.
#[derive(Debug, Clone, PartialEq, Eq)]
pub struct BidAccepted {
    /// Whether the bid is now the best one.
    pub is_highest: bool,
    /// The confirmation for the bidder.
    pub confirmation: String,
    /// The bidder to tell that they were outbid, with the beaten amount.
    pub outbid: Option<(i64, i64)>,
}

/// What follows a recorded bid: the conversation returns to idle, the
/// bidder gets a confirmation, and the bidder of the beaten bid is to be
/// told. `highest` is the best bid of the item as read after the bid was
/// recorded.
pub fn bid_accepted(
    item_id: i64,
    bidder: i64,
    amount: i64,
    highest: Option<(i64, i64)>,
    previous_best: Option<(i64, i64)>,
) -> (r: (StateChange, BidAccepted))
    ensures
        r.0@ == StateChangeView::Reset,
        r.1.is_highest == is_new_highest(highest, bidder, amount),
        r.1.confirmation@ == confirmation_text(item_id, amount, r.1.is_highest),
        r.1.outbid == outbid_target(r.1.is_highest, previous_best, bidder),
{
    let is_highest = match highest {
        Some((top_bidder, top_amount)) => top_bidder == bidder && top_amount == amount,
        None => false,
    };
    let mut confirmation = String::from_str("Bid placed at ");
    push_cents(&mut confirmation, amount);
    confirmation.append(" for item #");
    push_int(&mut confirmation, item_id);
    confirmation.append(".");
    if is_highest {
        confirmation.append("\n\n🎉 You're now the highest bidder!");
    }
    assert(confirmation@ =~= confirmation_text(item_id, amount, is_highest));
    let outbid = match previous_best {
        Some((previous_bidder, previous_amount)) => if is_highest && previous_bidder != bidder {
            Some((previous_bidder, previous_amount))
        } else {
            None
        },
        None => None,
    };
    (StateChange::Reset, BidAccepted { is_highest, confirmation, outbid })
}

} // verus!
