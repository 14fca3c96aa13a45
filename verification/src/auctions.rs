//! The auctions of all items. A bid names its item; it is checked against
//! that item and recorded in one step, and no other item is touched.

use crate::bidding::parse_bid_amount;
use crate::bidding::BidError;
use crate::ledger::law_accepted_bids_increase;
use crate::ledger::BidBook;
use crate::ledger::BookView;
use crate::ledger::Placed;
use crate::money::money_of_text;
use crate::text::trimmed;
use std::collections::HashMap;
use vstd::prelude::*;

verus! {

/// The auction of every item is well-formed: its accepted bids rise
/// strictly and begin at or above its start price.
pub open spec fn all_well_formed(items: Map<i64, BookView>) -> bool {
    forall|item_id: i64| items.contains_key(item_id) ==> (#[trigger] items[item_id]).well_formed()
}

/// The verdict on a bid for an item: the amount must read as money, the
/// item must exist, it must be open, and the amount must be high enough.
pub open spec fn item_verdict(items: Map<i64, BookView>, item_id: i64, amount_text: Seq<char>)
    -> Result<i64, BidError> {
    match money_of_text(trimmed(amount_text)) {
        Err(error) => Err(BidError::InvalidAmount(error)),
        Ok(_) => if items.contains_key(item_id) {
            items[item_id].verdict(amount_text)
        } else {
            Err(BidError::NotFound)
        },
    }
}

/// The auctions after a bid: the bid is added to its item where it is
/// accepted, and nothing changes where it is not.
pub open spec fn items_after_bid(
    items: Map<i64, BookView>,
    item_id: i64,
    bidder: i64,
    amount_text: Seq<char>,
) -> Map<i64, BookView> {
    if item_verdict(items, item_id, amount_text) is Ok {
        items.insert(item_id, items[item_id].after_bid(bidder, amount_text))
    } else {
        items
    }
}

/// For all items, the accepted bids rise strictly and begin at or above
/// the start price: a bid on any item, whatever its text and whoever its
/// bidder, leaves every auction well-formed.
pub proof fn law_every_item_keeps_rising_bids(
    items: Map<i64, BookView>,
    item_id: i64,
    bidder: i64,
    amount_text: Seq<char>,
)
    requires
        all_well_formed(items),
    ensures
        all_well_formed(items_after_bid(items, item_id, bidder, amount_text)),
{
    let after = items_after_bid(items, item_id, bidder, amount_text);
    if item_verdict(items, item_id, amount_text) is Ok {
        assert(items[item_id].well_formed());
        law_accepted_bids_increase(items[item_id], bidder, amount_text);
        assert forall|other: i64| after.contains_key(other) implies (#[trigger] after[other])
            .well_formed() by {
            if other != item_id {
                assert(items.contains_key(other));
                assert(after[other] == items[other]);
            }
        }
    }
}

/// A bid that is not accepted changes the best bid of no item, and an
/// accepted bid changes that of its own item only.
pub proof fn law_bid_touches_its_item_only(
    items: Map<i64, BookView>,
    item_id: i64,
    bidder: i64,
    amount_text: Seq<char>,
)
    ensures
        item_verdict(items, item_id, amount_text) is Err ==> items_after_bid(
            items,
            item_id,
            bidder,
            amount_text,
        ) == items,
        forall|other: i64|
            other != item_id && items.contains_key(other) ==> (#[trigger] items_after_bid(
                items,
                item_id,
                bidder,
                amount_text,
            )[other]) == items[other],
{
}

/// The auctions of all items, by the number of the item.
pub struct Auctions {
    books: HashMap<i64, BidBook>,
}

impl View for Auctions {
    type V = Map<i64, BookView>;

    closed spec fn view(&self) -> Map<i64, BookView> {
        Map::new(|item_id: i64| self.books@.contains_key(item_id), |item_id: i64| self.books@[item_id]@)
    }
}

impl Auctions {
    /// No auction yet.
    pub fn new() -> (r: Auctions)
        ensures
            r@ == Map::<i64, BookView>::empty(),
            all_well_formed(r@),
    {
        let r = Auctions { books: HashMap::new() };
        assert(r@ =~= Map::<i64, BookView>::empty());
        r
    }

    /// Opens the auction of an item at the given start price. Nothing is
    /// opened, and `false` is returned, where the item has an auction
    /// already or the start price is negative.
    pub fn open_item(&mut self, item_id: i64, start_price: i64) -> (opened: bool)
        requires
            all_well_formed(old(self)@),
        ensures
            opened == (!old(self)@.contains_key(item_id) && start_price >= 0),
            final(self)@ == if opened {
                old(self)@.insert(
                    item_id,
                    BookView { start_price, open: true, bids: Seq::empty() },
                )
            } else {
                old(self)@
            },
            all_well_formed(final(self)@),
    {
        if self.books.contains_key(&item_id) {
            return false;
        }
        match BidBook::new(start_price) {
            None => false,
            Some(book) => {
                self.books.insert(item_id, book);
                assert(self@ =~= old(self)@.insert(
                    item_id,
                    BookView { start_price, open: true, bids: Seq::empty() },
                ));
                true
            },
        }
    }

    /// The best bid on an item, as bidder and amount; `None` where there
    /// is no such item or no bid on it.
    pub fn best_bid(&self, item_id: i64) -> (r: Option<(i64, i64)>)
        requires
            all_well_formed(self@),
        ensures
            r == if self@.contains_key(item_id) {
                self@[item_id].best()
            } else {
                None
            },
    {
        match self.books.get(&item_id) {
            Some(book) => {
                assert(self@.contains_key(item_id) && self@[item_id] == book@);
                book.best_bid()
            },
            None => None,
        }
    }

    /// Whether the auction of an item is open; `None` where there is no
    /// such item.
    pub fn is_open(&self, item_id: i64) -> (r: Option<bool>)
        ensures
            r == if self@.contains_key(item_id) {
                Some(self@[item_id].open)
            } else {
                None
            },
    {
        match self.books.get(&item_id) {
            Some(book) => {
                assert(self@.contains_key(item_id) && self@[item_id] == book@);
                Some(book.is_open())
            },
            None => None,
        }
    }

    /// Checks a bid on an item and records it where it is accepted.
    pub fn place_bid(&mut self, item_id: i64, bidder: i64, amount_text: &str) -> (r: Result<
        Placed,
        BidError,
    >)
        requires
            all_well_formed(old(self)@),
        ensures
            final(self)@ == items_after_bid(old(self)@, item_id, bidder, amount_text@),
            all_well_formed(final(self)@),
            match r {
                Ok(placed) => item_verdict(old(self)@, item_id, amount_text@) == Ok::<
                    i64,
                    BidError,
                >(placed.amount) && placed.previous_best == old(self)@[item_id].best(),
                Err(error) => item_verdict(old(self)@, item_id, amount_text@) == Err::<
                    i64,
                    BidError,
                >(error),
            },
    {
        proof {
            law_every_item_keeps_rising_bids(self@, item_id, bidder, amount_text@);
        }
        parse_bid_amount(amount_text)?;
        let mut book = match self.books.remove(&item_id) {
            Some(book) => book,
            None => {
                assert(self@ =~= old(self)@);
                return Err(BidError::NotFound);
            },
        };
        assert(old(self)@.contains_key(item_id) && old(self)@[item_id] == book@);
        let result = book.place_bid(bidder, amount_text);
        self.books.insert(item_id, book);
        assert(self@ =~= old(self)@.insert(item_id, book@));
        if result.is_err() {
            assert(old(self)@.insert(item_id, old(self)@[item_id]) =~= old(self)@);
        }
        result
    }

    /// Closes the auction of an item; tells whether it was open, and gives
    /// `None` where there is no such item. A closed auction stays closed.
    pub fn close_item(&mut self, item_id: i64) -> (r: Option<bool>)
        requires
            all_well_formed(old(self)@),
        ensures
            r == if old(self)@.contains_key(item_id) {
                Some(old(self)@[item_id].open)
            } else {
                None
            },
            final(self)@ == if old(self)@.contains_key(item_id) {
                old(self)@.insert(item_id, old(self)@[item_id].closed())
            } else {
                old(self)@
            },
            all_well_formed(final(self)@),
    {
        let mut book = match self.books.remove(&item_id) {
            Some(book) => book,
            None => {
                assert(self@ =~= old(self)@);
                return None;
            },
        };
        assert(old(self)@.contains_key(item_id) && old(self)@[item_id] == book@);
        let was_open = book.close();
        self.books.insert(item_id, book);
        assert(self@ =~= old(self)@.insert(item_id, book@));
        Some(was_open)
    }
}

} // verus!
