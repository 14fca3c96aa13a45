//! The bids of one item, in the order in which they were accepted. Every
//! accepted bid exceeds the one before it, and the first one reaches the
//! start price. A bid is checked and recorded in one step, so that two
//! bidders can never both be accepted against the same best bid.

use crate::bidding::amount_verdict;
use crate::bidding::check_amount;
use crate::bidding::parse_bid_amount;
use crate::bidding::BidError;
use crate::money::money_of_text;
use crate::text::trimmed;
use vstd::prelude::*;

verus! {

/// A bid that was accepted.
#[derive(Debug, Clone, Copy, PartialEq, Eq, Structural)]
pub struct AcceptedBid {
    pub bidder_tg_id: i64,
    pub amount: i64,
}

/// The best of a run of bids: the highest amount, and among equal amounts
/// the earliest. It is given as bidder and amount.
pub open spec fn best_of(bids: Seq<AcceptedBid>) -> Option<(i64, i64)>
    decreases bids.len(),
{
    if bids.len() == 0 {
        None
    } else {
        let last = bids.last();
        match best_of(bids.drop_last()) {
            Some((bidder, amount)) => if last.amount > amount {
                Some((last.bidder_tg_id, last.amount))
            } else {
                Some((bidder, amount))
            },
            None => Some((last.bidder_tg_id, last.amount)),
        }
    }
}

/// Each bid exceeds every bid before it.
pub open spec fn strictly_increasing(bids: Seq<AcceptedBid>) -> bool {
    forall|i: int, j: int| 0 <= i < j < bids.len() ==> bids[i].amount < bids[j].amount
}

/// The state of one auction.
pub struct BookView {
    pub start_price: i64,
    pub open: bool,
    pub bids: Seq<AcceptedBid>,
}

impl BookView {
    /// The start price is not negative, the accepted bids rise strictly,
    /// and the first of them reaches the start price.
    pub open spec fn well_formed(self) -> bool {
        &&& self.start_price >= 0
        &&& strictly_increasing(self.bids)
        &&& self.bids.len() > 0 ==> self.bids[0].amount >= self.start_price
    }

    pub open spec fn best(self) -> Option<(i64, i64)> {
        best_of(self.bids)
    }

    /// The verdict on a bid for this item.
    pub open spec fn verdict(self, amount_text: Seq<char>) -> Result<i64, BidError> {
        match money_of_text(trimmed(amount_text)) {
            Err(error) => Err(BidError::InvalidAmount(error)),
            Ok(amount) => if !self.open {
                Err(BidError::Closed)
            } else {
                amount_verdict(amount, self.start_price, self.best())
            },
        }
    }

    /// The auction after a bid: the bid is added where it is accepted, and
    /// nothing changes where it is not.
    pub open spec fn after_bid(self, bidder: i64, amount_text: Seq<char>) -> BookView {
        match self.verdict(amount_text) {
            Ok(amount) => BookView {
                bids: self.bids.push(AcceptedBid { bidder_tg_id: bidder, amount }),
                ..self
            },
            Err(_) => self,
        }
    }

    /// The auction once it is closed.
    pub open spec fn closed(self) -> BookView {
        BookView { open: false, ..self }
    }
}

/// Where bids rise strictly, the best bid is the last one.
pub proof fn lemma_best_is_last(bids: Seq<AcceptedBid>)
    requires
        strictly_increasing(bids),
        bids.len() > 0,
    ensures
        best_of(bids) == Some((bids.last().bidder_tg_id, bids.last().amount)),
    decreases bids.len(),
{
    let earlier = bids.drop_last();
    if earlier.len() > 0 {
        assert forall|i: int, j: int| 0 <= i < j < earlier.len() implies earlier[i].amount
            < earlier[j].amount by {
            assert(earlier[i] == bids[i] && earlier[j] == bids[j]);
        }
        lemma_best_is_last(earlier);
        assert(earlier.last() == bids[bids.len() - 2]);
        assert(bids.last().amount > earlier.last().amount);
    } else {
        assert(best_of(earlier) == None::<(i64, i64)>);
    }
}

/// The accepted-bid sequence of every item rises strictly and begins at or
/// above the start price: a bid, whatever its text and whoever its bidder,
/// leaves a well-formed auction well-formed.
pub proof fn law_accepted_bids_increase(book: BookView, bidder: i64, amount_text: Seq<char>)
    requires
        book.well_formed(),
    ensures
        book.after_bid(bidder, amount_text).well_formed(),
{
    let after = book.after_bid(bidder, amount_text);
    match book.verdict(amount_text) {
        Ok(amount) => {
            if book.bids.len() > 0 {
                lemma_best_is_last(book.bids);
                assert(amount > book.bids.last().amount);
            }
            assert forall|i: int, j: int| 0 <= i < j < after.bids.len() implies after.bids[i].amount
                < after.bids[j].amount by {
                if j < book.bids.len() {
                    assert(after.bids[i] == book.bids[i] && after.bids[j] == book.bids[j]);
                } else {
                    assert(after.bids[i] == book.bids[i]);
                    if i < book.bids.len() - 1 {
                        assert(book.bids[i].amount < book.bids[book.bids.len() - 1].amount);
                    }
                }
            }
        },
        Err(_) => {},
    }
}

/// A bid that is not accepted changes nothing: the accepted bids, and with
/// them the best bid of the item, are what they were.
pub proof fn law_rejected_bid_changes_nothing(book: BookView, bidder: i64, amount_text: Seq<char>)
    requires
        book.verdict(amount_text) is Err,
    ensures
        book.after_bid(bidder, amount_text) == book,
        book.after_bid(bidder, amount_text).best() == book.best(),
{
}

/// An accepted bid becomes the best bid, and the bid it beat was the best
/// one before it.
pub proof fn law_accepted_bid_is_best(book: BookView, bidder: i64, amount_text: Seq<char>)
    requires
        book.well_formed(),
        book.verdict(amount_text) is Ok,
    ensures
        book.after_bid(bidder, amount_text).best() == Some(
            (bidder, book.verdict(amount_text)->Ok_0),
        ),
{
    law_accepted_bids_increase(book, bidder, amount_text);
    lemma_best_is_last(book.after_bid(bidder, amount_text).bids);
}

/// A closed auction accepts no bid and stays closed: neither a bid nor a
/// second closing changes it.
pub proof fn law_closed_auction_stays_closed(book: BookView, bidder: i64, amount_text: Seq<char>)
    requires
        !book.open,
    ensures
        book.verdict(amount_text) is Err,
        book.after_bid(bidder, amount_text) == book,
        book.closed() == book,
        !book.closed().after_bid(bidder, amount_text).open,
{
}

/// A bid that was recorded.
#[derive(Debug, Clone, Copy, PartialEq, Eq)]
pub struct Placed {
    /// The amount in cents.
    pub amount: i64,
    /// The best bid before this one, as bidder and amount.
    pub previous_best: Option<(i64, i64)>,
}

/// The bids of one item.
pub struct BidBook {
    start_price: i64,
    open: bool,
    bids: Vec<AcceptedBid>,
}

impl View for BidBook {
    type V = BookView;

    closed spec fn view(&self) -> BookView {
        BookView { start_price: self.start_price, open: self.open, bids: self.bids@ }
    }
}

impl BidBook {
    /// An open auction without bids; `None` where the start price is
    /// negative.
    pub fn new(start_price: i64) -> (r: Option<BidBook>)
        ensures
            match r {
                Some(book) => start_price >= 0 && book@ == (BookView {
                    start_price,
                    open: true,
                    bids: Seq::empty(),
                }) && book@.well_formed(),
                None => start_price < 0,
            },
    {
        if start_price < 0 {
            None
        } else {
            Some(BidBook { start_price, open: true, bids: Vec::new() })
        }
    }

    pub fn start_price(&self) -> (r: i64)
        ensures
            r == self@.start_price,
    {
        self.start_price
    }

    pub fn is_open(&self) -> (r: bool)
        ensures
            r == self@.open,
    {
        self.open
    }

    /// The number of accepted bids.
    pub fn bid_count(&self) -> (r: usize)
        ensures
            r == self@.bids.len(),
    {
        self.bids.len()
    }

    /// The accepted bid at place `i`, counted from the first.
    pub fn bid_at(&self, i: usize) -> (r: Option<AcceptedBid>)
        ensures
            r == if i < self@.bids.len() {
                Some(self@.bids[i as int])
            } else {
                None
            },
    {
        if i < self.bids.len() {
            Some(self.bids[i])
        } else {
            None
        }
    }

    /// The best bid so far, as bidder and amount.
    pub fn best_bid(&self) -> (r: Option<(i64, i64)>)
        requires
            self@.well_formed(),
        ensures
            r == self@.best(),
    {
        let n = self.bids.len();
        if n == 0 {
            None
        } else {
            proof {
                lemma_best_is_last(self.bids@);
            }
            let last = self.bids[n - 1];
            Some((last.bidder_tg_id, last.amount))
        }
    }

    /// Checks a bid and records it where it is accepted.
    pub fn place_bid(&mut self, bidder: i64, amount_text: &str) -> (r: Result<Placed, BidError>)
        requires
            old(self)@.well_formed(),
        ensures
            final(self)@ == old(self)@.after_bid(bidder, amount_text@),
            final(self)@.well_formed(),
            match r {
                Ok(placed) => old(self)@.verdict(amount_text@) == Ok::<i64, BidError>(
                    placed.amount,
                ) && placed.previous_best == old(self)@.best(),
                Err(error) => old(self)@.verdict(amount_text@) == Err::<i64, BidError>(error),
            },
    {
        proof {
            law_accepted_bids_increase(self@, bidder, amount_text@);
        }
        let amount = parse_bid_amount(amount_text)?;
        if !self.open {
            return Err(BidError::Closed);
        }
        let previous_best = self.best_bid();
        check_amount(amount, self.start_price, previous_best)?;
        self.bids.push(AcceptedBid { bidder_tg_id: bidder, amount });
        Ok(Placed { amount, previous_best })
    }

    /// Closes the auction; tells whether it was open.
    pub fn close(&mut self) -> (was_open: bool)
        requires
            old(self)@.well_formed(),
        ensures
            final(self)@ == old(self)@.closed(),
            final(self)@.well_formed(),
            was_open == old(self)@.open,
    {
        let was_open = self.open;
        self.open = false;
        was_open
    }
}

} // verus!
