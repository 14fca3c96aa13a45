//! Notifications: who is told what, whom a mute setting spares, and how
//! deliveries are counted when some of them fail.

use crate::models::ItemRow;
use crate::models::ItemView;
use crate::money::cents_text;
use crate::money::push_cents;
use crate::text::int_text;
use crate::text::push_int;
use vstd::prelude::*;
use vstd::string::StringExecFns;

verus! {

/// The occasions on which users are notified.
#[derive(Debug, Clone, Copy, PartialEq, Eq, Structural)]
pub enum NotificationEvent {
    /// The previous best bidder is told that they were outbid.
    Outbid,
    /// The seller is told of a new bid.
    NewBid,
    /// Bidders and those who saved the item are told that it closed.
    AuctionClosed,
    /// An announcement that an admin wrote.
    AdminBroadcast,
    /// The announcement of new lots.
    NewLots,
}

impl NotificationEvent {
    /// Whether a user who muted notifications is spared this one.
    /// Announcements always go to every registered user.
    pub open spec fn honors_mute(self) -> bool {
        match self {
            NotificationEvent::Outbid => true,
            NotificationEvent::NewBid => true,
            NotificationEvent::AuctionClosed => true,
            NotificationEvent::AdminBroadcast => false,
            NotificationEvent::NewLots => false,
        }
    }

    /// Whether a user with the given mute setting is sent this
    /// notification.
    pub open spec fn reaches(self, muted: bool) -> bool {
        !(self.honors_mute() && muted)
    }

    /// Whether a user with the given mute setting is sent this
    /// notification.
    pub fn should_deliver(self, muted: bool) -> (r: bool)
        ensures
            r == self.reaches(muted),
    {
        match self {
            NotificationEvent::Outbid => !muted,
            NotificationEvent::NewBid => !muted,
            NotificationEvent::AuctionClosed => !muted,
            NotificationEvent::AdminBroadcast => true,
            NotificationEvent::NewLots => true,
        }
    }
}

/// The number of successful deliveries among the attempts made.
pub open spec fn delivered_among(outcomes: Seq<bool>) -> nat
    decreases outcomes.len(),
{
    if outcomes.len() == 0 {
        0
    } else {
        delivered_among(outcomes.drop_last()) + if outcomes.last() {
            1nat
        } else {
            0nat
        }
    }
}

pub proof fn lemma_delivered_at_most_attempts(outcomes: Seq<bool>)
    ensures
        delivered_among(outcomes) <= outcomes.len(),
    decreases outcomes.len(),
{
    if outcomes.len() > 0 {
        lemma_delivered_at_most_attempts(outcomes.drop_last());
    }
}

/// The progress of a fan-out.
pub struct FanoutView {
    /// Those to whom the text goes, in order.
    pub recipients: Seq<i64>,
    /// How the attempts made so far ended, one for each recipient from the
    /// first on; `true` is a delivery.
    pub outcomes: Seq<bool>,
}

impl FanoutView {
    pub open spec fn well_formed(self) -> bool {
        self.outcomes.len() <= self.recipients.len()
    }

    /// The recipient whose turn it is, if any is left.
    pub open spec fn pending(self) -> Option<i64> {
        if self.outcomes.len() < self.recipients.len() {
            Some(self.recipients[self.outcomes.len() as int])
        } else {
            None
        }
    }

    pub open spec fn delivered(self) -> nat {
        delivered_among(self.outcomes)
    }

    pub open spec fn failed(self) -> nat {
        (self.outcomes.len() - delivered_among(self.outcomes)) as nat
    }
}

/// The delivery of one text to many recipients, one attempt each. A failed
/// attempt is counted and the next recipient is tried all the same.
pub struct Fanout {
    recipients: Vec<i64>,
    attempted: usize,
    delivered: usize,
    outcomes: Ghost<Seq<bool>>,
}

impl View for Fanout {
    type V = FanoutView;

    closed spec fn view(&self) -> FanoutView {
        FanoutView { recipients: self.recipients@, outcomes: self.outcomes@ }
    }
}

impl Fanout {
    /// What the counters hold: the number of attempts and of deliveries
    /// among them.
    pub closed spec fn consistent(&self) -> bool {
        &&& self.attempted == self.outcomes@.len()
        &&& self.attempted <= self.recipients@.len()
        &&& self.delivered == delivered_among(self.outcomes@)
    }

    /// A fan-out with no attempt made yet.
    pub fn new(recipients: Vec<i64>) -> (r: Fanout)
        ensures
            r.consistent(),
            r@ == (FanoutView { recipients: recipients@, outcomes: Seq::empty() }),
    {
        Fanout { recipients, attempted: 0, delivered: 0, outcomes: Ghost(Seq::empty()) }
    }

    /// The recipient to try next; `None` when every recipient was tried.
    pub fn next_recipient(&self) -> (r: Option<i64>)
        requires
            self.consistent(),
        ensures
            r == self@.pending(),
    {
        if self.attempted < self.recipients.len() {
            Some(self.recipients[self.attempted])
        } else {
            None
        }
    }

    /// Records how the attempt for the pending recipient ended. Where no
    /// recipient is pending, nothing is recorded.
    pub fn record(&mut self, delivered: bool)
        requires
            old(self).consistent(),
        ensures
            final(self).consistent(),
            final(self)@.recipients == old(self)@.recipients,
            final(self)@.outcomes == if old(self)@.pending() is Some {
                old(self)@.outcomes.push(delivered)
            } else {
                old(self)@.outcomes
            },
    {
        if self.attempted < self.recipients.len() {
            proof {
                lemma_delivered_at_most_attempts(self.outcomes@);
                assert(self.outcomes@.push(delivered).drop_last() =~= self.outcomes@);
            }
            self.outcomes = Ghost(self.outcomes@.push(delivered));
            self.attempted = self.attempted + 1;
            if delivered {
                self.delivered = self.delivered + 1;
            }
        }
    }

    /// The number of deliveries so far.
    pub fn delivered_count(&self) -> (r: usize)
        requires
            self.consistent(),
        ensures
            r == self@.delivered(),
    {
        self.delivered
    }

    /// The number of failed attempts so far.
    pub fn failed_count(&self) -> (r: usize)
        requires
            self.consistent(),
        ensures
            r == self@.failed(),
    {
        proof {
            lemma_delivered_at_most_attempts(self.outcomes@);
        }
        self.attempted - self.delivered
    }
}

/// The number of deliveries when `user_ids` are tried in order and the
/// attempts end as `outcomes` says, one outcome for each recipient from the
/// first on. Outcomes beyond the last recipient are not counted.
pub fn broadcast_text(user_ids: Vec<i64>, outcomes: &Vec<bool>) -> (delivered: usize)
    ensures
        delivered == delivered_among(
            if outcomes@.len() <= user_ids@.len() {
                outcomes@
            } else {
                outcomes@.subrange(0, user_ids@.len() as int)
            },
        ),
{
    let n = user_ids.len();
    let mut fanout = Fanout::new(user_ids);
    let mut i: usize = 0;
    while i < outcomes.len() && i < n
        invariant
            fanout.consistent(),
            n == fanout@.recipients.len(),
            i <= outcomes@.len(),
            i <= n,
            fanout@.outcomes == outcomes@.subrange(0, i as int),
        decreases outcomes@.len() - i,
    {
        fanout.record(outcomes[i]);
        i = i + 1;
        assert(fanout@.outcomes =~= outcomes@.subrange(0, i as int));
    }
    assert(outcomes@.len() <= n ==> outcomes@.subrange(0, i as int) == outcomes@);
    fanout.delivered_count()
}

/// How the one who placed a bid is named to others: by user name where
/// there is one, else by first and last name.
pub open spec fn bidder_label_text(
    username: Option<Seq<char>>,
    first_name: Seq<char>,
    last_name: Option<Seq<char>>,
) -> Seq<char> {
    match username {
        Some(name) => "@"@ + name,
        None => match last_name {
            Some(last) => first_name + " "@ + last,
            None => first_name,
        },
    }
}

/// How the one who placed a bid is named to others.
pub fn bidder_label(username: Option<&str>, first_name: &str, last_name: Option<&str>) -> (r:
    String)
    ensures
        r@ == bidder_label_text(username.deep_view(), first_name@, last_name.deep_view()),
{
    match username {
        Some(name) => {
            let mut out = String::from_str("@");
            out.append(name);
            out
        },
        None => match last_name {
            Some(last) => {
                let mut out = String::from_str(first_name);
                out.append(" ");
                out.append(last);
                out
            },
            None => String::from_str(first_name),
        },
    }
}

/// The notice to a bidder whose best bid was beaten.
pub open spec fn outbid_text(
    item: ItemView,
    previous_amount: i64,
    new_amount: i64,
    label: Seq<char>,
) -> Seq<char> {
    "⚠️ Your bid of "@ + cents_text(previous_amount as int) + " on item #"@ + int_text(
        item.id as int,
    ) + " ("@ + item.title + ") was beaten by "@ + label + ". New highest bid: "@ + cents_text(
        new_amount as int,
    ) + "."@
}

/// The notice to the previous best bidder, unless they muted
/// notifications.
pub fn notify_outbid_user(
    muted: bool,
    item: &ItemRow,
    previous_amount: i64,
    new_amount: i64,
    label: &str,
) -> (r: Option<String>)
    ensures
        r.deep_view() == if NotificationEvent::Outbid.reaches(muted) {
            Some(outbid_text(item@, previous_amount, new_amount, label@))
        } else {
            None
        },
{
    if !NotificationEvent::Outbid.should_deliver(muted) {
        return None;
    }
    let mut out = String::from_str("⚠️ Your bid of ");
    push_cents(&mut out, previous_amount);
    out.append(" on item #");
    push_int(&mut out, item.id);
    out.append(" (");
    out.append(item.title.as_str());
    out.append(") was beaten by ");
    out.append(label);
    out.append(". New highest bid: ");
    push_cents(&mut out, new_amount);
    out.append(".");
    assert(out@ =~= outbid_text(item@, previous_amount, new_amount, label@));
    Some(out)
}

/// The notice to the seller of an item about a new bid. A bidder without a
/// user name is named by their number.
pub open spec fn seller_text(
    item: ItemView,
    username: Option<Seq<char>>,
    bidder_id: i64,
    amount: i64,
) -> Seq<char> {
    "New bid on item #"@ + int_text(item.id as int) + " ("@ + item.title + "): @"@ + (match username {
        Some(name) => name,
        None => int_text(bidder_id as int),
    }) + " offered "@ + cents_text(amount as int)
}

/// The notice to the seller about a new bid, unless the seller muted
/// notifications.
pub fn notify_seller(
    muted: bool,
    item: &ItemRow,
    username: Option<&str>,
    bidder_id: i64,
    amount: i64,
) -> (r: Option<String>)
    ensures
        r.deep_view() == if NotificationEvent::NewBid.reaches(muted) {
            Some(seller_text(item@, username.deep_view(), bidder_id, amount))
        } else {
            None
        },
{
    if !NotificationEvent::NewBid.should_deliver(muted) {
        return None;
    }
    let mut out = String::from_str("New bid on item #");
    push_int(&mut out, item.id);
    out.append(" (");
    out.append(item.title.as_str());
    out.append("): @");
    match username {
        Some(name) => {
            out.append(name);
        },
        None => {
            push_int(&mut out, bidder_id);
        },
    }
    out.append(" offered ");
    push_cents(&mut out, amount);
    assert(out@ =~= seller_text(item@, username.deep_view(), bidder_id, amount));
    Some(out)
}

/// `ids` with each identity kept where it first occurs.
pub open spec fn distinct_in_order(ids: Seq<i64>) -> Seq<i64>
    decreases ids.len(),
{
    if ids.len() == 0 {
        Seq::empty()
    } else {
        let earlier = distinct_in_order(ids.drop_last());
        if earlier.contains(ids.last()) {
            earlier
        } else {
            earlier.push(ids.last())
        }
    }
}

/// `distinct_in_order` keeps every identity, and each once.
pub proof fn lemma_distinct_in_order(ids: Seq<i64>)
    ensures
        forall|x: i64|
            #![trigger distinct_in_order(ids).contains(x)]
            #![trigger ids.contains(x)]
            distinct_in_order(ids).contains(x) <==> ids.contains(x),
        distinct_in_order(ids).no_duplicates(),
    decreases ids.len(),
{
    let out = distinct_in_order(ids);
    if ids.len() > 0 {
        let earlier_ids = ids.drop_last();
        let earlier = distinct_in_order(earlier_ids);
        lemma_distinct_in_order(earlier_ids);
        assert forall|x: i64| out.contains(x) <==> ids.contains(x) by {
            if out.contains(x) {
                let k = choose|k: int| 0 <= k < out.len() && out[k] == x;
                if k < earlier.len() {
                    assert(earlier[k] == x);
                    assert(earlier.contains(x));
                    let m = choose|m: int| 0 <= m < earlier_ids.len() && earlier_ids[m] == x;
                    assert(ids[m] == x);
                } else {
                    assert(ids[ids.len() - 1] == x);
                }
            }
            if ids.contains(x) {
                let m = choose|m: int| 0 <= m < ids.len() && ids[m] == x;
                if m < ids.len() - 1 {
                    assert(earlier_ids[m] == x);
                    assert(earlier.contains(x));
                    let k = choose|k: int| 0 <= k < earlier.len() && earlier[k] == x;
                    assert(out[k] == x);
                } else if earlier.contains(x) {
                    let k = choose|k: int| 0 <= k < earlier.len() && earlier[k] == x;
                    assert(out[k] == x);
                } else {
                    assert(out[out.len() - 1] == x);
                }
            }
        }
        assert forall|i: int, j: int| 0 <= i < out.len() && 0 <= j < out.len() && i != j implies out[i]
            != out[j] by {
            if !earlier.contains(ids.last()) {
                if i == earlier.len() {
                    assert(earlier[j] == out[j]);
                } else if j == earlier.len() {
                    assert(earlier[i] == out[i]);
                }
            }
        }
    } else {
        assert forall|x: i64| out.contains(x) <==> ids.contains(x) by {
            if ids.contains(x) {
                let m = choose|m: int| 0 <= m < ids.len() && ids[m] == x;
            }
            if out.contains(x) {
                let m = choose|m: int| 0 <= m < out.len() && out[m] == x;
            }
        }
    }
}

/// Whether `ids` holds `id`.
pub fn holds_id(ids: &Vec<i64>, id: i64) -> (r: bool)
    ensures
        r == ids@.contains(id),
{
    let mut i: usize = 0;
    while i < ids.len()
        invariant
            i <= ids@.len(),
            forall|j: int| 0 <= j < i ==> ids@[j] != id,
        decreases ids@.len() - i,
    {
        if ids[i] == id {
            return true;
        }
        i = i + 1;
    }
    false
}

/// Those who are told that an item closed: its bidders and those who saved
/// it, each once, bidders first.
pub fn closure_recipients(bidder_ids: &Vec<i64>, favorite_ids: &Vec<i64>) -> (r: Vec<i64>)
    ensures
        r@ == distinct_in_order(bidder_ids@ + favorite_ids@),
        r@.no_duplicates(),
        forall|x: i64| r@.contains(x) <==> (bidder_ids@.contains(x) || favorite_ids@.contains(x)),
{
    let ghost all = bidder_ids@ + favorite_ids@;
    let mut out: Vec<i64> = Vec::new();
    let mut i: usize = 0;
    while i < bidder_ids.len()
        invariant
            i <= bidder_ids@.len(),
            all == bidder_ids@ + favorite_ids@,
            out@ == distinct_in_order(all.subrange(0, i as int)),
        decreases bidder_ids@.len() - i,
    {
        let id = bidder_ids[i];
        proof {
            let longer = all.subrange(0, i as int + 1);
            assert(longer.drop_last() == all.subrange(0, i as int));
            assert(longer.last() == id);
        }
        if !holds_id(&out, id) {
            out.push(id);
        }
        i = i + 1;
    }
    let n = bidder_ids.len();
    let mut j: usize = 0;
    while j < favorite_ids.len()
        invariant
            n == bidder_ids@.len(),
            j <= favorite_ids@.len(),
            all == bidder_ids@ + favorite_ids@,
            out@ == distinct_in_order(all.subrange(0, n + j)),
        decreases favorite_ids@.len() - j,
    {
        let id = favorite_ids[j];
        proof {
            let longer = all.subrange(0, n + j + 1);
            assert(longer.drop_last() == all.subrange(0, n + j));
            assert(longer.last() == id);
        }
        if !holds_id(&out, id) {
            out.push(id);
        }
        j = j + 1;
    }
    proof {
        assert(all.subrange(0, n + j) == all);
        lemma_distinct_in_order(all);
        assert forall|x: i64| all.contains(x) <==> (bidder_ids@.contains(x)
            || favorite_ids@.contains(x)) by {
            if all.contains(x) {
                let k = choose|k: int| 0 <= k < all.len() && all[k] == x;
                if k < n {
                    assert(bidder_ids@[k] == x);
                } else {
                    assert(favorite_ids@[k - n] == x);
                }
            }
            if bidder_ids@.contains(x) {
                let k = choose|k: int| 0 <= k < bidder_ids@.len() && bidder_ids@[k] == x;
                assert(all[k] == x);
            }
            if favorite_ids@.contains(x) {
                let k = choose|k: int| 0 <= k < favorite_ids@.len() && favorite_ids@[k] == x;
                assert(all[k + n] == x);
            }
        }
    }
    out
}

/// One who may be told of something, with their mute setting.
#[derive(Debug, Clone, Copy, PartialEq, Eq, Structural)]
pub struct Recipient {
    pub user_id: i64,
    pub muted: bool,
}

/// A text for one user.
#[derive(Debug, Clone, PartialEq, Eq)]
pub struct Notice {
    pub user_id: i64,
    pub text: String,
}

/// [`Notice`] as contracts speak of it: every text is the sequence of its
/// characters.
pub struct NoticeView {
    pub user_id: i64,
    pub text: Seq<char>,
}

impl View for Notice {
    type V = NoticeView;

    open spec fn view(&self) -> NoticeView {
        NoticeView { user_id: self.user_id, text: self.text@ }
    }
}

impl DeepView for Notice {
    type V = NoticeView;

    open spec fn deep_view(&self) -> NoticeView {
        self@
    }
}

/// What one user is told when an item closes: the winner that they won and
/// at what price, everybody else the final price, and where nobody bid,
/// that the item closed without bids. `winning_bid` is the best bid, as
/// bidder and amount.
pub open spec fn closure_text(item: ItemView, winning_bid: Option<(i64, i64)>, user_id: i64)
    -> Seq<char> {
    "🏁 Auction closed for item #"@ + int_text(item.id as int) + " ("@ + item.title + ")."@
        + match winning_bid {
        Some((winner, amount)) => if user_id == winner {
            "\n\n🎉 Congratulations! You won with a bid of "@ + cents_text(amount as int) + "."@
        } else {
            "\nFinal price: "@ + cents_text(amount as int) + ". Thanks for taking part!"@
        },
        None => "\nThe item closed with no bids."@,
    }
}

/// Writes the closure notice for one user.
pub fn closure_notice(item: &ItemRow, winning_bid: Option<(i64, i64)>, user_id: i64) -> (r: String)
    ensures
        r@ == closure_text(item@, winning_bid, user_id),
{
    let mut out = String::from_str("🏁 Auction closed for item #");
    push_int(&mut out, item.id);
    out.append(" (");
    out.append(item.title.as_str());
    out.append(").");
    match winning_bid {
        Some((winner, amount)) => {
            if user_id == winner {
                out.append("\n\n🎉 Congratulations! You won with a bid of ");
                push_cents(&mut out, amount);
                out.append(".");
            } else {
                out.append("\nFinal price: ");
                push_cents(&mut out, amount);
                out.append(". Thanks for taking part!");
            }
        },
        None => {
            out.append("\nThe item closed with no bids.");
        },
    }
    assert(out@ =~= closure_text(item@, winning_bid, user_id));
    out
}

/// The closure notices for the given recipients, in their order; those who
/// muted notifications get none.
pub open spec fn closure_notices(
    item: ItemView,
    winning_bid: Option<(i64, i64)>,
    recipients: Seq<Recipient>,
) -> Seq<NoticeView>
    decreases recipients.len(),
{
    if recipients.len() == 0 {
        Seq::empty()
    } else {
        let earlier = closure_notices(item, winning_bid, recipients.drop_last());
        let last = recipients.last();
        if NotificationEvent::AuctionClosed.reaches(last.muted) {
            earlier.push(
                NoticeView {
                    user_id: last.user_id,
                    text: closure_text(item, winning_bid, last.user_id),
                },
            )
        } else {
            earlier
        }
    }
}

/// The notices that go out when an item has been closed.
pub fn notify_item_closed(
    item: &ItemRow,
    winning_bid: Option<(i64, i64)>,
    recipients: &Vec<Recipient>,
) -> (r: Vec<Notice>)
    ensures
        r.deep_view() == closure_notices(item@, winning_bid, recipients@),
{
    let mut out: Vec<Notice> = Vec::new();
    let mut i: usize = 0;
    assert(out.deep_view() =~= closure_notices(item@, winning_bid, recipients@.subrange(0, 0)));
    while i < recipients.len()
        invariant
            i <= recipients@.len(),
            out.deep_view() == closure_notices(item@, winning_bid, recipients@.subrange(0, i as int)),
        decreases recipients@.len() - i,
    {
        let recipient = recipients[i];
        proof {
            let longer = recipients@.subrange(0, i as int + 1);
            assert(longer.drop_last() == recipients@.subrange(0, i as int));
            assert(longer.last() == recipient);
        }
        if NotificationEvent::AuctionClosed.should_deliver(recipient.muted) {
            let ghost before = out.deep_view();
            let text = closure_notice(item, winning_bid, recipient.user_id);
            out.push(Notice { user_id: recipient.user_id, text });
            assert(out.deep_view() =~= before.push(
                NoticeView {
                    user_id: recipient.user_id,
                    text: closure_text(item@, winning_bid, recipient.user_id),
                },
            ));
        }
        i = i + 1;
    }
    assert(recipients@.subrange(0, i as int) == recipients@);
    out
}

} // verus!
