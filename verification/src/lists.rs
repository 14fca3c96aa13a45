//! The lists that are sent into a chat, and the announcement of new lots.

use crate::callbacks::Ack;
use crate::callbacks::ListKind;
use crate::models::ItemRow;
use crate::models::ItemView;
use crate::money::cents_text;
use crate::money::push_cents;
use crate::text::int_text;
use crate::text::nat_text;
use crate::text::push_int;
use crate::text::push_nat;
use vstd::prelude::*;
use vstd::string::StringExecFns;

verus! {

/// The line above a list of items; an empty list gets a line of its own
/// and no items.
pub open spec fn list_header_text(kind: ListKind, count: nat) -> Seq<char> {
    match kind {
        ListKind::Favorites => if count == 0 {
            "⭐ No favorites yet."@
        } else {
            "⭐ Favorites ("@ + nat_text(count) + "):"@
        },
        ListKind::MyBids => if count == 0 {
            "🪙 You have not placed any bids yet."@
        } else {
            "🪙 Active bids ("@ + nat_text(count) + " items):"@
        },
    }
}

/// Writes the line above a list of `count` items.
pub fn list_header(kind: ListKind, count: usize) -> (r: String)
    ensures
        r@ == list_header_text(kind, count as nat),
{
    match kind {
        ListKind::Favorites => if count == 0 {
            String::from_str("⭐ No favorites yet.")
        } else {
            let mut out = String::from_str("⭐ Favorites (");
            push_nat(&mut out, count as u64);
            out.append("):");
            out
        },
        ListKind::MyBids => if count == 0 {
            String::from_str("🪙 You have not placed any bids yet.")
        } else {
            let mut out = String::from_str("🪙 Active bids (");
            push_nat(&mut out, count as u64);
            out.append(" items):");
            out
        },
    }
}

/// What becomes of the wish to announce the new lots.
#[derive(Debug, Clone, Copy, PartialEq, Eq, Structural)]
pub enum NewLots {
    /// No item is marked as new.
    NoLots,
    /// Nobody is registered.
    NoUsers,
    /// The announcement goes to every registered user, muted or not, and
    /// the marks of the announced items are cleared.
    Announce,
}

impl NewLots {
    /// What the admin is told at once; the report on an announcement
    /// follows its delivery.
    pub open spec fn reply_text(self) -> Option<Seq<char>> {
        match self {
            NewLots::NoLots => Some("🔔 No new lots are marked for notification."@),
            NewLots::NoUsers => Some("🔔 No users are registered to receive the update."@),
            NewLots::Announce => None,
        }
    }

    pub open spec fn ack(self) -> Ack {
        match self {
            NewLots::NoLots => Ack::NoNewLots,
            NewLots::NoUsers => Ack::NoUsers,
            NewLots::Announce => Ack::NotificationSent,
        }
    }

    /// What the admin is told at once.
    pub fn reply(self) -> (r: Option<&'static str>)
        ensures
            r.deep_view() == self.reply_text(),
    {
        match self {
            NewLots::NoLots => Some("🔔 No new lots are marked for notification."),
            NewLots::NoUsers => Some("🔔 No users are registered to receive the update."),
            NewLots::Announce => None,
        }
    }

    /// The answer to the pressed button.
    pub fn answer(self) -> (r: Ack)
        ensures
            r == self.ack(),
    {
        match self {
            NewLots::NoLots => Ack::NoNewLots,
            NewLots::NoUsers => Ack::NoUsers,
            NewLots::Announce => Ack::NotificationSent,
        }
    }
}

/// What becomes of the wish to announce the new lots, given how many
/// items are marked as new and how many users are registered. The users
/// are counted only where there is something to announce.
pub open spec fn new_lots_decision(lots: nat, users: nat) -> NewLots {
    if lots == 0 {
        NewLots::NoLots
    } else if users == 0 {
        NewLots::NoUsers
    } else {
        NewLots::Announce
    }
}

/// Decides what becomes of the wish to announce the new lots.
pub fn plan_new_lots(lots: usize, users: usize) -> (r: NewLots)
    ensures
        r == new_lots_decision(lots as nat, users as nat),
{
    if lots == 0 {
        NewLots::NoLots
    } else if users == 0 {
        NewLots::NoUsers
    } else {
        NewLots::Announce
    }
}

/// The lines of the announcement, one for each item.
pub open spec fn lot_lines(items: Seq<ItemView>) -> Seq<char>
    decreases items.len(),
{
    if items.len() == 0 {
        Seq::empty()
    } else {
        lot_lines(items.drop_last()) + ("• #"@ + int_text(items.last().id as int) + " "@
            + items.last().title + " — start "@ + cents_text(items.last().start_price as int)
            + "\n"@)
    }
}

/// The announcement of new lots.
pub open spec fn new_lots_text(items: Seq<ItemView>) -> Seq<char> {
    "🆕 New lots available!\n\n"@ + lot_lines(items)
}

/// Writes the announcement of new lots.
pub fn new_lots_announcement(items: &Vec<ItemRow>) -> (r: String)
    ensures
        r@ == new_lots_text(items.deep_view()),
{
    let ghost all = items.deep_view();
    let mut out = String::from_str("🆕 New lots available!\n\n");
    let mut i: usize = 0;
    assert(out@ =~= "🆕 New lots available!\n\n"@ + lot_lines(all.subrange(0, 0)));
    while i < items.len()
        invariant
            i <= items@.len(),
            all == items.deep_view(),
            out@ == "🆕 New lots available!\n\n"@ + lot_lines(all.subrange(0, i as int)),
        decreases items@.len() - i,
    {
        let item = &items[i];
        proof {
            let longer = all.subrange(0, i as int + 1);
            assert(longer.drop_last() == all.subrange(0, i as int));
            assert(longer.last() == item@);
        }
        out.append("• #");
        push_int(&mut out, item.id);
        out.append(" ");
        out.append(item.title.as_str());
        out.append(" — start ");
        push_cents(&mut out, item.start_price);
        out.append("\n");
        i = i + 1;
        assert(out@ =~= "🆕 New lots available!\n\n"@ + lot_lines(all.subrange(0, i as int)));
    }
    assert(all.subrange(0, i as int) == all);
    out
}

/// The report on an announcement of new lots.
pub open spec fn new_lots_report_text(delivered: nat, lots: nat) -> Seq<char> {
    "🔔 Notified "@ + nat_text(delivered) + " user(s) about "@ + nat_text(lots)
        + " new lot(s)."@
}

/// Writes the report on an announcement of new lots.
pub fn new_lots_report(delivered: usize, lots: usize) -> (r: String)
    ensures
        r@ == new_lots_report_text(delivered as nat, lots as nat),
{
    let mut out = String::from_str("🔔 Notified ");
    push_nat(&mut out, delivered as u64);
    out.append(" user(s) about ");
    push_nat(&mut out, lots as u64);
    out.append(" new lot(s).");
    out
}

/// The numbers of the given items, in their order.
pub fn item_ids(items: &Vec<ItemRow>) -> (ids: Vec<i64>)
    ensures
        ids@ == Seq::new(items@.len(), |i: int| items@[i].id),
{
    let mut ids: Vec<i64> = Vec::new();
    let mut i: usize = 0;
    while i < items.len()
        invariant
            i <= items@.len(),
            ids@ == Seq::new(i as nat, |k: int| items@[k].id),
        decreases items@.len() - i,
    {
        ids.push(items[i].id);
        i = i + 1;
        assert(ids@ =~= Seq::new(i as nat, |k: int| items@[k].id));
    }
    ids
}

} // verus!
