//! The admin drafts that take a single message: a new category, closing
//! an item, removing an item or a category, and an announcement to all
//! users. Each is bound to the admin who began it.

use crate::input::is_cancel;
use crate::input::is_cancel_word;
use crate::input::message_payload;
use crate::input::payload;
use crate::models::CategoryRow;
use crate::models::CategoryView;
use crate::models::ItemRow;
use crate::models::ItemView;
use crate::state::ConversationState;
use crate::state::ConversationView;
use crate::state::StateChange;
use crate::state::StateChangeView;
use crate::text::i64_of_text;
use crate::text::int_text;
use crate::text::nat_text;
use crate::text::parse_i64;
use crate::text::push_int;
use crate::text::push_nat;
use crate::text::trim_str;
use crate::text::trimmed;
use vstd::prelude::*;
use vstd::string::StringExecFns;

verus! {

/// The admin drafts that take a single message.
#[derive(Debug, Clone, Copy, PartialEq, Eq, Structural)]
pub enum AdminDraft {
    AddCategory,
    CloseItem,
    RemoveItem,
    RemoveCategory,
    Broadcast,
}

impl AdminDraft {
    /// The conversation of this draft, begun by `admin_tg_id`.
    pub open spec fn conversation(self, admin_tg_id: i64) -> ConversationView {
        match self {
            AdminDraft::AddCategory => ConversationView::AddCategory { admin_tg_id },
            AdminDraft::CloseItem => ConversationView::CloseItem { admin_tg_id },
            AdminDraft::RemoveItem => ConversationView::RemoveItem { admin_tg_id },
            AdminDraft::RemoveCategory => ConversationView::RemoveCategory { admin_tg_id },
            AdminDraft::Broadcast => ConversationView::Broadcast { admin_tg_id },
        }
    }

    /// The conversation of this draft, begun by `admin_tg_id`.
    pub fn begin(self, admin_tg_id: i64) -> (state: ConversationState)
        ensures
            state@ == self.conversation(admin_tg_id),
    {
        match self {
            AdminDraft::AddCategory => ConversationState::AddCategory { admin_tg_id },
            AdminDraft::CloseItem => ConversationState::CloseItem { admin_tg_id },
            AdminDraft::RemoveItem => ConversationState::RemoveItem { admin_tg_id },
            AdminDraft::RemoveCategory => ConversationState::RemoveCategory { admin_tg_id },
            AdminDraft::Broadcast => ConversationState::Broadcast { admin_tg_id },
        }
    }

    /// What the admin is asked for when a message carries no text.
    pub open spec fn prompt_text(self) -> Seq<char> {
        match self {
            AdminDraft::AddCategory => "🆕 Send the new category name or type cancel to stop."@,
            AdminDraft::CloseItem => "🛑 Send the item ID to close or type cancel to stop."@,
            AdminDraft::RemoveItem => "🗑 Send the item ID to remove or type cancel to stop."@,
            AdminDraft::RemoveCategory => "🗑 Send the category name to remove or type cancel to stop."@,
            AdminDraft::Broadcast => "📢 Send the announcement text (formatting will be preserved)."@,
        }
    }

    /// What the admin is told when the draft is abandoned.
    pub open spec fn cancelled_text(self) -> Seq<char> {
        match self {
            AdminDraft::AddCategory => "❌ Category creation cancelled."@,
            AdminDraft::CloseItem => "❌ Item closure cancelled."@,
            AdminDraft::RemoveItem => "❌ Item removal cancelled."@,
            AdminDraft::RemoveCategory => "❌ Category removal cancelled."@,
            AdminDraft::Broadcast => "❌ Broadcast cancelled."@,
        }
    }
}

/// What a single-message draft asks of the store or of the transport.
#[derive(Debug, Clone, PartialEq, Eq)]
pub enum AdminRequest {
    /// Look the category up by name, whatever the letter case, and create
    /// it where there is none.
    EnsureCategory { name: String },
    /// Load the item and close it if it is open.
    CloseItem { item_id: i64 },
    /// Delete the item with its bids and favourites.
    RemoveItem { item_id: i64 },
    /// Look the category up by name, whatever the letter case, and delete
    /// it with its items.
    RemoveCategory { name: String },
    /// Send the text to every registered user.
    Broadcast { text: String },
}

/// [`AdminRequest`] as contracts speak of it: every text is the sequence of its
/// characters.
pub enum AdminRequestView {
    EnsureCategory { name: Seq<char> },
    CloseItem { item_id: i64 },
    RemoveItem { item_id: i64 },
    RemoveCategory { name: Seq<char> },
    Broadcast { text: Seq<char> },
}

impl View for AdminRequest {
    type V = AdminRequestView;

    open spec fn view(&self) -> AdminRequestView {
        match self {
            AdminRequest::EnsureCategory { name } => AdminRequestView::EnsureCategory {
                name: name@,
            },
            AdminRequest::CloseItem { item_id } => AdminRequestView::CloseItem {
                item_id: *item_id,
            },
            AdminRequest::RemoveItem { item_id } => AdminRequestView::RemoveItem {
                item_id: *item_id,
            },
            AdminRequest::RemoveCategory { name } => AdminRequestView::RemoveCategory {
                name: name@,
            },
            AdminRequest::Broadcast { text } => AdminRequestView::Broadcast { text: text@ },
        }
    }
}

/// What a message does to a single-message draft.
#[derive(Debug, Clone, PartialEq, Eq)]
pub enum AdminStep {
    /// The sender is not the admin who began the draft.
    NotOwner,
    /// The message has no text: the admin is asked again.
    Prompt,
    /// The cancel word: the draft is dropped.
    Cancelled,
    /// The text should be the number of an item and is not.
    NotNumeric,
    /// The text is taken; the draft ends when the request has succeeded.
    Submit(AdminRequest),
}

/// [`AdminStep`] as contracts speak of it: every text is the sequence of its
/// characters.
pub enum AdminStepView {
    NotOwner,
    Prompt,
    Cancelled,
    NotNumeric,
    Submit(AdminRequestView),
}

impl View for AdminStep {
    type V = AdminStepView;

    open spec fn view(&self) -> AdminStepView {
        match self {
            AdminStep::NotOwner => AdminStepView::NotOwner,
            AdminStep::Prompt => AdminStepView::Prompt,
            AdminStep::Cancelled => AdminStepView::Cancelled,
            AdminStep::NotNumeric => AdminStepView::NotNumeric,
            AdminStep::Submit(request) => AdminStepView::Submit(request@),
        }
    }
}

impl AdminStepView {
    /// What the step does to the conversation. A submitted text leaves the
    /// draft in place until its request has been carried out.
    pub open spec fn state_change(self) -> StateChangeView {
        match self {
            AdminStepView::Cancelled => StateChangeView::Reset,
            _ => StateChangeView::Keep,
        }
    }

    /// What the sender is told at once, if anything.
    pub open spec fn reply_text(self, kind: AdminDraft) -> Option<Seq<char>> {
        match self {
            AdminStepView::NotOwner => Some(
                "Only the admin who started this action can respond."@,
            ),
            AdminStepView::Prompt => Some(kind.prompt_text()),
            AdminStepView::Cancelled => Some(kind.cancelled_text()),
            AdminStepView::NotNumeric => Some("🔢 Provide a numeric item ID."@),
            AdminStepView::Submit(_) => None,
        }
    }
}

/// The request that the cleaned-up text of a message makes.
pub open spec fn request_of(kind: AdminDraft, p: Seq<char>) -> AdminStepView {
    match kind {
        AdminDraft::AddCategory => AdminStepView::Submit(
            AdminRequestView::EnsureCategory { name: p },
        ),
        AdminDraft::RemoveCategory => AdminStepView::Submit(
            AdminRequestView::RemoveCategory { name: p },
        ),
        AdminDraft::CloseItem => match i64_of_text(p) {
            Some(item_id) => AdminStepView::Submit(AdminRequestView::CloseItem { item_id }),
            None => AdminStepView::NotNumeric,
        },
        AdminDraft::RemoveItem => match i64_of_text(p) {
            Some(item_id) => AdminStepView::Submit(AdminRequestView::RemoveItem { item_id }),
            None => AdminStepView::NotNumeric,
        },
        AdminDraft::Broadcast => AdminStepView::Submit(AdminRequestView::Broadcast { text: p }),
    }
}

/// What a message does to a single-message draft begun by `admin_tg_id`.
/// An announcement is sent as it was written, white space included; every
/// other text is taken without the white space around it.
pub open spec fn admin_step(
    kind: AdminDraft,
    admin_tg_id: i64,
    sender: i64,
    text: Option<Seq<char>>,
) -> AdminStepView {
    if sender != admin_tg_id {
        AdminStepView::NotOwner
    } else if kind == AdminDraft::Broadcast {
        match text {
            None => AdminStepView::Prompt,
            Some(t) => if is_cancel(trimmed(t)) {
                AdminStepView::Cancelled
            } else {
                request_of(kind, t)
            },
        }
    } else {
        match payload(text) {
            None => AdminStepView::Prompt,
            Some(p) => if is_cancel(p) {
                AdminStepView::Cancelled
            } else {
                request_of(kind, p)
            },
        }
    }
}

/// Takes one message for a single-message draft.
pub fn handle_admin_message(kind: AdminDraft, admin_tg_id: i64, sender: i64, text: Option<&str>)
    -> (r: AdminStep)
    ensures
        r@ == admin_step(kind, admin_tg_id, sender, text.deep_view()),
{
    if sender != admin_tg_id {
        return AdminStep::NotOwner;
    }
    match kind {
        AdminDraft::Broadcast => match text {
            None => AdminStep::Prompt,
            Some(t) => if is_cancel_word(trim_str(t)) {
                AdminStep::Cancelled
            } else {
                AdminStep::Submit(AdminRequest::Broadcast { text: t.to_owned() })
            },
        },
        _ => match message_payload(text) {
            None => AdminStep::Prompt,
            Some(p) => if is_cancel_word(p) {
                AdminStep::Cancelled
            } else {
                match kind {
                    AdminDraft::AddCategory => AdminStep::Submit(
                        AdminRequest::EnsureCategory { name: p.to_owned() },
                    ),
                    AdminDraft::RemoveCategory => AdminStep::Submit(
                        AdminRequest::RemoveCategory { name: p.to_owned() },
                    ),
                    AdminDraft::CloseItem => match parse_i64(p) {
                        Some(item_id) => AdminStep::Submit(AdminRequest::CloseItem { item_id }),
                        None => AdminStep::NotNumeric,
                    },
                    AdminDraft::RemoveItem => match parse_i64(p) {
                        Some(item_id) => AdminStep::Submit(AdminRequest::RemoveItem { item_id }),
                        None => AdminStep::NotNumeric,
                    },
                    AdminDraft::Broadcast => AdminStep::Submit(
                        AdminRequest::Broadcast { text: p.to_owned() },
                    ),
                }
            },
        },
    }
}

/// Takes one message for the draft of a new category.
pub fn handle_add_category_message(admin_tg_id: i64, sender: i64, text: Option<&str>) -> (r:
    AdminStep)
    ensures
        r@ == admin_step(AdminDraft::AddCategory, admin_tg_id, sender, text.deep_view()),
{
    handle_admin_message(AdminDraft::AddCategory, admin_tg_id, sender, text)
}

/// Takes one message for the draft that closes an item.
pub fn handle_close_item_message(admin_tg_id: i64, sender: i64, text: Option<&str>) -> (r:
    AdminStep)
    ensures
        r@ == admin_step(AdminDraft::CloseItem, admin_tg_id, sender, text.deep_view()),
{
    handle_admin_message(AdminDraft::CloseItem, admin_tg_id, sender, text)
}

/// Takes one message for the draft that removes an item.
pub fn handle_remove_item_message(admin_tg_id: i64, sender: i64, text: Option<&str>) -> (r:
    AdminStep)
    ensures
        r@ == admin_step(AdminDraft::RemoveItem, admin_tg_id, sender, text.deep_view()),
{
    handle_admin_message(AdminDraft::RemoveItem, admin_tg_id, sender, text)
}

/// Takes one message for the draft that removes a category.
pub fn handle_remove_category_message(admin_tg_id: i64, sender: i64, text: Option<&str>) -> (r:
    AdminStep)
    ensures
        r@ == admin_step(AdminDraft::RemoveCategory, admin_tg_id, sender, text.deep_view()),
{
    handle_admin_message(AdminDraft::RemoveCategory, admin_tg_id, sender, text)
}

/// Takes one message for the draft of an announcement.
pub fn handle_broadcast_message(admin_tg_id: i64, sender: i64, text: Option<&str>) -> (r:
    AdminStep)
    ensures
        r@ == admin_step(AdminDraft::Broadcast, admin_tg_id, sender, text.deep_view()),
{
    handle_admin_message(AdminDraft::Broadcast, admin_tg_id, sender, text)
}

impl AdminStep {
    /// What the step does to the conversation.
    pub fn state_change(&self) -> (r: StateChange)
        ensures
            r@ == self@.state_change(),
    {
        match self {
            AdminStep::Cancelled => StateChange::Reset,
            _ => StateChange::Keep,
        }
    }

    /// What the sender is told at once, if anything.
    pub fn reply(&self, kind: AdminDraft) -> (r: Option<String>)
        ensures
            r.deep_view() == self@.reply_text(kind),
    {
        match self {
            AdminStep::NotOwner => Some(
                String::from_str("Only the admin who started this action can respond."),
            ),
            AdminStep::Prompt => Some(
                match kind {
                    AdminDraft::AddCategory => String::from_str(
                        "🆕 Send the new category name or type cancel to stop.",
                    ),
                    AdminDraft::CloseItem => String::from_str(
                        "🛑 Send the item ID to close or type cancel to stop.",
                    ),
                    AdminDraft::RemoveItem => String::from_str(
                        "🗑 Send the item ID to remove or type cancel to stop.",
                    ),
                    AdminDraft::RemoveCategory => String::from_str(
                        "🗑 Send the category name to remove or type cancel to stop.",
                    ),
                    AdminDraft::Broadcast => String::from_str(
                        "📢 Send the announcement text (formatting will be preserved).",
                    ),
                },
            ),
            AdminStep::Cancelled => Some(
                match kind {
                    AdminDraft::AddCategory => String::from_str("❌ Category creation cancelled."),
                    AdminDraft::CloseItem => String::from_str("❌ Item closure cancelled."),
                    AdminDraft::RemoveItem => String::from_str("❌ Item removal cancelled."),
                    AdminDraft::RemoveCategory => String::from_str(
                        "❌ Category removal cancelled.",
                    ),
                    AdminDraft::Broadcast => String::from_str("❌ Broadcast cancelled."),
                },
            ),
            AdminStep::NotNumeric => Some(String::from_str("🔢 Provide a numeric item ID.")),
            AdminStep::Submit(_) => None,
        }
    }
}

/// What the lookup of a category by name settles: the category that
/// exists, flagged as existing, or nothing where it has to be created.
pub fn ensure_category(found: Option<CategoryRow>) -> (r: Option<(CategoryRow, bool)>)
    ensures
        r == match found {
            Some(existing) => Some((existing, true)),
            None => None,
        },
{
    match found {
        Some(existing) => Some((existing, true)),
        None => None,
    }
}

/// The category that the store has just created under `id`, flagged as
/// new.
pub fn created_category(id: i64, name: &str) -> (r: (CategoryRow, bool))
    ensures
        r.0@ == (CategoryView { id, name: name@ }),
        !r.1,
{
    (CategoryRow { id, name: name.to_owned() }, false)
}

/// What the admin is told about the category they asked for.
pub open spec fn category_ensured_text(category: CategoryView, existing: bool) -> Seq<char> {
    (if existing {
        "⚠️ Category already exists: "@
    } else {
        "✅ Category created: "@
    }) + category.name + " (#"@ + int_text(category.id as int) + ")"@
}

/// What follows the lookup or creation of a category: the draft ends, and
/// the admin is told which of the two it was.
pub fn category_ensured(category: &CategoryRow, existing: bool) -> (r: (StateChange, String))
    ensures
        r.0@ == StateChangeView::Reset,
        r.1@ == category_ensured_text(category@, existing),
{
    let mut out = if existing {
        String::from_str("⚠️ Category already exists: ")
    } else {
        String::from_str("✅ Category created: ")
    };
    out.append(category.name.as_str());
    out.append(" (#");
    push_int(&mut out, category.id);
    out.append(")");
    assert(out@ =~= category_ensured_text(category@, existing));
    (StateChange::Reset, out)
}

/// What to do about an item that an admin wants closed.
#[derive(Debug, Clone, Copy, PartialEq, Eq, Structural)]
pub enum CloseDecision {
    /// There is no such item; the admin may send another number.
    NotFound,
    /// The item is closed already: nothing is closed and nobody is told
    /// again.
    AlreadyClosed,
    /// The item is open: it is closed, and those who watch it are told.
    Close,
}

impl CloseDecision {
    pub open spec fn state_change(self) -> StateChangeView {
        match self {
            CloseDecision::NotFound => StateChangeView::Keep,
            CloseDecision::AlreadyClosed => StateChangeView::Reset,
            CloseDecision::Close => StateChangeView::Reset,
        }
    }

    /// Whether the closure notices go out.
    pub open spec fn notifies(self) -> bool {
        self == CloseDecision::Close
    }

    pub open spec fn reply_text(self, item_id: i64) -> Seq<char> {
        match self {
            CloseDecision::NotFound => "❓ Item not found."@,
            CloseDecision::AlreadyClosed => "ℹ️ Item #"@ + int_text(item_id as int)
                + " is already closed."@,
            CloseDecision::Close => "🛑 Item #"@ + int_text(item_id as int) + " closed."@,
        }
    }

    /// Whether the closure notices go out.
    pub fn sends_notices(&self) -> (r: bool)
        ensures
            r == self.notifies(),
    {
        match self {
            CloseDecision::Close => true,
            _ => false,
        }
    }

    /// What the decision does to the conversation; for an item that is to
    /// be closed, once the store has closed it.
    pub fn change(&self) -> (r: StateChange)
        ensures
            r@ == self.state_change(),
    {
        match self {
            CloseDecision::NotFound => StateChange::Keep,
            _ => StateChange::Reset,
        }
    }

    /// What the admin is told; for an item that is to be closed, once the
    /// store has closed it.
    pub fn reply(&self, item_id: i64) -> (r: String)
        ensures
            r@ == self.reply_text(item_id),
    {
        match self {
            CloseDecision::NotFound => String::from_str("❓ Item not found."),
            CloseDecision::AlreadyClosed => {
                let mut out = String::from_str("ℹ️ Item #");
                push_int(&mut out, item_id);
                out.append(" is already closed.");
                out
            },
            CloseDecision::Close => {
                let mut out = String::from_str("🛑 Item #");
                push_int(&mut out, item_id);
                out.append(" closed.");
                out
            },
        }
    }
}

/// What to do about an item that an admin wants closed, given the item as
/// the store holds it.
pub open spec fn close_decision(item: Option<ItemView>) -> CloseDecision {
    match item {
        None => CloseDecision::NotFound,
        Some(item) => if item.is_open {
            CloseDecision::Close
        } else {
            CloseDecision::AlreadyClosed
        },
    }
}

/// Decides what to do about an item that an admin wants closed.
pub fn decide_close(item: Option<&ItemRow>) -> (r: CloseDecision)
    ensures
        r == close_decision(item.deep_view()),
{
    match item {
        None => CloseDecision::NotFound,
        Some(item) => if item.is_open {
            CloseDecision::Close
        } else {
            CloseDecision::AlreadyClosed
        },
    }
}

/// What the admin is told about the removal of an item.
pub open spec fn item_removed_text(item_id: i64, removed: bool) -> Seq<char> {
    if removed {
        "🗑 Item #"@ + int_text(item_id as int)
            + " removed. Related bids and favorites were deleted."@
    } else {
        "❓ Item not found or already removed."@
    }
}

/// What a removal does to the conversation: the draft ends where something
/// was removed, and stays for another try otherwise.
pub open spec fn removal_change(removed: bool) -> StateChangeView {
    if removed {
        StateChangeView::Reset
    } else {
        StateChangeView::Keep
    }
}

/// What follows the removal of an item; `removed` tells whether the store
/// held it.
pub fn item_removed(item_id: i64, removed: bool) -> (r: (StateChange, String))
    ensures
        r.0@ == removal_change(removed),
        r.1@ == item_removed_text(item_id, removed),
{
    if removed {
        let mut out = String::from_str("🗑 Item #");
        push_int(&mut out, item_id);
        out.append(" removed. Related bids and favorites were deleted.");
        (StateChange::Reset, out)
    } else {
        (StateChange::Keep, String::from_str("❓ Item not found or already removed."))
    }
}

/// What the admin is told where there is no category of the given name.
pub open spec fn category_missing_text() -> Seq<char> {
    "❓ Category not found."@
}

/// What follows a lookup that found no category: the draft stays.
pub fn category_missing() -> (r: (StateChange, String))
    ensures
        r.0@ == StateChangeView::Keep,
        r.1@ == category_missing_text(),
{
    (StateChange::Keep, String::from_str("❓ Category not found."))
}

/// What the admin is told about the removal of a category; `item_count`
/// is the number of items it held.
pub open spec fn category_removed_text(name: Seq<char>, item_count: nat, removed: bool) -> Seq<
    char,
> {
    if removed {
        "🗑 Category '"@ + name + "' removed. "@ + nat_text(item_count)
            + " item(s) and related bids/favorites were deleted."@
    } else {
        "❓ Category not found or already removed."@
    }
}

/// What follows the removal of a category; `removed` tells whether the
/// store held it.
pub fn category_removed(category: &CategoryRow, item_count: usize, removed: bool) -> (r: (
    StateChange,
    String,
))
    ensures
        r.0@ == removal_change(removed),
        r.1@ == category_removed_text(category@.name, item_count as nat, removed),
{
    if removed {
        let mut out = String::from_str("🗑 Category '");
        out.append(category.name.as_str());
        out.append("' removed. ");
        push_nat(&mut out, item_count as u64);
        out.append(" item(s) and related bids/favorites were deleted.");
        assert(out@ =~= category_removed_text(category@.name, item_count as nat, removed));
        (StateChange::Reset, out)
    } else {
        (StateChange::Keep, String::from_str("❓ Category not found or already removed."))
    }
}

/// What the admin is told about an announcement: that nobody is
/// registered, or to how many users it was delivered.
pub open spec fn broadcast_report_text(recipients: nat, delivered: nat) -> Seq<char> {
    if recipients == 0 {
        "📢 No users are registered to receive the announcement."@
    } else {
        "📢 Broadcast sent to "@ + nat_text(delivered) + " user(s)."@
    }
}

/// What follows an announcement: the draft ends, whether or not anybody
/// was there to receive it.
pub fn broadcast_done(recipients: usize, delivered: usize) -> (r: (StateChange, String))
    ensures
        r.0@ == StateChangeView::Reset,
        r.1@ == broadcast_report_text(recipients as nat, delivered as nat),
{
    if recipients == 0 {
        (
            StateChange::Reset,
            String::from_str("📢 No users are registered to receive the announcement."),
        )
    } else {
        let mut out = String::from_str("📢 Broadcast sent to ");
        push_nat(&mut out, delivered as u64);
        out.append(" user(s).");
        (StateChange::Reset, out)
    }
}

} // verus!
