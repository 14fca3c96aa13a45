//! What an inline action leads to: who may do it, what it does to the
//! conversation, and what is shown or asked next.

use crate::additem::category_chosen;
use crate::additem::with_category;
use crate::admin::AdminDraft;
use crate::models::CategoryRow;
use crate::models::CategoryView;
use crate::models::ItemRow;
use crate::models::ItemView;
use crate::router::AdminCommand;
use crate::router::CallbackAction;
use crate::router::FavoriteChange;
use crate::router::MenuTarget;
use crate::state::AddItemDraft;
use crate::state::AddItemDraftView;
use crate::state::BidDraft;
use crate::state::ConversationState;
use crate::state::ConversationView;
use crate::state::DraftStage;
use crate::state::StateChange;
use crate::state::StateChangeView;
use crate::text::int_text;
use crate::text::push_int;
use vstd::prelude::*;
use vstd::string::StringExecFns;

verus! {

/// The screens that take the place of the message under which a button
/// was pressed.
#[derive(Debug, Clone, Copy, PartialEq, Eq, Structural)]
pub enum Screen {
    MainMenu,
    Catalogue,
    Settings,
    AdminPanel,
}

/// The lists that are sent as messages of their own.
#[derive(Debug, Clone, Copy, PartialEq, Eq, Structural)]
pub enum ListKind {
    Favorites,
    MyBids,
}

/// What an inline action leads to.
#[derive(Debug, Clone, Copy, PartialEq, Eq, Structural)]
pub enum CallbackPlan {
    /// The action is acknowledged and nothing else happens.
    Nothing,
    /// The user is told that the action is for admins.
    Deny,
    /// The chat is in a draft of somebody else, which the action would
    /// change or end: the user is told so, and the draft stays.
    NotOwner,
    /// The conversation returns to idle, and the screen is drawn in place
    /// of the message, if there is one.
    Open(Screen),
    /// The list is sent.
    Send(ListKind),
    /// The conversation becomes the draft, and the admin is asked for its
    /// text.
    Begin(AdminDraft),
    /// The conversation becomes a new item draft, and the category picker
    /// is shown.
    BeginItem,
    /// The conversation returns to idle, and the new lots are announced to
    /// every registered user.
    AnnounceNewLots,
    /// The item draft of the chat waits for the name of a new category.
    PickNewCategory,
    /// The category is looked up and becomes that of the item draft.
    PickCategory(i64),
    /// The items of the category are listed.
    ShowCategory(i64),
    /// The item is presented.
    ShowItem(i64),
    /// The next page of the images of the item is sent.
    ShowImages { item_id: i64, offset: usize },
    /// The catalogue is drawn in place of the message.
    ShowCategories,
    /// The item is looked up and, where it is open, a bid on it is begun.
    SelectBid(i64),
    /// The favourite is added or removed, and the buttons of the item are
    /// drawn again.
    Favorite { change: FavoriteChange, item_id: i64 },
    /// The mute setting of the user is switched.
    ToggleNotifications,
}

/// What an action of the admin panel leads to for an admin.
pub open spec fn admin_plan(command: AdminCommand) -> CallbackPlan {
    match command {
        AdminCommand::AddCategory => CallbackPlan::Begin(AdminDraft::AddCategory),
        AdminCommand::AddItem => CallbackPlan::BeginItem,
        AdminCommand::RemoveItem => CallbackPlan::Begin(AdminDraft::RemoveItem),
        AdminCommand::RemoveCategory => CallbackPlan::Begin(AdminDraft::RemoveCategory),
        AdminCommand::CloseItem => CallbackPlan::Begin(AdminDraft::CloseItem),
        AdminCommand::Broadcast => CallbackPlan::Begin(AdminDraft::Broadcast),
        AdminCommand::NotifyNew => CallbackPlan::AnnounceNewLots,
        AdminCommand::Unknown => CallbackPlan::Nothing,
    }
}

/// What an inline action asks for. Everything under the admin prefix, and
/// the admin panel itself, is for admins only. What is drawn or sent into
/// the chat needs the message under which the button was pressed;
/// `has_message` tells whether it is at hand.
pub open spec fn requested_plan(action: CallbackAction, is_admin: bool, has_message: bool)
    -> CallbackPlan {
    match action {
        CallbackAction::Menu(MenuTarget::Root) => CallbackPlan::Open(Screen::MainMenu),
        CallbackAction::Menu(MenuTarget::Catalogue) => CallbackPlan::Open(Screen::Catalogue),
        CallbackAction::Menu(MenuTarget::Settings) => CallbackPlan::Open(Screen::Settings),
        CallbackAction::Menu(MenuTarget::Admin) => if is_admin {
            CallbackPlan::Open(Screen::AdminPanel)
        } else {
            CallbackPlan::Deny
        },
        CallbackAction::Menu(MenuTarget::Favorites) => if has_message {
            CallbackPlan::Send(ListKind::Favorites)
        } else {
            CallbackPlan::Nothing
        },
        CallbackAction::Menu(MenuTarget::MyBids) => if has_message {
            CallbackPlan::Send(ListKind::MyBids)
        } else {
            CallbackPlan::Nothing
        },
        CallbackAction::Admin(command) => if is_admin {
            admin_plan(command)
        } else {
            CallbackPlan::Deny
        },
        CallbackAction::PickNewCategory => if has_message {
            CallbackPlan::PickNewCategory
        } else {
            CallbackPlan::Nothing
        },
        CallbackAction::PickCategory(id) => if has_message {
            CallbackPlan::PickCategory(id)
        } else {
            CallbackPlan::Nothing
        },
        CallbackAction::Category(id) => if has_message {
            CallbackPlan::ShowCategory(id)
        } else {
            CallbackPlan::Nothing
        },
        CallbackAction::Item(id) => if has_message {
            CallbackPlan::ShowItem(id)
        } else {
            CallbackPlan::Nothing
        },
        CallbackAction::Images { item_id, offset } => if has_message {
            CallbackPlan::ShowImages { item_id, offset }
        } else {
            CallbackPlan::Nothing
        },
        CallbackAction::BackToCategories => if has_message {
            CallbackPlan::ShowCategories
        } else {
            CallbackPlan::Nothing
        },
        CallbackAction::Bid(id) => CallbackPlan::SelectBid(id),
        CallbackAction::Favorite { change, item_id } => CallbackPlan::Favorite { change, item_id },
        CallbackAction::ToggleNotifications => CallbackPlan::ToggleNotifications,
        CallbackAction::Unrecognized => CallbackPlan::Nothing,
    }
}

impl CallbackPlan {
    /// Whether the plan changes the conversation of the chat, at once or
    /// once the store has answered.
    pub open spec fn touches_conversation(self) -> bool {
        match self {
            CallbackPlan::Open(_) => true,
            CallbackPlan::Begin(_) => true,
            CallbackPlan::BeginItem => true,
            CallbackPlan::AnnounceNewLots => true,
            CallbackPlan::PickNewCategory => true,
            CallbackPlan::PickCategory(_) => true,
            CallbackPlan::SelectBid(_) => true,
            _ => false,
        }
    }

    /// Whether the plan changes the conversation of the chat.
    pub fn changes_conversation(self) -> (r: bool)
        ensures
            r == self.touches_conversation(),
    {
        match self {
            CallbackPlan::Open(_) => true,
            CallbackPlan::Begin(_) => true,
            CallbackPlan::BeginItem => true,
            CallbackPlan::AnnounceNewLots => true,
            CallbackPlan::PickNewCategory => true,
            CallbackPlan::PickCategory(_) => true,
            CallbackPlan::SelectBid(_) => true,
            _ => false,
        }
    }
}

/// What an inline action leads to in a chat whose conversation is
/// `state`: what it asks for, unless that would change or end a draft of
/// somebody else.
pub open spec fn plan_of(
    action: CallbackAction,
    user_id: i64,
    is_admin: bool,
    has_message: bool,
    state: ConversationView,
) -> CallbackPlan {
    let plan = requested_plan(action, is_admin, has_message);
    if state.held_by_other(user_id) && plan.touches_conversation() {
        CallbackPlan::NotOwner
    } else {
        plan
    }
}

fn requested(action: CallbackAction, is_admin: bool, has_message: bool) -> (r: CallbackPlan)
    ensures
        r == requested_plan(action, is_admin, has_message),
{
    match action {
        CallbackAction::Menu(target) => match target {
            MenuTarget::Root => CallbackPlan::Open(Screen::MainMenu),
            MenuTarget::Catalogue => CallbackPlan::Open(Screen::Catalogue),
            MenuTarget::Settings => CallbackPlan::Open(Screen::Settings),
            MenuTarget::Admin => if is_admin {
                CallbackPlan::Open(Screen::AdminPanel)
            } else {
                CallbackPlan::Deny
            },
            MenuTarget::Favorites => if has_message {
                CallbackPlan::Send(ListKind::Favorites)
            } else {
                CallbackPlan::Nothing
            },
            MenuTarget::MyBids => if has_message {
                CallbackPlan::Send(ListKind::MyBids)
            } else {
                CallbackPlan::Nothing
            },
        },
        CallbackAction::Admin(command) => if !is_admin {
            CallbackPlan::Deny
        } else {
            match command {
                AdminCommand::AddCategory => CallbackPlan::Begin(AdminDraft::AddCategory),
                AdminCommand::AddItem => CallbackPlan::BeginItem,
                AdminCommand::RemoveItem => CallbackPlan::Begin(AdminDraft::RemoveItem),
                AdminCommand::RemoveCategory => CallbackPlan::Begin(AdminDraft::RemoveCategory),
                AdminCommand::CloseItem => CallbackPlan::Begin(AdminDraft::CloseItem),
                AdminCommand::Broadcast => CallbackPlan::Begin(AdminDraft::Broadcast),
                AdminCommand::NotifyNew => CallbackPlan::AnnounceNewLots,
                AdminCommand::Unknown => CallbackPlan::Nothing,
            }
        },
        CallbackAction::Bid(id) => CallbackPlan::SelectBid(id),
        CallbackAction::Favorite { change, item_id } => CallbackPlan::Favorite { change, item_id },
        CallbackAction::ToggleNotifications => CallbackPlan::ToggleNotifications,
        CallbackAction::Unrecognized => CallbackPlan::Nothing,
        _ => if !has_message {
            CallbackPlan::Nothing
        } else {
            match action {
                CallbackAction::PickNewCategory => CallbackPlan::PickNewCategory,
                CallbackAction::PickCategory(id) => CallbackPlan::PickCategory(id),
                CallbackAction::Category(id) => CallbackPlan::ShowCategory(id),
                CallbackAction::Item(id) => CallbackPlan::ShowItem(id),
                CallbackAction::Images { item_id, offset } => CallbackPlan::ShowImages {
                    item_id,
                    offset,
                },
                CallbackAction::BackToCategories => CallbackPlan::ShowCategories,
                _ => CallbackPlan::Nothing,
            }
        },
    }
}

/// Decides what an inline action leads to.
pub fn handle_callback_query(
    action: CallbackAction,
    user_id: i64,
    is_admin: bool,
    has_message: bool,
    state: &ConversationState,
) -> (r: CallbackPlan)
    ensures
        r == plan_of(action, user_id, is_admin, has_message, state@),
{
    let plan = requested(action, is_admin, has_message);
    let held_by_other = match state.owner() {
        Some(owner) => owner != user_id,
        None => false,
    };
    if held_by_other && plan.changes_conversation() {
        CallbackPlan::NotOwner
    } else {
        plan
    }
}

/// What the `/start` command does to the conversation: it returns to
/// idle, unless it holds a draft of somebody else.
pub open spec fn start_change(state: ConversationView, user_id: i64) -> StateChangeView {
    if state.held_by_other(user_id) {
        StateChangeView::Keep
    } else {
        StateChangeView::Reset
    }
}

/// Decides what the `/start` command does to the conversation.
pub fn handle_start(state: &ConversationState, user_id: i64) -> (r: StateChange)
    ensures
        r@ == start_change(state@, user_id),
{
    match state.owner() {
        Some(owner) => if owner != user_id {
            StateChange::Keep
        } else {
            StateChange::Reset
        },
        None => StateChange::Reset,
    }
}

/// An inline action or a `/start` from anybody but the owner of a draft
/// leaves the conversation as it was: whatever the action, its plan
/// neither changes the conversation at once nor leads to a step that
/// would.
pub proof fn law_non_owner_action_changes_nothing(
    action: CallbackAction,
    user_id: i64,
    is_admin: bool,
    has_message: bool,
    state: ConversationView,
)
    requires
        state.held_by_other(user_id),
    ensures
        !plan_of(action, user_id, is_admin, has_message, state).touches_conversation(),
        plan_of(action, user_id, is_admin, has_message, state).state_change(user_id)
            == StateChangeView::Keep,
        start_change(state, user_id).applied_to(state) == state,
        forall|found: Option<CategoryView>|
            #[trigger] category_pick(state, user_id, is_admin, found).state_change()
                == StateChangeView::Keep,
        draft_to_pick_for(state, user_id, is_admin).state_change() == StateChangeView::Keep,
        forall|item: Option<ItemView>, item_id: i64|
            #[trigger] bid_selection(state, item, item_id, user_id).state_change()
                == StateChangeView::Keep,
{
}

/// The short answers that a pressed button gets.
#[derive(Debug, Clone, Copy, PartialEq, Eq, Structural)]
pub enum Ack {
    AdminsOnly,
    DraftInProgress,
    SentFavorites,
    SentBids,
    WaitingCategoryName,
    StartingItem,
    AwaitingRemoveItem,
    AwaitingRemoveCategory,
    AwaitingItemId,
    WaitingAnnouncement,
    NoNewLots,
    NoUsers,
    NotificationSent,
    CategorySelected,
    CategoryNotFound,
    ItemNotFound,
    AllImagesShown,
    SentMorePhotos,
    AuctionClosed,
    AddedFavorite,
    RemovedFavorite,
    Muted,
    Enabled,
}

impl Ack {
    pub open spec fn text(self) -> Seq<char> {
        match self {
            Ack::AdminsOnly => "🛡️ Admins only."@,
            Ack::DraftInProgress => "Only the one who started the action in progress can respond."@,
            Ack::SentFavorites => "⭐ Sent your favorites."@,
            Ack::SentBids => "🪙 Sent your bids."@,
            Ack::WaitingCategoryName => "🆕 Waiting for category name."@,
            Ack::StartingItem => "📦 Starting item creation."@,
            Ack::AwaitingRemoveItem => "🗑 Awaiting item ID to remove."@,
            Ack::AwaitingRemoveCategory => "🗑 Awaiting category ID to remove."@,
            Ack::AwaitingItemId => "🛑 Awaiting item ID."@,
            Ack::WaitingAnnouncement => "📢 Waiting for announcement text."@,
            Ack::NoNewLots => "🔔 No new lots."@,
            Ack::NoUsers => "🔔 No users registered."@,
            Ack::NotificationSent => "🔔 Notification sent."@,
            Ack::CategorySelected => "🗂️ Category selected."@,
            Ack::CategoryNotFound => "❓ Category not found"@,
            Ack::ItemNotFound => "❓ Item not found"@,
            Ack::AllImagesShown => "📷 All images already shown."@,
            Ack::SentMorePhotos => "📷 Sent more photos."@,
            Ack::AuctionClosed => "🔒 Auction is closed"@,
            Ack::AddedFavorite => "⭐ Added to favorites"@,
            Ack::RemovedFavorite => "❌ Removed from favorites"@,
            Ack::Muted => "🔕 Notifications muted."@,
            Ack::Enabled => "🔔 Notifications enabled."@,
        }
    }

    /// The words of the answer.
    pub fn message(self) -> (r: &'static str)
        ensures
            r@ == self.text(),
    {
        match self {
            Ack::AdminsOnly => "🛡️ Admins only.",
            Ack::DraftInProgress => "Only the one who started the action in progress can respond.",
            Ack::SentFavorites => "⭐ Sent your favorites.",
            Ack::SentBids => "🪙 Sent your bids.",
            Ack::WaitingCategoryName => "🆕 Waiting for category name.",
            Ack::StartingItem => "📦 Starting item creation.",
            Ack::AwaitingRemoveItem => "🗑 Awaiting item ID to remove.",
            Ack::AwaitingRemoveCategory => "🗑 Awaiting category ID to remove.",
            Ack::AwaitingItemId => "🛑 Awaiting item ID.",
            Ack::WaitingAnnouncement => "📢 Waiting for announcement text.",
            Ack::NoNewLots => "🔔 No new lots.",
            Ack::NoUsers => "🔔 No users registered.",
            Ack::NotificationSent => "🔔 Notification sent.",
            Ack::CategorySelected => "🗂️ Category selected.",
            Ack::CategoryNotFound => "❓ Category not found",
            Ack::ItemNotFound => "❓ Item not found",
            Ack::AllImagesShown => "📷 All images already shown.",
            Ack::SentMorePhotos => "📷 Sent more photos.",
            Ack::AuctionClosed => "🔒 Auction is closed",
            Ack::AddedFavorite => "⭐ Added to favorites",
            Ack::RemovedFavorite => "❌ Removed from favorites",
            Ack::Muted => "🔕 Notifications muted.",
            Ack::Enabled => "🔔 Notifications enabled.",
        }
    }
}

impl CallbackPlan {
    /// What the plan does to the conversation at once. The plans that look
    /// something up first change it when the answer is there.
    pub open spec fn state_change(self, user_id: i64) -> StateChangeView {
        match self {
            CallbackPlan::Open(_) => StateChangeView::Reset,
            CallbackPlan::AnnounceNewLots => StateChangeView::Reset,
            CallbackPlan::Begin(kind) => StateChangeView::Become(kind.conversation(user_id)),
            CallbackPlan::BeginItem => StateChangeView::Become(
                ConversationView::AddItem(fresh_draft(user_id)),
            ),
            _ => StateChangeView::Keep,
        }
    }

    /// The answer that is known at once.
    pub open spec fn ack(self) -> Option<Ack> {
        match self {
            CallbackPlan::Deny => Some(Ack::AdminsOnly),
            CallbackPlan::NotOwner => Some(Ack::DraftInProgress),
            CallbackPlan::Send(ListKind::Favorites) => Some(Ack::SentFavorites),
            CallbackPlan::Send(ListKind::MyBids) => Some(Ack::SentBids),
            CallbackPlan::Begin(AdminDraft::AddCategory) => Some(Ack::WaitingCategoryName),
            CallbackPlan::Begin(AdminDraft::RemoveItem) => Some(Ack::AwaitingRemoveItem),
            CallbackPlan::Begin(AdminDraft::RemoveCategory) => Some(Ack::AwaitingRemoveCategory),
            CallbackPlan::Begin(AdminDraft::CloseItem) => Some(Ack::AwaitingItemId),
            CallbackPlan::Begin(AdminDraft::Broadcast) => Some(Ack::WaitingAnnouncement),
            CallbackPlan::BeginItem => Some(Ack::StartingItem),
            _ => None,
        }
    }

    /// What the plan does to the conversation at once.
    pub fn change(self, user_id: i64) -> (r: StateChange)
        ensures
            r@ == self.state_change(user_id),
    {
        match self {
            CallbackPlan::Open(_) => StateChange::Reset,
            CallbackPlan::AnnounceNewLots => StateChange::Reset,
            CallbackPlan::Begin(kind) => StateChange::Become(kind.begin(user_id)),
            CallbackPlan::BeginItem => StateChange::Become(
                ConversationState::AddItem(AddItemDraft::new(user_id, None)),
            ),
            _ => StateChange::Keep,
        }
    }

    /// The answer that is known at once.
    pub fn answer(self) -> (r: Option<Ack>)
        ensures
            r == self.ack(),
    {
        match self {
            CallbackPlan::Deny => Some(Ack::AdminsOnly),
            CallbackPlan::NotOwner => Some(Ack::DraftInProgress),
            CallbackPlan::Send(ListKind::Favorites) => Some(Ack::SentFavorites),
            CallbackPlan::Send(ListKind::MyBids) => Some(Ack::SentBids),
            CallbackPlan::Begin(kind) => Some(
                match kind {
                    AdminDraft::AddCategory => Ack::WaitingCategoryName,
                    AdminDraft::RemoveItem => Ack::AwaitingRemoveItem,
                    AdminDraft::RemoveCategory => Ack::AwaitingRemoveCategory,
                    AdminDraft::CloseItem => Ack::AwaitingItemId,
                    AdminDraft::Broadcast => Ack::WaitingAnnouncement,
                },
            ),
            CallbackPlan::BeginItem => Some(Ack::StartingItem),
            _ => None,
        }
    }
}

/// An item draft as it begins: at the category stage, with nothing filled
/// in.
pub open spec fn fresh_draft(user_id: i64) -> AddItemDraftView {
    AddItemDraftView {
        stage: DraftStage::Category,
        seller_tg_id: user_id,
        image_file_id: None,
        image_file_ids: Seq::empty(),
        category_id: None,
        category_name: None,
        title: None,
        description: None,
        start_price: None,
    }
}

/// What the admin is asked when a single-message draft begins.
pub open spec fn begin_prompt_text(kind: AdminDraft) -> Seq<char> {
    match kind {
        AdminDraft::AddCategory => "🆕 Send the new category name:"@,
        AdminDraft::RemoveItem => "🗑 Send the item ID to remove (bids and favorites will also be removed). Type cancel to stop."@,
        AdminDraft::RemoveCategory => "🗑 Send the category ID to remove (all items, bids, and favorites under it will be deleted). Type cancel to stop."@,
        AdminDraft::CloseItem => "🛑 Send the item ID to close:"@,
        AdminDraft::Broadcast => "📢 Send the announcement text to broadcast to all users."@,
    }
}

/// What the admin is asked when a single-message draft begins.
pub fn begin_prompt(kind: AdminDraft) -> (r: &'static str)
    ensures
        r@ == begin_prompt_text(kind),
{
    match kind {
        AdminDraft::AddCategory => "🆕 Send the new category name:",
        AdminDraft::RemoveItem => "🗑 Send the item ID to remove (bids and favorites will also be removed). Type cancel to stop.",
        AdminDraft::RemoveCategory => "🗑 Send the category ID to remove (all items, bids, and favorites under it will be deleted). Type cancel to stop.",
        AdminDraft::CloseItem => "🛑 Send the item ID to close:",
        AdminDraft::Broadcast => "📢 Send the announcement text to broadcast to all users.",
    }
}

/// What the choice of a category in the picker leads to.
#[derive(Debug, Clone, PartialEq, Eq)]
pub enum PickOutcome {
    /// There is no such category.
    NotFound,
    /// The chat has no item draft, and the user is no admin.
    Denied,
    /// The chat is in a draft of somebody else.
    NotOwner,
    /// The draft goes on: it becomes the conversation of the chat, and the
    /// admin is asked for what it waits for.
    Continue(AddItemDraft),
}

/// [`PickOutcome`] as contracts speak of it: every text is the sequence of its
/// characters.
pub enum PickOutcomeView {
    NotFound,
    Denied,
    NotOwner,
    Continue(AddItemDraftView),
}

impl View for PickOutcome {
    type V = PickOutcomeView;

    open spec fn view(&self) -> PickOutcomeView {
        match self {
            PickOutcome::NotFound => PickOutcomeView::NotFound,
            PickOutcome::Denied => PickOutcomeView::Denied,
            PickOutcome::NotOwner => PickOutcomeView::NotOwner,
            PickOutcome::Continue(draft) => PickOutcomeView::Continue(draft@),
        }
    }
}

impl PickOutcomeView {
    pub open spec fn state_change(self) -> StateChangeView {
        match self {
            PickOutcomeView::Continue(draft) => StateChangeView::Become(
                ConversationView::AddItem(draft),
            ),
            _ => StateChangeView::Keep,
        }
    }

    /// The answer to the pressed button; `named` tells whether a category
    /// was chosen, as opposed to a new one being announced.
    pub open spec fn ack(self, named: bool) -> Ack {
        match self {
            PickOutcomeView::NotFound => Ack::CategoryNotFound,
            PickOutcomeView::Denied => Ack::AdminsOnly,
            PickOutcomeView::NotOwner => Ack::DraftInProgress,
            PickOutcomeView::Continue(_) => if named {
                Ack::CategorySelected
            } else {
                Ack::WaitingCategoryName
            },
        }
    }

    /// What the admin is asked next, where the draft goes on.
    pub open spec fn prompt_text(self, named: bool) -> Option<Seq<char>> {
        match self {
            PickOutcomeView::Continue(_) => Some(
                if named {
                    "📝 Enter item title:"@
                } else {
                    "🆕 Send the new category name (or type cancel)."@
                },
            ),
            _ => None,
        }
    }
}

impl PickOutcome {
    /// The answer to the pressed button.
    pub fn answer(&self, named: bool) -> (r: Ack)
        ensures
            r == self@.ack(named),
    {
        match self {
            PickOutcome::NotFound => Ack::CategoryNotFound,
            PickOutcome::Denied => Ack::AdminsOnly,
            PickOutcome::NotOwner => Ack::DraftInProgress,
            PickOutcome::Continue(_) => if named {
                Ack::CategorySelected
            } else {
                Ack::WaitingCategoryName
            },
        }
    }

    /// What the admin is asked next, where the draft goes on.
    pub fn prompt(&self, named: bool) -> (r: Option<&'static str>)
        ensures
            r.deep_view() == self@.prompt_text(named),
    {
        match self {
            PickOutcome::Continue(_) => Some(
                if named {
                    "📝 Enter item title:"
                } else {
                    "🆕 Send the new category name (or type cancel)."
                },
            ),
            _ => None,
        }
    }

    /// What the choice does to the conversation.
    pub fn into_state_change(self) -> (r: StateChange)
        ensures
            r@ == self@.state_change(),
    {
        match self {
            PickOutcome::Continue(draft) => StateChange::Become(ConversationState::AddItem(draft)),
            _ => StateChange::Keep,
        }
    }
}

/// The item draft that a press in the category picker works on: the item
/// draft of the chat where the user owns it, and otherwise a fresh one of
/// the user's own where the user is an admin. A draft of somebody else is
/// never touched.
pub open spec fn draft_to_pick_for(state: ConversationView, user_id: i64, is_admin: bool)
    -> PickOutcomeView {
    if state.held_by_other(user_id) {
        PickOutcomeView::NotOwner
    } else {
        match state {
            ConversationView::AddItem(draft) => PickOutcomeView::Continue(draft),
            _ => if is_admin {
                PickOutcomeView::Continue(fresh_draft(user_id))
            } else {
                PickOutcomeView::Denied
            },
        }
    }
}

fn pick_draft(state: ConversationState, user_id: i64, is_admin: bool) -> (r: PickOutcome)
    ensures
        r@ == draft_to_pick_for(state@, user_id, is_admin),
{
    let held_by_other = match state.owner() {
        Some(owner) => owner != user_id,
        None => false,
    };
    if held_by_other {
        return PickOutcome::NotOwner;
    }
    match state {
        ConversationState::AddItem(draft) => PickOutcome::Continue(draft),
        _ => if is_admin {
            PickOutcome::Continue(AddItemDraft::new(user_id, None))
        } else {
            PickOutcome::Denied
        },
    }
}

/// The press of "new category" in the picker: the draft, kept as it is or
/// begun, waits at its stage for the name.
pub fn pick_new_category(state: ConversationState, user_id: i64, is_admin: bool) -> (r:
    PickOutcome)
    ensures
        r@ == draft_to_pick_for(state@, user_id, is_admin),
{
    pick_draft(state, user_id, is_admin)
}

/// What the choice of a category leads to: the category, if it exists,
/// becomes that of the draft, which then waits for the title.
pub open spec fn category_pick(
    state: ConversationView,
    user_id: i64,
    is_admin: bool,
    found: Option<CategoryView>,
) -> PickOutcomeView {
    match found {
        None => PickOutcomeView::NotFound,
        Some(category) => match draft_to_pick_for(state, user_id, is_admin) {
            PickOutcomeView::Continue(draft) => PickOutcomeView::Continue(
                with_category(draft, category),
            ),
            other => other,
        },
    }
}

/// The choice of a category in the picker; `found` is the category as the
/// store holds it.
pub fn pick_category(
    state: ConversationState,
    user_id: i64,
    is_admin: bool,
    found: Option<CategoryRow>,
) -> (r: PickOutcome)
    ensures
        r@ == category_pick(state@, user_id, is_admin, found.deep_view()),
{
    match found {
        None => PickOutcome::NotFound,
        Some(category) => match pick_draft(state, user_id, is_admin) {
            PickOutcome::Continue(draft) => PickOutcome::Continue(
                category_chosen(draft, category),
            ),
            other => other,
        },
    }
}

/// The place of the first category with the given number.
pub open spec fn category_index(categories: Seq<CategoryView>, id: i64) -> Option<int>
    decreases categories.len(),
{
    if categories.len() == 0 {
        None
    } else {
        match category_index(categories.drop_last(), id) {
            Some(i) => Some(i),
            None => if categories.last().id == id {
                Some(categories.len() - 1)
            } else {
                None
            },
        }
    }
}

/// Finds the first category with the given number.
pub fn find_category(categories: &Vec<CategoryRow>, id: i64) -> (r: Option<usize>)
    ensures
        match r {
            Some(i) => category_index(categories.deep_view(), id) == Some(i as int) && i
                < categories@.len() && categories@[i as int].id == id,
            None => category_index(categories.deep_view(), id) is None,
        },
{
    let ghost all = categories.deep_view();
    let mut i: usize = 0;
    while i < categories.len()
        invariant
            i <= categories@.len(),
            all == categories.deep_view(),
            category_index(all.subrange(0, i as int), id) is None,
        decreases categories@.len() - i,
    {
        proof {
            let longer = all.subrange(0, i as int + 1);
            assert(longer.drop_last() == all.subrange(0, i as int));
            assert(longer.last() == categories@[i as int]@);
        }
        if categories[i].id == id {
            proof {
                lemma_category_index_stays(all, id, i as int + 1);
            }
            return Some(i);
        }
        i = i + 1;
    }
    assert(all.subrange(0, i as int) == all);
    None
}

/// A category found among the first `k` is the one found among all.
proof fn lemma_category_index_stays(categories: Seq<CategoryView>, id: i64, k: int)
    requires
        0 <= k <= categories.len(),
        category_index(categories.subrange(0, k), id) is Some,
    ensures
        category_index(categories, id) == category_index(categories.subrange(0, k), id),
    decreases categories.len() - k,
{
    if k == categories.len() {
        assert(categories.subrange(0, k) == categories);
    } else {
        let longer = categories.subrange(0, k + 1);
        assert(longer.drop_last() == categories.subrange(0, k));
        lemma_category_index_stays(categories, id, k + 1);
    }
}

/// What pressing "bid" on an item leads to.
#[derive(Debug, Clone, Copy, PartialEq, Eq, Structural)]
pub enum BidSelection {
    /// The item is open: the conversation becomes a bid of the user on it.
    Begin(BidDraft),
    /// The auction of the item is over.
    Closed,
    /// There is no such item.
    NotFound,
    /// The chat is in a draft of somebody else, which a bid would replace.
    NotOwner,
}

impl BidSelection {
    pub open spec fn state_change(self) -> StateChangeView {
        match self {
            BidSelection::Begin(draft) => StateChangeView::Become(
                ConversationView::PlaceBid(draft),
            ),
            _ => StateChangeView::Keep,
        }
    }

    pub open spec fn ack(self) -> Option<Ack> {
        match self {
            BidSelection::Begin(_) => None,
            BidSelection::Closed => Some(Ack::AuctionClosed),
            BidSelection::NotFound => Some(Ack::ItemNotFound),
            BidSelection::NotOwner => Some(Ack::DraftInProgress),
        }
    }

    /// The request for the amount, where a bid is begun.
    pub open spec fn prompt_text(self) -> Option<Seq<char>> {
        match self {
            BidSelection::Begin(draft) => Some(
                "Enter your bid for item #"@ + int_text(draft.item_id as int)
                    + " in 0.00 format:"@,
            ),
            _ => None,
        }
    }

    /// What the selection does to the conversation.
    pub fn change(self) -> (r: StateChange)
        ensures
            r@ == self.state_change(),
    {
        match self {
            BidSelection::Begin(draft) => StateChange::Become(ConversationState::PlaceBid(draft)),
            _ => StateChange::Keep,
        }
    }

    /// The answer to the pressed button.
    pub fn answer(self) -> (r: Option<Ack>)
        ensures
            r == self.ack(),
    {
        match self {
            BidSelection::Begin(_) => None,
            BidSelection::Closed => Some(Ack::AuctionClosed),
            BidSelection::NotFound => Some(Ack::ItemNotFound),
            BidSelection::NotOwner => Some(Ack::DraftInProgress),
        }
    }

    /// The request for the amount, where a bid is begun.
    pub fn prompt(self) -> (r: Option<String>)
        ensures
            r.deep_view() == self.prompt_text(),
    {
        match self {
            BidSelection::Begin(draft) => {
                let mut out = String::from_str("Enter your bid for item #");
                push_int(&mut out, draft.item_id);
                out.append(" in 0.00 format:");
                Some(out)
            },
            _ => None,
        }
    }
}

/// What pressing "bid" on an item leads to, given the conversation of the
/// chat and the item as the store holds it. A bid takes the place of a
/// draft of the user's own, never of somebody else's.
pub open spec fn bid_selection(
    state: ConversationView,
    item: Option<ItemView>,
    item_id: i64,
    user_id: i64,
) -> BidSelection {
    if state.held_by_other(user_id) {
        BidSelection::NotOwner
    } else {
        match item {
            Some(found) => if found.is_open {
                BidSelection::Begin(BidDraft { item_id, bidder_tg_id: user_id })
            } else {
                BidSelection::Closed
            },
            None => BidSelection::NotFound,
        }
    }
}

/// Decides what pressing "bid" on an item leads to.
pub fn select_bid(state: &ConversationState, item: Option<&ItemRow>, item_id: i64, user_id: i64)
    -> (r: BidSelection)
    ensures
        r == bid_selection(state@, item.deep_view(), item_id, user_id),
{
    let held_by_other = match state.owner() {
        Some(owner) => owner != user_id,
        None => false,
    };
    if held_by_other {
        return BidSelection::NotOwner;
    }
    match item {
        Some(found) => if found.is_open {
            BidSelection::Begin(BidDraft { item_id, bidder_tg_id: user_id })
        } else {
            BidSelection::Closed
        },
        None => BidSelection::NotFound,
    }
}

/// The answer to a favourites button.
pub open spec fn favorite_ack(change: FavoriteChange) -> Option<Ack> {
    match change {
        FavoriteChange::Add => Some(Ack::AddedFavorite),
        FavoriteChange::Remove => Some(Ack::RemovedFavorite),
        FavoriteChange::Nothing => None,
    }
}

/// The answer to a favourites button.
pub fn favorite_answer(change: FavoriteChange) -> (r: Option<Ack>)
    ensures
        r == favorite_ack(change),
{
    match change {
        FavoriteChange::Add => Some(Ack::AddedFavorite),
        FavoriteChange::Remove => Some(Ack::RemovedFavorite),
        FavoriteChange::Nothing => None,
    }
}

/// Switches the mute setting: gives the new setting and the answer that
/// names it.
pub fn toggle_notifications(currently_disabled: bool) -> (r: (bool, Ack))
    ensures
        r.0 == !currently_disabled,
        r.1 == if r.0 {
            Ack::Muted
        } else {
            Ack::Enabled
        },
{
    let next = !currently_disabled;
    (
        next,
        if next {
            Ack::Muted
        } else {
            Ack::Enabled
        },
    )
}

} // verus!
