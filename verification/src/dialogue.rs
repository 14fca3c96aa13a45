//! One message, one step: a message is handed to the draft that the chat
//! is in, and the step says what becomes of the conversation.

use crate::additem::additem_outcome;
use crate::additem::handle_additem_message;
use crate::additem::photo_is_new;
use crate::additem::with_category;
use crate::additem::with_photo;
use crate::additem::AddItemOutcome;
use crate::additem::AddItemOutcomeView;
use crate::admin::admin_step;
use crate::admin::handle_admin_message;
use crate::admin::AdminDraft;
use crate::admin::AdminStep;
use crate::admin::AdminStepView;
use crate::bidding::bid_input;
use crate::bidding::handle_bid_message;
use crate::bidding::BidInput;
use crate::bidding::BidInputView;
use crate::input::is_cancel;
use crate::input::payload;
use crate::models::CategoryView;
use crate::state::AddItemDraftView;
use crate::state::ConversationState;
use crate::state::ConversationView;
use crate::state::DraftStage;
use crate::state::StateChangeView;
use crate::text::str_chars;
use vstd::prelude::*;

verus! {

/// What is said to a message that arrives while the chat is idle: nothing
/// to a message without text or to a text that begins like a command, and
/// a hint to everything else.
pub open spec fn idle_reply_text(text: Option<Seq<char>>) -> Option<Seq<char>> {
    match text {
        Some(t) => if t.len() > 0 && t[0] == '/' {
            None
        } else {
            Some("I did not understand that. Use the menu buttons or /help."@)
        },
        None => None,
    }
}

/// Answers a message that arrives while the chat is idle.
pub fn handle_idle_text(text: Option<&str>) -> (r: Option<&'static str>)
    ensures
        r.deep_view() == idle_reply_text(text.deep_view()),
{
    match text {
        Some(t) => {
            let v = str_chars(t);
            if v.len() > 0 && v[0] == '/' {
                None
            } else {
                Some("I did not understand that. Use the menu buttons or /help.")
            }
        },
        None => None,
    }
}

/// What a message does, by the draft that took it.
#[derive(Debug, Clone, PartialEq, Eq)]
pub enum MessageOutcome {
    /// The chat is idle; the reply, if any, is given.
    Idle { reply: Option<&'static str> },
    /// The chat is in an item draft.
    AddItem(AddItemOutcome),
    /// The chat is in a bid.
    PlaceBid(BidInput),
    /// The chat is in a single-message admin draft.
    Admin { kind: AdminDraft, step: AdminStep },
}

/// [`MessageOutcome`] as contracts speak of it: every text is the sequence of its
/// characters.
pub enum MessageOutcomeView {
    Idle { reply: Option<Seq<char>> },
    AddItem(AddItemOutcomeView),
    PlaceBid(BidInputView),
    Admin { kind: AdminDraft, step: AdminStepView },
}

impl View for MessageOutcome {
    type V = MessageOutcomeView;

    open spec fn view(&self) -> MessageOutcomeView {
        match self {
            MessageOutcome::Idle { reply } => MessageOutcomeView::Idle {
                reply: reply.deep_view(),
            },
            MessageOutcome::AddItem(outcome) => MessageOutcomeView::AddItem(outcome@),
            MessageOutcome::PlaceBid(input) => MessageOutcomeView::PlaceBid(input@),
            MessageOutcome::Admin { kind, step } => MessageOutcomeView::Admin {
                kind: *kind,
                step: step@,
            },
        }
    }
}

impl MessageOutcomeView {
    /// What the step does to the conversation before any request to the
    /// store is carried out.
    pub open spec fn state_change(self) -> StateChangeView {
        match self {
            MessageOutcomeView::Idle { .. } => StateChangeView::Keep,
            MessageOutcomeView::AddItem(outcome) => outcome.state_change(),
            MessageOutcomeView::PlaceBid(_) => StateChangeView::Keep,
            MessageOutcomeView::Admin { step, .. } => step.state_change(),
        }
    }

    /// Whether the step creates an item.
    pub open spec fn creates_item(self) -> bool {
        self matches MessageOutcomeView::AddItem(AddItemOutcomeView::Commit { .. })
    }
}

/// What a message does in a conversation: it goes to the draft that the
/// chat is in.
pub open spec fn message_outcome(
    state: ConversationView,
    sender: i64,
    text: Option<Seq<char>>,
    photo: Option<Seq<char>>,
) -> MessageOutcomeView {
    match state {
        ConversationView::Idle => MessageOutcomeView::Idle { reply: idle_reply_text(text) },
        ConversationView::AddItem(draft) => MessageOutcomeView::AddItem(
            additem_outcome(draft, sender, text, photo),
        ),
        ConversationView::PlaceBid(draft) => MessageOutcomeView::PlaceBid(
            bid_input(draft, sender, text),
        ),
        ConversationView::AddCategory { admin_tg_id } => MessageOutcomeView::Admin {
            kind: AdminDraft::AddCategory,
            step: admin_step(AdminDraft::AddCategory, admin_tg_id, sender, text),
        },
        ConversationView::CloseItem { admin_tg_id } => MessageOutcomeView::Admin {
            kind: AdminDraft::CloseItem,
            step: admin_step(AdminDraft::CloseItem, admin_tg_id, sender, text),
        },
        ConversationView::RemoveItem { admin_tg_id } => MessageOutcomeView::Admin {
            kind: AdminDraft::RemoveItem,
            step: admin_step(AdminDraft::RemoveItem, admin_tg_id, sender, text),
        },
        ConversationView::RemoveCategory { admin_tg_id } => MessageOutcomeView::Admin {
            kind: AdminDraft::RemoveCategory,
            step: admin_step(AdminDraft::RemoveCategory, admin_tg_id, sender, text),
        },
        ConversationView::Broadcast { admin_tg_id } => MessageOutcomeView::Admin {
            kind: AdminDraft::Broadcast,
            step: admin_step(AdminDraft::Broadcast, admin_tg_id, sender, text),
        },
    }
}

/// Takes one message in the conversation of its chat. `text` is the text
/// or caption of the message and `photo` the photo that came with it.
pub fn handle_message(
    state: ConversationState,
    sender: i64,
    text: Option<&str>,
    photo: Option<&str>,
) -> (r: MessageOutcome)
    ensures
        r@ == message_outcome(state@, sender, text.deep_view(), photo.deep_view()),
{
    match state {
        ConversationState::Idle => MessageOutcome::Idle { reply: handle_idle_text(text) },
        ConversationState::AddItem(draft) => MessageOutcome::AddItem(
            handle_additem_message(draft, sender, text, photo),
        ),
        ConversationState::PlaceBid(draft) => MessageOutcome::PlaceBid(
            handle_bid_message(&draft, sender, text),
        ),
        ConversationState::AddCategory { admin_tg_id } => MessageOutcome::Admin {
            kind: AdminDraft::AddCategory,
            step: handle_admin_message(AdminDraft::AddCategory, admin_tg_id, sender, text),
        },
        ConversationState::CloseItem { admin_tg_id } => MessageOutcome::Admin {
            kind: AdminDraft::CloseItem,
            step: handle_admin_message(AdminDraft::CloseItem, admin_tg_id, sender, text),
        },
        ConversationState::RemoveItem { admin_tg_id } => MessageOutcome::Admin {
            kind: AdminDraft::RemoveItem,
            step: handle_admin_message(AdminDraft::RemoveItem, admin_tg_id, sender, text),
        },
        ConversationState::RemoveCategory { admin_tg_id } => MessageOutcome::Admin {
            kind: AdminDraft::RemoveCategory,
            step: handle_admin_message(AdminDraft::RemoveCategory, admin_tg_id, sender, text),
        },
        ConversationState::Broadcast { admin_tg_id } => MessageOutcome::Admin {
            kind: AdminDraft::Broadcast,
            step: handle_admin_message(AdminDraft::Broadcast, admin_tg_id, sender, text),
        },
    }
}

/// A message from anybody but the owner of a draft leaves the conversation
/// exactly as it was, and asks nothing of the store.
pub proof fn law_non_owner_input_changes_nothing(
    state: ConversationView,
    sender: i64,
    text: Option<Seq<char>>,
    photo: Option<Seq<char>>,
)
    requires
        state.owner() is Some,
        state.owner() != Some(sender),
    ensures
        message_outcome(state, sender, text, photo).state_change() == StateChangeView::Keep,
        message_outcome(state, sender, text, photo).state_change().applied_to(state) == state,
        !message_outcome(state, sender, text, photo).creates_item(),
        message_outcome(state, sender, text, photo) matches MessageOutcomeView::Admin { step, .. }
            ==> step == AdminStepView::NotOwner,
        message_outcome(state, sender, text, photo) matches MessageOutcomeView::PlaceBid(input)
            ==> input == BidInputView::NotOwner,
        message_outcome(state, sender, text, photo) matches MessageOutcomeView::AddItem(outcome)
            ==> outcome == AddItemOutcomeView::NotOwner,
{
}

/// An item draft begins at the category stage, and the cancel word from
/// its owner, at whatever stage and with or without a photo, returns the
/// conversation to idle without creating an item.
pub proof fn law_cancel_drops_item_draft(
    draft: AddItemDraftView,
    text: Option<Seq<char>>,
    photo: Option<Seq<char>>,
)
    requires
        payload(text) is Some,
        is_cancel(payload(text)->0),
    ensures
        crate::callbacks::fresh_draft(draft.seller_tg_id).stage == DraftStage::Category,
        additem_outcome(draft, draft.seller_tg_id, text, photo) == AddItemOutcomeView::Cancelled,
        message_outcome(ConversationView::AddItem(draft), draft.seller_tg_id, text, photo)
            .state_change().applied_to(ConversationView::AddItem(draft))
            == ConversationView::Idle,
        !message_outcome(ConversationView::AddItem(draft), draft.seller_tg_id, text, photo)
            .creates_item(),
{
}

/// The cancel word from its owner ends every single-message admin draft.
pub proof fn law_cancel_drops_admin_draft(
    kind: AdminDraft,
    admin_tg_id: i64,
    text: Option<Seq<char>>,
)
    requires
        payload(text) is Some,
        is_cancel(payload(text)->0),
    ensures
        admin_step(kind, admin_tg_id, admin_tg_id, text) == AdminStepView::Cancelled,
        admin_step(kind, admin_tg_id, admin_tg_id, text).state_change().applied_to(
            kind.conversation(admin_tg_id),
        ) == ConversationView::Idle,
{
}

/// The draft that an outcome carries on, if it carries one.
pub open spec fn carried_draft(outcome: AddItemOutcomeView) -> Option<AddItemDraftView> {
    match outcome {
        AddItemOutcomeView::Stored { draft, .. } => Some(draft),
        AddItemOutcomeView::NeedCategory { draft, .. } => Some(draft),
        AddItemOutcomeView::TitleSet { draft } => Some(draft),
        AddItemOutcomeView::DescriptionSet { draft } => Some(draft),
        _ => None,
    }
}

/// A well-formed item draft stays well-formed through every message and
/// through the choice of its category, holds no image twice, and is never
/// found incomplete when its price arrives.
pub proof fn law_item_draft_stays_well_formed(
    draft: AddItemDraftView,
    sender: i64,
    text: Option<Seq<char>>,
    photo: Option<Seq<char>>,
    category: CategoryView,
)
    requires
        draft.well_formed(),
    ensures
        carried_draft(additem_outcome(draft, sender, text, photo)) matches Some(next)
            ==> next.well_formed(),
        !(additem_outcome(draft, sender, text, photo) is Incomplete),
        with_category(draft, category).well_formed(),
        additem_outcome(draft, sender, text, photo) matches AddItemOutcomeView::Commit { item }
            ==> item.image_file_ids == with_photo(draft, photo).image_file_ids
            && draft.stage == DraftStage::StartPrice,
{
    let pictured = with_photo(draft, photo);
    assert(pictured.images_distinct()) by {
        if photo_is_new(draft, photo) {
            let id = photo->0;
            assert forall|i: int, j: int| 0 <= i < j < pictured.image_file_ids.len() implies
                pictured.image_file_ids[i] != pictured.image_file_ids[j] by {
                if j < draft.image_file_ids.len() {
                    assert(pictured.image_file_ids[i] == draft.image_file_ids[i]);
                    assert(pictured.image_file_ids[j] == draft.image_file_ids[j]);
                } else {
                    assert(pictured.image_file_ids[i] == draft.image_file_ids[i]);
                    assert(draft.image_file_ids.contains(draft.image_file_ids[i]));
                }
            }
        }
    }
    assert(pictured.well_formed());
}

} // verus!
