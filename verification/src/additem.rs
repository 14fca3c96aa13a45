//! Item creation: a draft that an admin fills in over four messages,
//! category, title, description and start price, and that becomes an item
//! when the price is given.

use crate::input::is_cancel;
use crate::input::is_cancel_word;
use crate::input::message_payload;
use crate::input::payload;
use crate::models::CategoryRow;
use crate::models::CategoryView;
use crate::money::money_of_text;
use crate::money::parse_trimmed_money;
use crate::money::MoneyError;
use crate::state::AddItemDraft;
use crate::state::AddItemDraftView;
use crate::state::ConversationState;
use crate::state::ConversationView;
use crate::state::DraftStage;
use crate::state::StateChange;
use crate::state::StateChangeView;
use crate::text::int_text;
use crate::text::nat_text;
use crate::text::push_int;
use crate::text::push_nat;
use crate::text::same_text;
use vstd::prelude::*;
use vstd::string::StringExecFns;

verus! {

/// What the store needs to create an item.
#[derive(Debug, Clone, PartialEq, Eq)]
pub struct NewItem {
    pub seller_tg_id: i64,
    pub category_id: i64,
    pub title: String,
    pub description: Option<String>,
    pub start_price: i64,
    pub image_file_ids: Vec<String>,
}

/// [`NewItem`] as contracts speak of it: every text is the sequence of its
/// characters.
pub struct NewItemView {
    pub seller_tg_id: i64,
    pub category_id: i64,
    pub title: Seq<char>,
    pub description: Option<Seq<char>>,
    pub start_price: i64,
    pub image_file_ids: Seq<Seq<char>>,
}

impl View for NewItem {
    type V = NewItemView;

    open spec fn view(&self) -> NewItemView {
        NewItemView {
            seller_tg_id: self.seller_tg_id,
            category_id: self.category_id,
            title: self.title@,
            description: self.description.deep_view(),
            start_price: self.start_price,
            image_file_ids: self.image_file_ids.deep_view(),
        }
    }
}

/// What a finished draft lacks.
#[derive(Debug, Clone, Copy, PartialEq, Eq, Structural)]
pub enum MissingField {
    Category,
    Title,
}

/// What a message does to an item draft.
#[derive(Debug, Clone, PartialEq, Eq)]
pub enum AddItemOutcome {
    /// The sender is not the admin who began the draft.
    NotOwner,
    /// The message had no text: the draft is kept, with the photo of the
    /// message where it is a new one.
    Stored { draft: AddItemDraft, added_photo: bool },
    /// The cancel word: the draft is dropped.
    Cancelled,
    /// The text names the category, which the store looks up or creates
    /// before the draft moves on.
    NeedCategory { draft: AddItemDraft, name: String },
    /// The title is taken; the description is next.
    TitleSet { draft: AddItemDraft },
    /// The description is taken or skipped; the start price is next.
    DescriptionSet { draft: AddItemDraft },
    /// The price is given: the store creates the item, and the conversation
    /// returns to idle once it has.
    Commit { item: NewItem },
    /// The price is given, but the draft lacks a field that its stage
    /// should hold.
    Incomplete { missing: MissingField },
    /// The text is no price; the draft stays as it was.
    InvalidPrice { error: MoneyError },
}

/// [`AddItemOutcome`] as contracts speak of it: every text is the sequence of its
/// characters.
pub enum AddItemOutcomeView {
    NotOwner,
    Stored { draft: AddItemDraftView, added_photo: bool },
    Cancelled,
    NeedCategory { draft: AddItemDraftView, name: Seq<char> },
    TitleSet { draft: AddItemDraftView },
    DescriptionSet { draft: AddItemDraftView },
    Commit { item: NewItemView },
    Incomplete { missing: MissingField },
    InvalidPrice { error: MoneyError },
}

impl View for AddItemOutcome {
    type V = AddItemOutcomeView;

    open spec fn view(&self) -> AddItemOutcomeView {
        match self {
            AddItemOutcome::NotOwner => AddItemOutcomeView::NotOwner,
            AddItemOutcome::Stored { draft, added_photo } => AddItemOutcomeView::Stored {
                draft: draft@,
                added_photo: *added_photo,
            },
            AddItemOutcome::Cancelled => AddItemOutcomeView::Cancelled,
            AddItemOutcome::NeedCategory { draft, name } => AddItemOutcomeView::NeedCategory {
                draft: draft@,
                name: name@,
            },
            AddItemOutcome::TitleSet { draft } => AddItemOutcomeView::TitleSet { draft: draft@ },
            AddItemOutcome::DescriptionSet { draft } => AddItemOutcomeView::DescriptionSet {
                draft: draft@,
            },
            AddItemOutcome::Commit { item } => AddItemOutcomeView::Commit { item: item@ },
            AddItemOutcome::Incomplete { missing } => AddItemOutcomeView::Incomplete {
                missing: *missing,
            },
            AddItemOutcome::InvalidPrice { error } => AddItemOutcomeView::InvalidPrice {
                error: *error,
            },
        }
    }
}

/// Whether the photo of a message is one that the draft does not hold yet.
pub open spec fn photo_is_new(draft: AddItemDraftView, photo: Option<Seq<char>>) -> bool {
    photo is Some && !draft.image_file_ids.contains(photo->0)
}

/// The draft with the photo of a message added at the end, unless it holds
/// that photo already.
pub open spec fn with_photo(draft: AddItemDraftView, photo: Option<Seq<char>>)
    -> AddItemDraftView {
    if photo_is_new(draft, photo) {
        AddItemDraftView { image_file_ids: draft.image_file_ids.push(photo->0), ..draft }
    } else {
        draft
    }
}

/// The description that a text gives: a lone hyphen skips it.
pub open spec fn description_of(p: Seq<char>) -> Option<Seq<char>> {
    if p == "-"@ {
        None
    } else {
        Some(p)
    }
}

/// The item that a draft and a price make, or the field that the draft
/// lacks.
pub open spec fn finished_item(draft: AddItemDraftView, price: i64) -> AddItemOutcomeView {
    match draft.category_id {
        None => AddItemOutcomeView::Incomplete { missing: MissingField::Category },
        Some(category_id) => match draft.title {
            None => AddItemOutcomeView::Incomplete { missing: MissingField::Title },
            Some(title) => AddItemOutcomeView::Commit {
                item: NewItemView {
                    seller_tg_id: draft.seller_tg_id,
                    category_id,
                    title,
                    description: draft.description,
                    start_price: price,
                    image_file_ids: draft.image_file_ids,
                },
            },
        },
    }
}

/// What a message with the payload `p` does to a draft of its sender.
pub open spec fn additem_text_outcome(draft: AddItemDraftView, p: Seq<char>)
    -> AddItemOutcomeView {
    if is_cancel(p) {
        AddItemOutcomeView::Cancelled
    } else {
        match draft.stage {
            DraftStage::Category => AddItemOutcomeView::NeedCategory { draft, name: p },
            DraftStage::Title => AddItemOutcomeView::TitleSet {
                draft: AddItemDraftView {
                    title: Some(p),
                    stage: DraftStage::Description,
                    ..draft
                },
            },
            DraftStage::Description => AddItemOutcomeView::DescriptionSet {
                draft: AddItemDraftView {
                    description: description_of(p),
                    stage: DraftStage::StartPrice,
                    ..draft
                },
            },
            DraftStage::StartPrice => match money_of_text(p) {
                Ok(price) => finished_item(draft, price),
                Err(error) => AddItemOutcomeView::InvalidPrice { error },
            },
        }
    }
}

/// What a message does to an item draft. A photo is added whatever the
/// stage and never moves the draft on; text moves it on by one stage.
pub open spec fn additem_outcome(
    draft: AddItemDraftView,
    sender: i64,
    text: Option<Seq<char>>,
    photo: Option<Seq<char>>,
) -> AddItemOutcomeView {
    if sender != draft.seller_tg_id {
        AddItemOutcomeView::NotOwner
    } else {
        match payload(text) {
            None => AddItemOutcomeView::Stored {
                draft: with_photo(draft, photo),
                added_photo: photo_is_new(draft, photo),
            },
            Some(p) => additem_text_outcome(with_photo(draft, photo), p),
        }
    }
}

/// Whether `images` holds `id`.
pub fn holds_image(images: &Vec<String>, id: &str) -> (r: bool)
    ensures
        r == images.deep_view().contains(id@),
{
    let mut i: usize = 0;
    while i < images.len()
        invariant
            i <= images@.len(),
            forall|j: int| 0 <= j < i ==> images.deep_view()[j] != id@,
        decreases images@.len() - i,
    {
        if same_text(images[i].as_str(), id) {
            assert(images.deep_view()[i as int] == id@);
            return true;
        }
        i = i + 1;
    }
    false
}

/// Adds the photo of a message to the draft, unless the draft holds it.
pub fn add_photo(draft: AddItemDraft, photo: Option<&str>) -> (r: (AddItemDraft, bool))
    ensures
        r.0@ == with_photo(draft@, photo.deep_view()),
        r.1 == photo_is_new(draft@, photo.deep_view()),
{
    match photo {
        Some(id) => {
            if holds_image(&draft.image_file_ids, id) {
                (draft, false)
            } else {
                let mut draft = draft;
                let ghost before = draft.image_file_ids.deep_view();
                draft.image_file_ids.push(id.to_owned());
                assert(draft.image_file_ids.deep_view() =~= before.push(id@));
                (draft, true)
            }
        },
        None => (draft, false),
    }
}

/// Takes one message for an item draft.
pub fn handle_additem_message(
    draft: AddItemDraft,
    sender: i64,
    text: Option<&str>,
    photo: Option<&str>,
) -> (r: AddItemOutcome)
    ensures
        r@ == additem_outcome(draft@, sender, text.deep_view(), photo.deep_view()),
{
    if sender != draft.seller_tg_id {
        return AddItemOutcome::NotOwner;
    }
    let (mut draft, added_photo) = add_photo(draft, photo);
    let p = match message_payload(text) {
        None => {
            return AddItemOutcome::Stored { draft, added_photo };
        },
        Some(p) => p,
    };
    if is_cancel_word(p) {
        return AddItemOutcome::Cancelled;
    }
    match draft.stage {
        DraftStage::Category => AddItemOutcome::NeedCategory { draft, name: p.to_owned() },
        DraftStage::Title => {
            draft.title = Some(p.to_owned());
            draft.stage = DraftStage::Description;
            AddItemOutcome::TitleSet { draft }
        },
        DraftStage::Description => {
            draft.description = if same_text(p, "-") {
                None
            } else {
                Some(p.to_owned())
            };
            draft.stage = DraftStage::StartPrice;
            AddItemOutcome::DescriptionSet { draft }
        },
        DraftStage::StartPrice => match parse_trimmed_money(p) {
            Ok(price) => {
                let category_id = match draft.category_id {
                    None => {
                        return AddItemOutcome::Incomplete { missing: MissingField::Category };
                    },
                    Some(id) => id,
                };
                let title = match draft.title {
                    None => {
                        return AddItemOutcome::Incomplete { missing: MissingField::Title };
                    },
                    Some(title) => title,
                };
                AddItemOutcome::Commit {
                    item: NewItem {
                        seller_tg_id: draft.seller_tg_id,
                        category_id,
                        title,
                        description: draft.description,
                        start_price: price,
                        image_file_ids: draft.image_file_ids,
                    },
                }
            },
            Err(error) => AddItemOutcome::InvalidPrice { error },
        },
    }
}

/// The draft once its category is known: it waits for the title.
pub open spec fn with_category(draft: AddItemDraftView, category: CategoryView)
    -> AddItemDraftView {
    AddItemDraftView {
        category_id: Some(category.id),
        category_name: Some(category.name),
        stage: DraftStage::Title,
        ..draft
    }
}

/// Records the category of a draft and moves it to the title stage.
pub fn category_chosen(draft: AddItemDraft, category: CategoryRow) -> (r: AddItemDraft)
    ensures
        r@ == with_category(draft@, category@),
{
    let mut draft = draft;
    draft.category_id = Some(category.id);
    draft.category_name = Some(category.name);
    draft.stage = DraftStage::Title;
    draft
}

impl AddItemOutcomeView {
    /// What the outcome does to the conversation. A draft that waits for
    /// the store (its category, or the creation of the item) stays as it is
    /// until the store has answered.
    pub open spec fn state_change(self) -> StateChangeView {
        match self {
            AddItemOutcomeView::NotOwner => StateChangeView::Keep,
            AddItemOutcomeView::Stored { draft, .. } => StateChangeView::Become(
                ConversationView::AddItem(draft),
            ),
            AddItemOutcomeView::Cancelled => StateChangeView::Reset,
            AddItemOutcomeView::NeedCategory { .. } => StateChangeView::Keep,
            AddItemOutcomeView::TitleSet { draft } => StateChangeView::Become(
                ConversationView::AddItem(draft),
            ),
            AddItemOutcomeView::DescriptionSet { draft } => StateChangeView::Become(
                ConversationView::AddItem(draft),
            ),
            AddItemOutcomeView::Commit { .. } => StateChangeView::Keep,
            AddItemOutcomeView::Incomplete { .. } => StateChangeView::Keep,
            AddItemOutcomeView::InvalidPrice { .. } => StateChangeView::Keep,
        }
    }

    /// What the sender is told at once, if anything.
    pub open spec fn reply_text(self) -> Option<Seq<char>> {
        match self {
            AddItemOutcomeView::NotOwner => Some(
                "Only the admin who started this item creation can respond."@,
            ),
            AddItemOutcomeView::Stored { draft, added_photo } => if added_photo {
                Some(
                    "🖼️ Added photo. Total uploaded: "@ + nat_text(draft.image_file_ids.len())
                        + "."@,
                )
            } else {
                None
            },
            AddItemOutcomeView::Cancelled => Some("❌ Item creation cancelled."@),
            AddItemOutcomeView::NeedCategory { .. } => None,
            AddItemOutcomeView::TitleSet { .. } => Some("🧾 Enter description (or '-' to skip):"@),
            AddItemOutcomeView::DescriptionSet { .. } => Some(
                "💰 Enter start price (e.g., 50.00):"@,
            ),
            AddItemOutcomeView::Commit { .. } => None,
            AddItemOutcomeView::Incomplete { .. } => None,
            AddItemOutcomeView::InvalidPrice { error } => Some(
                "⚠️ Invalid price: "@ + error.message_text(),
            ),
        }
    }
}

impl AddItemOutcome {
    /// What the sender is told at once, if anything.
    pub fn reply(&self) -> (r: Option<String>)
        ensures
            r.deep_view() == self@.reply_text(),
    {
        match self {
            AddItemOutcome::NotOwner => Some(
                String::from_str("Only the admin who started this item creation can respond."),
            ),
            AddItemOutcome::Stored { draft, added_photo } => if *added_photo {
                let mut out = String::from_str("🖼️ Added photo. Total uploaded: ");
                push_nat(&mut out, draft.image_file_ids.len() as u64);
                out.append(".");
                Some(out)
            } else {
                None
            },
            AddItemOutcome::Cancelled => Some(String::from_str("❌ Item creation cancelled.")),
            AddItemOutcome::NeedCategory { .. } => None,
            AddItemOutcome::TitleSet { .. } => Some(
                String::from_str("🧾 Enter description (or '-' to skip):"),
            ),
            AddItemOutcome::DescriptionSet { .. } => Some(
                String::from_str("💰 Enter start price (e.g., 50.00):"),
            ),
            AddItemOutcome::Commit { .. } => None,
            AddItemOutcome::Incomplete { .. } => None,
            AddItemOutcome::InvalidPrice { error } => {
                let mut out = String::from_str("⚠️ Invalid price: ");
                let message = error.message();
                out.append(message.as_str());
                Some(out)
            },
        }
    }

    /// What the outcome does to the conversation.
    pub fn into_state_change(self) -> (r: StateChange)
        ensures
            r@ == self@.state_change(),
    {
        match self {
            AddItemOutcome::Stored { draft, .. } => StateChange::Become(
                ConversationState::AddItem(draft),
            ),
            AddItemOutcome::TitleSet { draft } => StateChange::Become(
                ConversationState::AddItem(draft),
            ),
            AddItemOutcome::DescriptionSet { draft } => StateChange::Become(
                ConversationState::AddItem(draft),
            ),
            AddItemOutcome::Cancelled => StateChange::Reset,
            _ => StateChange::Keep,
        }
    }
}

/// The prompt for the title, sent once the category of a draft is known.
pub open spec fn title_prompt_text() -> Seq<char> {
    "📝 Enter item title:"@
}

/// The draft that waits for its title, and the prompt for it.
pub fn category_resolved(draft: AddItemDraft, category: CategoryRow) -> (r: (StateChange, String))
    ensures
        r.0@ == StateChangeView::Become(
            ConversationView::AddItem(with_category(draft@, category@)),
        ),
        r.1@ == title_prompt_text(),
{
    let draft = category_chosen(draft, category);
    (
        StateChange::Become(ConversationState::AddItem(draft)),
        String::from_str("📝 Enter item title:"),
    )
}

/// The confirmation that an item exists.
pub open spec fn item_created_text(item_id: i64) -> Seq<char> {
    "Item created: #"@ + int_text(item_id as int)
}

/// What follows the creation of the item: the conversation returns to
/// idle, and the admin is told the number of the item.
pub fn item_created(item_id: i64) -> (r: (StateChange, String))
    ensures
        r.0@ == StateChangeView::Reset,
        r.1@ == item_created_text(item_id),
{
    let mut out = String::from_str("Item created: #");
    push_int(&mut out, item_id);
    (StateChange::Reset, out)
}

} // verus!
