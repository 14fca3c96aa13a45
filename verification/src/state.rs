//! What a chat is in the middle of: at most one draft per chat.

use vstd::prelude::*;

verus! {

/// The step of item creation that waits for input.
#[derive(Debug, Clone, Copy, PartialEq, Eq, Structural)]
pub enum DraftStage {
    Category,
    Title,
    Description,
    StartPrice,
}

/// A bid that waits for its amount.
#[derive(Debug, Clone, Copy, PartialEq, Eq, Structural)]
pub struct BidDraft {
    pub item_id: i64,
    pub bidder_tg_id: i64,
}

/// An item in the making. Only the admin who began it may fill it in.
#[derive(Debug, Clone, PartialEq, Eq)]
pub struct AddItemDraft {
    pub stage: DraftStage,
    pub seller_tg_id: i64,
    /// The image the draft was begun with, if any.
    pub image_file_id: Option<String>,
    /// The images gathered so far, in the order they came, each once.
    pub image_file_ids: Vec<String>,
    pub category_id: Option<i64>,
    pub category_name: Option<String>,
    pub title: Option<String>,
    pub description: Option<String>,
    pub start_price: Option<i64>,
}

/// [`AddItemDraft`] as contracts speak of it: every text is the sequence of its
/// characters.
pub struct AddItemDraftView {
    pub stage: DraftStage,
    pub seller_tg_id: i64,
    pub image_file_id: Option<Seq<char>>,
    pub image_file_ids: Seq<Seq<char>>,
    pub category_id: Option<i64>,
    pub category_name: Option<Seq<char>>,
    pub title: Option<Seq<char>>,
    pub description: Option<Seq<char>>,
    pub start_price: Option<i64>,
}

impl AddItemDraftView {
    /// No image is held twice.
    pub open spec fn images_distinct(self) -> bool {
        forall|i: int, j: int|
            0 <= i < j < self.image_file_ids.len() ==> self.image_file_ids[i]
                != self.image_file_ids[j]
    }

    /// What a draft holds at each stage: the category once the category
    /// stage is passed, the title once the title stage is passed, and no
    /// image twice.
    pub open spec fn well_formed(self) -> bool {
        &&& self.images_distinct()
        &&& self.stage != DraftStage::Category ==> self.category_id is Some
        &&& (self.stage == DraftStage::Description || self.stage == DraftStage::StartPrice)
            ==> self.title is Some
    }
}

impl View for AddItemDraft {
    type V = AddItemDraftView;

    open spec fn view(&self) -> AddItemDraftView {
        AddItemDraftView {
            stage: self.stage,
            seller_tg_id: self.seller_tg_id,
            image_file_id: self.image_file_id.deep_view(),
            image_file_ids: self.image_file_ids.deep_view(),
            category_id: self.category_id,
            category_name: self.category_name.deep_view(),
            title: self.title.deep_view(),
            description: self.description.deep_view(),
            start_price: self.start_price,
        }
    }
}

/// The images a new draft holds: the one it was begun with, if any.
pub open spec fn initial_images(image: Option<Seq<char>>) -> Seq<Seq<char>> {
    match image {
        Some(id) => seq![id],
        None => Seq::empty(),
    }
}

impl AddItemDraft {
    /// A draft at its first stage, with nothing filled in.
    pub fn new(seller_tg_id: i64, image_file_id: Option<String>) -> (draft: AddItemDraft)
        ensures
            draft@ == (AddItemDraftView {
                stage: DraftStage::Category,
                seller_tg_id,
                image_file_id: image_file_id.deep_view(),
                image_file_ids: initial_images(image_file_id.deep_view()),
                category_id: None,
                category_name: None,
                title: None,
                description: None,
                start_price: None,
            }),
            draft@.well_formed(),
    {
        let mut images: Vec<String> = Vec::new();
        match &image_file_id {
            Some(id) => {
                images.push(id.clone());
            },
            None => {},
        }
        let draft = AddItemDraft {
            stage: DraftStage::Category,
            seller_tg_id,
            image_file_id,
            image_file_ids: images,
            category_id: None,
            category_name: None,
            title: None,
            description: None,
            start_price: None,
        };
        assert(draft@.image_file_ids =~= initial_images(draft@.image_file_id));
        draft
    }
}

/// A copy of a text that may be missing.
pub fn copy_optional_text(text: &Option<String>) -> (r: Option<String>)
    ensures
        r.deep_view() == text.deep_view(),
{
    match text {
        Some(t) => Some(t.clone()),
        None => None,
    }
}

/// A copy of a list of texts.
pub fn copy_texts(texts: &Vec<String>) -> (r: Vec<String>)
    ensures
        r.deep_view() == texts.deep_view(),
{
    let mut out: Vec<String> = Vec::new();
    let mut i: usize = 0;
    while i < texts.len()
        invariant
            i <= texts@.len(),
            out@.len() == i,
            forall|j: int| 0 <= j < i ==> out@[j]@ == texts@[j]@,
        decreases texts@.len() - i,
    {
        out.push(texts[i].clone());
        i = i + 1;
    }
    assert(out.deep_view() =~= texts.deep_view());
    out
}

impl AddItemDraft {
    /// A copy of the draft.
    pub fn duplicate(&self) -> (r: AddItemDraft)
        ensures
            r@ == self@,
    {
        AddItemDraft {
            stage: self.stage,
            seller_tg_id: self.seller_tg_id,
            image_file_id: copy_optional_text(&self.image_file_id),
            image_file_ids: copy_texts(&self.image_file_ids),
            category_id: self.category_id,
            category_name: copy_optional_text(&self.category_name),
            title: copy_optional_text(&self.title),
            description: copy_optional_text(&self.description),
            start_price: self.start_price,
        }
    }
}

/// The workflow a chat is in.
#[derive(Debug, Clone, PartialEq, Eq)]
pub enum ConversationState {
    Idle,
    AddItem(AddItemDraft),
    PlaceBid(BidDraft),
    AddCategory { admin_tg_id: i64 },
    CloseItem { admin_tg_id: i64 },
    RemoveItem { admin_tg_id: i64 },
    RemoveCategory { admin_tg_id: i64 },
    Broadcast { admin_tg_id: i64 },
}

/// [`ConversationState`] as contracts speak of it: every text is the sequence of its
/// characters.
pub enum ConversationView {
    Idle,
    AddItem(AddItemDraftView),
    PlaceBid(BidDraft),
    AddCategory { admin_tg_id: i64 },
    CloseItem { admin_tg_id: i64 },
    RemoveItem { admin_tg_id: i64 },
    RemoveCategory { admin_tg_id: i64 },
    Broadcast { admin_tg_id: i64 },
}

impl ConversationView {
    /// Whether the conversation holds a draft of somebody other than
    /// `user_id`.
    pub open spec fn held_by_other(self, user_id: i64) -> bool {
        self.owner() is Some && self.owner() != Some(user_id)
    }

    /// The identity a draft is bound to; `None` while idle.
    pub open spec fn owner(self) -> Option<i64> {
        match self {
            ConversationView::Idle => None,
            ConversationView::AddItem(draft) => Some(draft.seller_tg_id),
            ConversationView::PlaceBid(draft) => Some(draft.bidder_tg_id),
            ConversationView::AddCategory { admin_tg_id } => Some(admin_tg_id),
            ConversationView::CloseItem { admin_tg_id } => Some(admin_tg_id),
            ConversationView::RemoveItem { admin_tg_id } => Some(admin_tg_id),
            ConversationView::RemoveCategory { admin_tg_id } => Some(admin_tg_id),
            ConversationView::Broadcast { admin_tg_id } => Some(admin_tg_id),
        }
    }
}

impl View for ConversationState {
    type V = ConversationView;

    open spec fn view(&self) -> ConversationView {
        match self {
            ConversationState::Idle => ConversationView::Idle,
            ConversationState::AddItem(draft) => ConversationView::AddItem(draft@),
            ConversationState::PlaceBid(draft) => ConversationView::PlaceBid(*draft),
            ConversationState::AddCategory { admin_tg_id } => ConversationView::AddCategory {
                admin_tg_id: *admin_tg_id,
            },
            ConversationState::CloseItem { admin_tg_id } => ConversationView::CloseItem {
                admin_tg_id: *admin_tg_id,
            },
            ConversationState::RemoveItem { admin_tg_id } => ConversationView::RemoveItem {
                admin_tg_id: *admin_tg_id,
            },
            ConversationState::RemoveCategory { admin_tg_id } => ConversationView::RemoveCategory {
                admin_tg_id: *admin_tg_id,
            },
            ConversationState::Broadcast { admin_tg_id } => ConversationView::Broadcast {
                admin_tg_id: *admin_tg_id,
            },
        }
    }
}

impl ConversationState {
    /// The identity that the draft of the conversation is bound to; `None`
    /// while idle.
    pub fn owner(&self) -> (r: Option<i64>)
        ensures
            r == self@.owner(),
    {
        match self {
            ConversationState::Idle => None,
            ConversationState::AddItem(draft) => Some(draft.seller_tg_id),
            ConversationState::PlaceBid(draft) => Some(draft.bidder_tg_id),
            ConversationState::AddCategory { admin_tg_id } => Some(*admin_tg_id),
            ConversationState::CloseItem { admin_tg_id } => Some(*admin_tg_id),
            ConversationState::RemoveItem { admin_tg_id } => Some(*admin_tg_id),
            ConversationState::RemoveCategory { admin_tg_id } => Some(*admin_tg_id),
            ConversationState::Broadcast { admin_tg_id } => Some(*admin_tg_id),
        }
    }

    /// A copy of the conversation.
    pub fn duplicate(&self) -> (r: ConversationState)
        ensures
            r@ == self@,
    {
        match self {
            ConversationState::Idle => ConversationState::Idle,
            ConversationState::AddItem(draft) => ConversationState::AddItem(draft.duplicate()),
            ConversationState::PlaceBid(draft) => ConversationState::PlaceBid(*draft),
            ConversationState::AddCategory { admin_tg_id } => ConversationState::AddCategory {
                admin_tg_id: *admin_tg_id,
            },
            ConversationState::CloseItem { admin_tg_id } => ConversationState::CloseItem {
                admin_tg_id: *admin_tg_id,
            },
            ConversationState::RemoveItem { admin_tg_id } => ConversationState::RemoveItem {
                admin_tg_id: *admin_tg_id,
            },
            ConversationState::RemoveCategory { admin_tg_id } => ConversationState::RemoveCategory {
                admin_tg_id: *admin_tg_id,
            },
            ConversationState::Broadcast { admin_tg_id } => ConversationState::Broadcast {
                admin_tg_id: *admin_tg_id,
            },
        }
    }
}

impl Default for ConversationState {
    fn default() -> (state: ConversationState)
        ensures
            state@ == ConversationView::Idle,
    {
        ConversationState::Idle
    }
}

/// What a step does to the conversation of its chat.
#[derive(Debug, Clone, PartialEq, Eq)]
pub enum StateChange {
    /// The conversation stays as it is.
    Keep,
    /// The conversation returns to idle and its draft is dropped.
    Reset,
    /// The conversation becomes the given one.
    Become(ConversationState),
}

/// [`StateChange`] as contracts speak of it: every text is the sequence of its
/// characters.
pub enum StateChangeView {
    Keep,
    Reset,
    Become(ConversationView),
}

impl View for StateChange {
    type V = StateChangeView;

    open spec fn view(&self) -> StateChangeView {
        match self {
            StateChange::Keep => StateChangeView::Keep,
            StateChange::Reset => StateChangeView::Reset,
            StateChange::Become(state) => StateChangeView::Become(state@),
        }
    }
}

impl StateChangeView {
    /// The conversation after the change.
    pub open spec fn applied_to(self, current: ConversationView) -> ConversationView {
        match self {
            StateChangeView::Keep => current,
            StateChangeView::Reset => ConversationView::Idle,
            StateChangeView::Become(state) => state,
        }
    }
}

impl StateChange {
    /// The conversation after the change.
    pub fn apply(self, current: ConversationState) -> (next: ConversationState)
        ensures
            next@ == self@.applied_to(current@),
    {
        match self {
            StateChange::Keep => current,
            StateChange::Reset => ConversationState::Idle,
            StateChange::Become(state) => state,
        }
    }
}

} // verus!
