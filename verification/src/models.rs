//! The records of the catalogue, as the engines read them.

use vstd::prelude::*;

verus! {

/// A registered user.
#[derive(Debug, Clone, PartialEq, Eq)]
pub struct UserRow {
    pub id: i64,
    pub username: Option<String>,
    pub first_name: Option<String>,
    pub last_name: Option<String>,
    pub notifications_disabled: bool,
    /// Seconds since the Unix epoch, UTC.
    pub created_at: i64,
}

/// A category of the catalogue. Names are unique up to letter case.
#[derive(Debug, Clone, PartialEq, Eq)]
pub struct CategoryRow {
    pub id: i64,
    pub name: String,
}

/// [`CategoryRow`] as contracts speak of it: every text is the sequence of its
/// characters.
pub struct CategoryView {
    pub id: i64,
    pub name: Seq<char>,
}

impl View for CategoryRow {
    type V = CategoryView;

    open spec fn view(&self) -> CategoryView {
        CategoryView { id: self.id, name: self.name@ }
    }
}

impl DeepView for CategoryRow {
    type V = CategoryView;

    open spec fn deep_view(&self) -> CategoryView {
        self@
    }
}

/// An item up for auction.
#[derive(Debug, Clone, PartialEq, Eq)]
pub struct ItemRow {
    pub id: i64,
    pub seller_tg_id: i64,
    pub category_id: i64,
    pub title: String,
    pub description: Option<String>,
    pub start_price: i64,
    /// The cover image of items created before items had image lists.
    pub image_file_id: Option<String>,
    pub is_open: bool,
    pub is_new: bool,
    /// Seconds since the Unix epoch, UTC.
    pub created_at: i64,
}

/// [`ItemRow`] as contracts speak of it: every text is the sequence of its
/// characters.
pub struct ItemView {
    pub id: i64,
    pub seller_tg_id: i64,
    pub category_id: i64,
    pub title: Seq<char>,
    pub description: Option<Seq<char>>,
    pub start_price: i64,
    pub image_file_id: Option<Seq<char>>,
    pub is_open: bool,
    pub is_new: bool,
    pub created_at: i64,
}

impl View for ItemRow {
    type V = ItemView;

    open spec fn view(&self) -> ItemView {
        ItemView {
            id: self.id,
            seller_tg_id: self.seller_tg_id,
            category_id: self.category_id,
            title: self.title@,
            description: self.description.deep_view(),
            start_price: self.start_price,
            image_file_id: self.image_file_id.deep_view(),
            is_open: self.is_open,
            is_new: self.is_new,
            created_at: self.created_at,
        }
    }
}

impl DeepView for ItemRow {
    type V = ItemView;

    open spec fn deep_view(&self) -> ItemView {
        self@
    }
}

/// A bid as the store records it.
#[derive(Debug, Clone, Copy, PartialEq, Eq, Structural)]
pub struct BidRow {
    pub id: i64,
    pub item_id: i64,
    pub bidder_tg_id: i64,
    pub amount: i64,
    /// Seconds since the Unix epoch, UTC.
    pub created_at: i64,
}

} // verus!
