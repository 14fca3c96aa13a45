//! The inline actions of the chat surface: each button carries a payload
//! `prefix:value`, which is read into a typed action before anything acts
//! on it.

use crate::text::i64_of_text;
use crate::text::parse_i64;
use crate::text::parse_usize;
use crate::text::same_text;
use crate::text::split_at_first;
use crate::text::split_once;
use crate::text::usize_of_text;
use vstd::prelude::*;

verus! {

/// The screens of the menu.
#[derive(Debug, Clone, Copy, PartialEq, Eq, Structural)]
pub enum MenuTarget {
    Root,
    Catalogue,
    Favorites,
    MyBids,
    Settings,
    Admin,
}

/// The actions of the admin panel.
#[derive(Debug, Clone, Copy, PartialEq, Eq, Structural)]
pub enum AdminCommand {
    AddCategory,
    AddItem,
    RemoveItem,
    RemoveCategory,
    CloseItem,
    Broadcast,
    NotifyNew,
    /// A value of the admin prefix that names no action.
    Unknown,
}

/// What a favourites button asks for.
#[derive(Debug, Clone, Copy, PartialEq, Eq, Structural)]
pub enum FavoriteChange {
    Add,
    Remove,
    /// Neither: only the buttons of the item are drawn again.
    Nothing,
}

/// An inline action, read from its payload.
#[derive(Debug, Clone, Copy, PartialEq, Eq, Structural)]
pub enum CallbackAction {
    Menu(MenuTarget),
    Admin(AdminCommand),
    PickNewCategory,
    PickCategory(i64),
    Category(i64),
    Item(i64),
    Images { item_id: i64, offset: usize },
    BackToCategories,
    Bid(i64),
    Favorite { change: FavoriteChange, item_id: i64 },
    ToggleNotifications,
    /// A payload that names no action; it is acknowledged and ignored.
    Unrecognized,
}

pub open spec fn menu_action(value: Seq<char>) -> CallbackAction {
    if value == "root"@ {
        CallbackAction::Menu(MenuTarget::Root)
    } else if value == "catalogue"@ {
        CallbackAction::Menu(MenuTarget::Catalogue)
    } else if value == "favorites"@ {
        CallbackAction::Menu(MenuTarget::Favorites)
    } else if value == "my_bids"@ {
        CallbackAction::Menu(MenuTarget::MyBids)
    } else if value == "settings"@ {
        CallbackAction::Menu(MenuTarget::Settings)
    } else if value == "admin"@ {
        CallbackAction::Menu(MenuTarget::Admin)
    } else {
        CallbackAction::Unrecognized
    }
}

pub open spec fn admin_command(value: Seq<char>) -> AdminCommand {
    if value == "add_category"@ {
        AdminCommand::AddCategory
    } else if value == "add_item"@ {
        AdminCommand::AddItem
    } else if value == "remove_item"@ {
        AdminCommand::RemoveItem
    } else if value == "remove_category"@ {
        AdminCommand::RemoveCategory
    } else if value == "close_item"@ {
        AdminCommand::CloseItem
    } else if value == "broadcast"@ {
        AdminCommand::Broadcast
    } else if value == "notify_new"@ {
        AdminCommand::NotifyNew
    } else {
        AdminCommand::Unknown
    }
}

/// The action of `prefix:<id>`, for the prefixes whose value is one
/// identifier.
pub open spec fn id_action(value: Seq<char>, make: spec_fn(i64) -> CallbackAction)
    -> CallbackAction {
    match i64_of_text(value) {
        Some(id) => make(id),
        None => CallbackAction::Unrecognized,
    }
}

pub open spec fn pick_action(value: Seq<char>) -> CallbackAction {
    if value == "new"@ {
        CallbackAction::PickNewCategory
    } else {
        id_action(value, |id: i64| CallbackAction::PickCategory(id))
    }
}

/// `img:<itemId>:<offset>`: the item, then the offset; what follows a
/// further colon is not read.
pub open spec fn images_action(value: Seq<char>) -> CallbackAction {
    match split_at_first(value, ':') {
        Some((item, rest)) => {
            let offset = match split_at_first(rest, ':') {
                Some((head, _)) => head,
                None => rest,
            };
            match (i64_of_text(item), usize_of_text(offset)) {
                (Some(item_id), Some(offset)) => CallbackAction::Images { item_id, offset },
                _ => CallbackAction::Unrecognized,
            }
        },
        None => CallbackAction::Unrecognized,
    }
}

pub open spec fn favorite_change(word: Seq<char>) -> FavoriteChange {
    if word == "add"@ {
        FavoriteChange::Add
    } else if word == "remove"@ {
        FavoriteChange::Remove
    } else {
        FavoriteChange::Nothing
    }
}

/// `fav:<add|remove>:<itemId>`.
pub open spec fn favorite_action(value: Seq<char>) -> CallbackAction {
    match split_at_first(value, ':') {
        Some((word, item)) => match i64_of_text(item) {
            Some(item_id) => CallbackAction::Favorite { change: favorite_change(word), item_id },
            None => CallbackAction::Unrecognized,
        },
        None => CallbackAction::Unrecognized,
    }
}

/// The action that a payload stands for.
pub open spec fn action_of_payload(data: Seq<char>) -> CallbackAction {
    match split_at_first(data, ':') {
        None => CallbackAction::Unrecognized,
        Some((prefix, value)) => {
            if prefix == "menu"@ {
                menu_action(value)
            } else if prefix == "admin"@ {
                CallbackAction::Admin(admin_command(value))
            } else if prefix == "pickcat"@ {
                pick_action(value)
            } else if prefix == "cat"@ {
                id_action(value, |id: i64| CallbackAction::Category(id))
            } else if prefix == "item"@ {
                id_action(value, |id: i64| CallbackAction::Item(id))
            } else if prefix == "img"@ {
                images_action(value)
            } else if prefix == "back"@ {
                if value == "categories"@ {
                    CallbackAction::BackToCategories
                } else {
                    CallbackAction::Unrecognized
                }
            } else if prefix == "bid"@ {
                id_action(value, |id: i64| CallbackAction::Bid(id))
            } else if prefix == "fav"@ {
                favorite_action(value)
            } else if prefix == "settings"@ {
                if value == "toggle_notifications"@ {
                    CallbackAction::ToggleNotifications
                } else {
                    CallbackAction::Unrecognized
                }
            } else {
                CallbackAction::Unrecognized
            }
        },
    }
}

fn parse_menu(value: &str) -> (r: CallbackAction)
    ensures
        r == menu_action(value@),
{
    if same_text(value, "root") {
        CallbackAction::Menu(MenuTarget::Root)
    } else if same_text(value, "catalogue") {
        CallbackAction::Menu(MenuTarget::Catalogue)
    } else if same_text(value, "favorites") {
        CallbackAction::Menu(MenuTarget::Favorites)
    } else if same_text(value, "my_bids") {
        CallbackAction::Menu(MenuTarget::MyBids)
    } else if same_text(value, "settings") {
        CallbackAction::Menu(MenuTarget::Settings)
    } else if same_text(value, "admin") {
        CallbackAction::Menu(MenuTarget::Admin)
    } else {
        CallbackAction::Unrecognized
    }
}

fn parse_admin(value: &str) -> (r: AdminCommand)
    ensures
        r == admin_command(value@),
{
    if same_text(value, "add_category") {
        AdminCommand::AddCategory
    } else if same_text(value, "add_item") {
        AdminCommand::AddItem
    } else if same_text(value, "remove_item") {
        AdminCommand::RemoveItem
    } else if same_text(value, "remove_category") {
        AdminCommand::RemoveCategory
    } else if same_text(value, "close_item") {
        AdminCommand::CloseItem
    } else if same_text(value, "broadcast") {
        AdminCommand::Broadcast
    } else if same_text(value, "notify_new") {
        AdminCommand::NotifyNew
    } else {
        AdminCommand::Unknown
    }
}

fn parse_images(value: &str) -> (r: CallbackAction)
    ensures
        r == images_action(value@),
{
    match split_once(value, ':') {
        Some((item, rest)) => {
            let offset = match split_once(rest, ':') {
                Some((head, _)) => head,
                None => rest,
            };
            match parse_i64(item) {
                Some(item_id) => match parse_usize(offset) {
                    Some(offset) => CallbackAction::Images { item_id, offset },
                    None => CallbackAction::Unrecognized,
                },
                None => CallbackAction::Unrecognized,
            }
        },
        None => CallbackAction::Unrecognized,
    }
}

fn parse_favorite(value: &str) -> (r: CallbackAction)
    ensures
        r == favorite_action(value@),
{
    match split_once(value, ':') {
        Some((word, item)) => match parse_i64(item) {
            Some(item_id) => {
                let change = if same_text(word, "add") {
                    FavoriteChange::Add
                } else if same_text(word, "remove") {
                    FavoriteChange::Remove
                } else {
                    FavoriteChange::Nothing
                };
                CallbackAction::Favorite { change, item_id }
            },
            None => CallbackAction::Unrecognized,
        },
        None => CallbackAction::Unrecognized,
    }
}

/// Reads the payload of an inline button into the action it stands for.
pub fn parse_action(data: &str) -> (r: CallbackAction)
    ensures
        r == action_of_payload(data@),
{
    match split_once(data, ':') {
        None => CallbackAction::Unrecognized,
        Some((prefix, value)) => {
            if same_text(prefix, "menu") {
                parse_menu(value)
            } else if same_text(prefix, "admin") {
                CallbackAction::Admin(parse_admin(value))
            } else if same_text(prefix, "pickcat") {
                if same_text(value, "new") {
                    CallbackAction::PickNewCategory
                } else {
                    match parse_i64(value) {
                        Some(id) => CallbackAction::PickCategory(id),
                        None => CallbackAction::Unrecognized,
                    }
                }
            } else if same_text(prefix, "cat") {
                match parse_i64(value) {
                    Some(id) => CallbackAction::Category(id),
                    None => CallbackAction::Unrecognized,
                }
            } else if same_text(prefix, "item") {
                match parse_i64(value) {
                    Some(id) => CallbackAction::Item(id),
                    None => CallbackAction::Unrecognized,
                }
            } else if same_text(prefix, "img") {
                parse_images(value)
            } else if same_text(prefix, "back") {
                if same_text(value, "categories") {
                    CallbackAction::BackToCategories
                } else {
                    CallbackAction::Unrecognized
                }
            } else if same_text(prefix, "bid") {
                match parse_i64(value) {
                    Some(id) => CallbackAction::Bid(id),
                    None => CallbackAction::Unrecognized,
                }
            } else if same_text(prefix, "fav") {
                parse_favorite(value)
            } else if same_text(prefix, "settings") {
                if same_text(value, "toggle_notifications") {
                    CallbackAction::ToggleNotifications
                } else {
                    CallbackAction::Unrecognized
                }
            } else {
                CallbackAction::Unrecognized
            }
        },
    }
}

} // verus!
