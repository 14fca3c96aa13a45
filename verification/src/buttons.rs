//! Every button that is drawn sends a payload that is read back as the
//! action it was drawn for.

use crate::render::id_button;
use crate::render::more_images_rows;
use crate::router::action_of_payload;
use crate::router::AdminCommand;
use crate::router::CallbackAction;
use crate::router::FavoriteChange;
use crate::router::MenuTarget;
use crate::text::int_text;
use crate::text::is_digit;
use crate::text::lemma_int_text_reads_back;
use crate::text::lemma_nat_text_reads_back;
use crate::text::lemma_no_split;
use crate::text::lemma_split_at_first;
use crate::text::nat_text;
use vstd::prelude::*;

verus! {

proof fn lemma_prefixes()
    ensures
        "menu"@ =~= seq!['m', 'e', 'n', 'u'],
        "admin"@ =~= seq!['a', 'd', 'm', 'i', 'n'],
        "pickcat"@ =~= seq!['p', 'i', 'c', 'k', 'c', 'a', 't'],
        "cat"@ =~= seq!['c', 'a', 't'],
        "item"@ =~= seq!['i', 't', 'e', 'm'],
        "img"@ =~= seq!['i', 'm', 'g'],
        "back"@ =~= seq!['b', 'a', 'c', 'k'],
        "bid"@ =~= seq!['b', 'i', 'd'],
        "fav"@ =~= seq!['f', 'a', 'v'],
        "settings"@ =~= seq!['s', 'e', 't', 't', 'i', 'n', 'g', 's'],
{
    reveal_strlit("menu");
    reveal_strlit("admin");
    reveal_strlit("pickcat");
    reveal_strlit("cat");
    reveal_strlit("item");
    reveal_strlit("img");
    reveal_strlit("back");
    reveal_strlit("bid");
    reveal_strlit("fav");
    reveal_strlit("settings");
}

/// The payload `prefix:number` of the four actions that name one item or
/// category.
proof fn lemma_numbered(id: i64)
    ensures
        action_of_payload("pickcat:"@ + int_text(id as int)) == CallbackAction::PickCategory(id),
        action_of_payload("cat:"@ + int_text(id as int)) == CallbackAction::Category(id),
        action_of_payload("item:"@ + int_text(id as int)) == CallbackAction::Item(id),
        action_of_payload("bid:"@ + int_text(id as int)) == CallbackAction::Bid(id),
{
    lemma_prefixes();
    lemma_int_text_reads_back(id);
    let number = int_text(id as int);
    reveal_strlit("new");
    assert(number != "new"@) by {
        assert(number.len() > 0);
        assert(number[0] != 'n') by {
            lemma_nat_text_reads_back(
                if id < 0 {
                    (-(id as int)) as nat
                } else {
                    id as nat
                },
            );
            if id >= 0 {
                assert(is_digit(number[0]));
            }
        }
    }
    assert("pickcat:"@ + number =~= "pickcat"@.push(':') + number) by {
        reveal_strlit("pickcat:");
    }
    lemma_split_at_first("pickcat"@, ':', number);
    assert("cat:"@ + number =~= "cat"@.push(':') + number) by {
        reveal_strlit("cat:");
    }
    lemma_split_at_first("cat"@, ':', number);
    assert("item:"@ + number =~= "item"@.push(':') + number) by {
        reveal_strlit("item:");
    }
    lemma_split_at_first("item"@, ':', number);
    assert("bid:"@ + number =~= "bid"@.push(':') + number) by {
        reveal_strlit("bid:");
    }
    lemma_split_at_first("bid"@, ':', number);
}

/// The payloads of the favourite buttons.
proof fn lemma_favorites(id: i64)
    ensures
        action_of_payload("fav:add:"@ + int_text(id as int)) == (CallbackAction::Favorite {
            change: FavoriteChange::Add,
            item_id: id,
        }),
        action_of_payload("fav:remove:"@ + int_text(id as int)) == (CallbackAction::Favorite {
            change: FavoriteChange::Remove,
            item_id: id,
        }),
{
    lemma_prefixes();
    lemma_int_text_reads_back(id);
    let number = int_text(id as int);
    reveal_strlit("add");
    reveal_strlit("remove");
    let add = "add"@.push(':') + number;
    let remove = "remove"@.push(':') + number;
    assert("fav:add:"@ + number =~= "fav"@.push(':') + add) by {
        reveal_strlit("fav:add:");
    }
    assert("fav:remove:"@ + number =~= "fav"@.push(':') + remove) by {
        reveal_strlit("fav:remove:");
    }
    lemma_split_at_first("fav"@, ':', add);
    lemma_split_at_first("fav"@, ':', remove);
    lemma_split_at_first("add"@, ':', number);
    lemma_split_at_first("remove"@, ':', number);
}

/// The payload of the button that asks for more images.
proof fn lemma_images(id: i64, offset: usize)
    ensures
        action_of_payload("img:"@ + int_text(id as int) + ":"@ + nat_text(offset as nat)) == (
        CallbackAction::Images { item_id: id, offset }),
{
    lemma_prefixes();
    lemma_int_text_reads_back(id);
    lemma_nat_text_reads_back(offset as nat);
    let number = int_text(id as int);
    let place = nat_text(offset as nat);
    let value = number.push(':') + place;
    assert("img:"@ + number + ":"@ + place =~= "img"@.push(':') + value) by {
        reveal_strlit("img:");
        reveal_strlit(":");
    }
    lemma_split_at_first("img"@, ':', value);
    lemma_split_at_first(number, ':', place);
    assert forall|i: int| 0 <= i < place.len() implies place[i] != ':' by {
        assert(is_digit(place[i]));
    }
    lemma_no_split(place, ':');
    assert(is_digit(place[0]));
    assert(place[0] != '+');
}

/// Every button that names an item or a category, in whatever keyboard it
/// is drawn, sends a payload that is read back as the action it was drawn
/// for, with the same number.
pub proof fn law_numbered_buttons_are_understood(label: Seq<char>, id: i64, shown: usize, left: usize)
    requires
        left > 0,
    ensures
        action_of_payload(id_button(label, "pickcat:"@, id).data) == CallbackAction::PickCategory(
            id,
        ),
        action_of_payload(id_button(label, "cat:"@, id).data) == CallbackAction::Category(id),
        action_of_payload(id_button(label, "item:"@, id).data) == CallbackAction::Item(id),
        action_of_payload(id_button(label, "bid:"@, id).data) == CallbackAction::Bid(id),
        action_of_payload(id_button(label, "fav:add:"@, id).data) == (CallbackAction::Favorite {
            change: FavoriteChange::Add,
            item_id: id,
        }),
        action_of_payload(id_button(label, "fav:remove:"@, id).data) == (
        CallbackAction::Favorite { change: FavoriteChange::Remove, item_id: id }),
        action_of_payload(more_images_rows(id, shown as nat, left as nat)[0][0].data) == (
        CallbackAction::Images { item_id: id, offset: shown }),
{
    lemma_numbered(id);
    lemma_favorites(id);
    lemma_images(id, shown);
}

proof fn lemma_menu_payloads()
    ensures
        action_of_payload("menu:root"@) == CallbackAction::Menu(MenuTarget::Root),
        action_of_payload("menu:catalogue"@) == CallbackAction::Menu(MenuTarget::Catalogue),
        action_of_payload("menu:favorites"@) == CallbackAction::Menu(MenuTarget::Favorites),
        action_of_payload("menu:my_bids"@) == CallbackAction::Menu(MenuTarget::MyBids),
        action_of_payload("menu:settings"@) == CallbackAction::Menu(MenuTarget::Settings),
        action_of_payload("menu:admin"@) == CallbackAction::Menu(MenuTarget::Admin),
{
    lemma_prefixes();
    reveal_strlit("root");
    reveal_strlit("catalogue");
    reveal_strlit("favorites");
    reveal_strlit("my_bids");
    reveal_strlit("settings");
    reveal_strlit("admin");
    assert("menu:root"@ =~= "menu"@.push(':') + "root"@) by {
        reveal_strlit("menu:root");
    }
    assert("menu:catalogue"@ =~= "menu"@.push(':') + "catalogue"@) by {
        reveal_strlit("menu:catalogue");
    }
    assert("menu:favorites"@ =~= "menu"@.push(':') + "favorites"@) by {
        reveal_strlit("menu:favorites");
    }
    assert("menu:my_bids"@ =~= "menu"@.push(':') + "my_bids"@) by {
        reveal_strlit("menu:my_bids");
    }
    assert("menu:settings"@ =~= "menu"@.push(':') + "settings"@) by {
        reveal_strlit("menu:settings");
    }
    assert("menu:admin"@ =~= "menu"@.push(':') + "admin"@) by {
        reveal_strlit("menu:admin");
    }
    lemma_split_at_first("menu"@, ':', "root"@);
    lemma_split_at_first("menu"@, ':', "catalogue"@);
    lemma_split_at_first("menu"@, ':', "favorites"@);
    lemma_split_at_first("menu"@, ':', "my_bids"@);
    lemma_split_at_first("menu"@, ':', "settings"@);
    lemma_split_at_first("menu"@, ':', "admin"@);
}

proof fn lemma_admin_payloads()
    ensures
        action_of_payload("admin:add_category"@) == CallbackAction::Admin(
            AdminCommand::AddCategory,
        ),
        action_of_payload("admin:add_item"@) == CallbackAction::Admin(AdminCommand::AddItem),
        action_of_payload("admin:remove_item"@) == CallbackAction::Admin(AdminCommand::RemoveItem),
        action_of_payload("admin:remove_category"@) == CallbackAction::Admin(
            AdminCommand::RemoveCategory,
        ),
        action_of_payload("admin:close_item"@) == CallbackAction::Admin(AdminCommand::CloseItem),
        action_of_payload("admin:broadcast"@) == CallbackAction::Admin(AdminCommand::Broadcast),
        action_of_payload("admin:notify_new"@) == CallbackAction::Admin(AdminCommand::NotifyNew),
{
    lemma_prefixes();
    reveal_strlit("add_category");
    reveal_strlit("add_item");
    reveal_strlit("remove_item");
    reveal_strlit("remove_category");
    reveal_strlit("close_item");
    reveal_strlit("broadcast");
    reveal_strlit("notify_new");
    assert("admin:add_category"@ =~= "admin"@.push(':') + "add_category"@) by {
        reveal_strlit("admin:add_category");
    }
    assert("admin:add_item"@ =~= "admin"@.push(':') + "add_item"@) by {
        reveal_strlit("admin:add_item");
    }
    assert("admin:remove_item"@ =~= "admin"@.push(':') + "remove_item"@) by {
        reveal_strlit("admin:remove_item");
    }
    assert("admin:remove_category"@ =~= "admin"@.push(':') + "remove_category"@) by {
        reveal_strlit("admin:remove_category");
    }
    assert("admin:close_item"@ =~= "admin"@.push(':') + "close_item"@) by {
        reveal_strlit("admin:close_item");
    }
    assert("admin:broadcast"@ =~= "admin"@.push(':') + "broadcast"@) by {
        reveal_strlit("admin:broadcast");
    }
    assert("admin:notify_new"@ =~= "admin"@.push(':') + "notify_new"@) by {
        reveal_strlit("admin:notify_new");
    }
    lemma_split_at_first("admin"@, ':', "add_category"@);
    lemma_split_at_first("admin"@, ':', "add_item"@);
    lemma_split_at_first("admin"@, ':', "remove_item"@);
    lemma_split_at_first("admin"@, ':', "remove_category"@);
    lemma_split_at_first("admin"@, ':', "close_item"@);
    lemma_split_at_first("admin"@, ':', "broadcast"@);
    lemma_split_at_first("admin"@, ':', "notify_new"@);
}

proof fn lemma_other_payloads()
    ensures
        action_of_payload("pickcat:new"@) == CallbackAction::PickNewCategory,
        action_of_payload("back:categories"@) == CallbackAction::BackToCategories,
        action_of_payload("settings:toggle_notifications"@) == CallbackAction::ToggleNotifications,
{
    lemma_prefixes();
    reveal_strlit("new");
    reveal_strlit("categories");
    reveal_strlit("toggle_notifications");
    assert("pickcat:new"@ =~= "pickcat"@.push(':') + "new"@) by {
        reveal_strlit("pickcat:new");
    }
    assert("back:categories"@ =~= "back"@.push(':') + "categories"@) by {
        reveal_strlit("back:categories");
    }
    assert("settings:toggle_notifications"@ =~= "settings"@.push(':') + "toggle_notifications"@)
        by {
        reveal_strlit("settings:toggle_notifications");
    }
    lemma_split_at_first("pickcat"@, ':', "new"@);
    lemma_split_at_first("back"@, ':', "categories"@);
    lemma_split_at_first("settings"@, ':', "toggle_notifications"@);
}

/// The fixed payloads of the menus are read back as the actions that the
/// menus offer.
pub proof fn law_menu_buttons_are_understood()
    ensures
        action_of_payload("menu:root"@) == CallbackAction::Menu(MenuTarget::Root),
        action_of_payload("menu:catalogue"@) == CallbackAction::Menu(MenuTarget::Catalogue),
        action_of_payload("menu:favorites"@) == CallbackAction::Menu(MenuTarget::Favorites),
        action_of_payload("menu:my_bids"@) == CallbackAction::Menu(MenuTarget::MyBids),
        action_of_payload("menu:settings"@) == CallbackAction::Menu(MenuTarget::Settings),
        action_of_payload("menu:admin"@) == CallbackAction::Menu(MenuTarget::Admin),
        action_of_payload("admin:add_category"@) == CallbackAction::Admin(
            AdminCommand::AddCategory,
        ),
        action_of_payload("admin:add_item"@) == CallbackAction::Admin(AdminCommand::AddItem),
        action_of_payload("admin:remove_item"@) == CallbackAction::Admin(AdminCommand::RemoveItem),
        action_of_payload("admin:remove_category"@) == CallbackAction::Admin(
            AdminCommand::RemoveCategory,
        ),
        action_of_payload("admin:close_item"@) == CallbackAction::Admin(AdminCommand::CloseItem),
        action_of_payload("admin:broadcast"@) == CallbackAction::Admin(AdminCommand::Broadcast),
        action_of_payload("admin:notify_new"@) == CallbackAction::Admin(AdminCommand::NotifyNew),
        action_of_payload("pickcat:new"@) == CallbackAction::PickNewCategory,
        action_of_payload("back:categories"@) == CallbackAction::BackToCategories,
        action_of_payload("settings:toggle_notifications"@) == CallbackAction::ToggleNotifications,
{
    lemma_menu_payloads();
    lemma_admin_payloads();
    lemma_other_payloads();
}

} // verus!
