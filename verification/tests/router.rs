use auction_bot::router::parse_action;
use auction_bot::router::AdminCommand;
use auction_bot::router::CallbackAction;
use auction_bot::router::FavoriteChange;
use auction_bot::router::MenuTarget;

#[test]
fn reads_menu_actions() {
    assert_eq!(parse_action("menu:root"), CallbackAction::Menu(MenuTarget::Root));
    assert_eq!(parse_action("menu:catalogue"), CallbackAction::Menu(MenuTarget::Catalogue));
    assert_eq!(parse_action("menu:favorites"), CallbackAction::Menu(MenuTarget::Favorites));
    assert_eq!(parse_action("menu:my_bids"), CallbackAction::Menu(MenuTarget::MyBids));
    assert_eq!(parse_action("menu:settings"), CallbackAction::Menu(MenuTarget::Settings));
    assert_eq!(parse_action("menu:admin"), CallbackAction::Menu(MenuTarget::Admin));
    assert_eq!(parse_action("menu:other"), CallbackAction::Unrecognized);
    assert_eq!(parse_action("menu:Root"), CallbackAction::Unrecognized);
}

#[test]
fn reads_admin_actions() {
    assert_eq!(parse_action("admin:add_category"), CallbackAction::Admin(AdminCommand::AddCategory));
    assert_eq!(parse_action("admin:add_item"), CallbackAction::Admin(AdminCommand::AddItem));
    assert_eq!(parse_action("admin:remove_item"), CallbackAction::Admin(AdminCommand::RemoveItem));
    assert_eq!(
        parse_action("admin:remove_category"),
        CallbackAction::Admin(AdminCommand::RemoveCategory)
    );
    assert_eq!(parse_action("admin:close_item"), CallbackAction::Admin(AdminCommand::CloseItem));
    assert_eq!(parse_action("admin:broadcast"), CallbackAction::Admin(AdminCommand::Broadcast));
    assert_eq!(parse_action("admin:notify_new"), CallbackAction::Admin(AdminCommand::NotifyNew));
    assert_eq!(parse_action("admin:"), CallbackAction::Admin(AdminCommand::Unknown));
    assert_eq!(parse_action("admin:drop_all"), CallbackAction::Admin(AdminCommand::Unknown));
}

#[test]
fn reads_actions_with_one_identifier() {
    assert_eq!(parse_action("pickcat:new"), CallbackAction::PickNewCategory);
    assert_eq!(parse_action("pickcat:12"), CallbackAction::PickCategory(12));
    assert_eq!(parse_action("pickcat:x"), CallbackAction::Unrecognized);
    assert_eq!(parse_action("cat:3"), CallbackAction::Category(3));
    assert_eq!(parse_action("cat:-3"), CallbackAction::Category(-3));
    assert_eq!(parse_action("cat:"), CallbackAction::Unrecognized);
    assert_eq!(parse_action("item:77"), CallbackAction::Item(77));
    assert_eq!(parse_action("item:7 7"), CallbackAction::Unrecognized);
    assert_eq!(parse_action("bid:5"), CallbackAction::Bid(5));
    assert_eq!(parse_action("bid:+5"), CallbackAction::Bid(5));
    assert_eq!(parse_action("bid:5:6"), CallbackAction::Unrecognized);
    assert_eq!(parse_action("bid:9223372036854775808"), CallbackAction::Unrecognized);
}

#[test]
fn reads_image_pages() {
    assert_eq!(parse_action("img:5:10"), CallbackAction::Images { item_id: 5, offset: 10 });
    assert_eq!(parse_action("img:5:10:zzz"), CallbackAction::Images { item_id: 5, offset: 10 });
    assert_eq!(parse_action("img:5"), CallbackAction::Unrecognized);
    assert_eq!(parse_action("img:5:"), CallbackAction::Unrecognized);
    assert_eq!(parse_action("img:5:-1"), CallbackAction::Unrecognized);
    assert_eq!(parse_action("img:x:1"), CallbackAction::Unrecognized);
    assert_eq!(parse_action("img::1"), CallbackAction::Unrecognized);
}

#[test]
fn reads_favourites_and_settings() {
    assert_eq!(
        parse_action("fav:add:9"),
        CallbackAction::Favorite { change: FavoriteChange::Add, item_id: 9 }
    );
    assert_eq!(
        parse_action("fav:remove:9"),
        CallbackAction::Favorite { change: FavoriteChange::Remove, item_id: 9 }
    );
    assert_eq!(
        parse_action("fav:toggle:9"),
        CallbackAction::Favorite { change: FavoriteChange::Nothing, item_id: 9 }
    );
    assert_eq!(parse_action("fav:add"), CallbackAction::Unrecognized);
    assert_eq!(parse_action("fav:add:9:1"), CallbackAction::Unrecognized);
    assert_eq!(parse_action("settings:toggle_notifications"), CallbackAction::ToggleNotifications);
    assert_eq!(parse_action("settings:other"), CallbackAction::Unrecognized);
    assert_eq!(parse_action("back:categories"), CallbackAction::BackToCategories);
    assert_eq!(parse_action("back:items"), CallbackAction::Unrecognized);
}

#[test]
fn ignores_payloads_without_a_known_prefix() {
    assert_eq!(parse_action(""), CallbackAction::Unrecognized);
    assert_eq!(parse_action("menu"), CallbackAction::Unrecognized);
    assert_eq!(parse_action("<empty>"), CallbackAction::Unrecognized);
    assert_eq!(parse_action(":root"), CallbackAction::Unrecognized);
    assert_eq!(parse_action("Menu:root"), CallbackAction::Unrecognized);
    assert_eq!(parse_action("unknown:1"), CallbackAction::Unrecognized);
}
