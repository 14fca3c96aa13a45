use auction_bot::context::AppContext;
use auction_bot::models::CategoryRow;
use auction_bot::models::ItemRow;
use auction_bot::render::admin_menu_keyboard;
use auction_bot::render::build_categories_keyboard;
use auction_bot::render::build_category_picker_keyboard;
use auction_bot::render::build_items_keyboard;
use auction_bot::render::item_action_keyboard;
use auction_bot::render::main_menu_keyboard;
use auction_bot::render::send_more_images_prompt;
use auction_bot::render::settings_menu_keyboard;
use auction_bot::render::ItemViewerContext;
use auction_bot::render::Keyboard;
use auction_bot::router::parse_action;
use auction_bot::router::AdminCommand;
use auction_bot::router::CallbackAction;
use auction_bot::router::FavoriteChange;
use auction_bot::router::MenuTarget;

fn actions(keyboard: &Keyboard) -> Vec<CallbackAction> {
    keyboard
        .inline_keyboard
        .iter()
        .flat_map(|row| row.iter().map(|button| parse_action(&button.data)))
        .collect()
}

#[test]
fn menu_buttons_are_read_back() {
    let ctx = AppContext::new(vec![1]);
    assert_eq!(
        actions(&main_menu_keyboard(&ctx, 1)),
        vec![
            CallbackAction::Menu(MenuTarget::Catalogue),
            CallbackAction::Menu(MenuTarget::MyBids),
            CallbackAction::Menu(MenuTarget::Favorites),
            CallbackAction::Menu(MenuTarget::Settings),
            CallbackAction::Menu(MenuTarget::Admin),
        ]
    );
    assert_eq!(
        actions(&admin_menu_keyboard()),
        vec![
            CallbackAction::Admin(AdminCommand::AddCategory),
            CallbackAction::Admin(AdminCommand::AddItem),
            CallbackAction::Admin(AdminCommand::RemoveItem),
            CallbackAction::Admin(AdminCommand::RemoveCategory),
            CallbackAction::Admin(AdminCommand::CloseItem),
            CallbackAction::Admin(AdminCommand::Broadcast),
            CallbackAction::Admin(AdminCommand::NotifyNew),
            CallbackAction::Menu(MenuTarget::Root),
        ]
    );
    assert_eq!(
        actions(&settings_menu_keyboard(false)),
        vec![CallbackAction::ToggleNotifications, CallbackAction::Menu(MenuTarget::Root)]
    );
}

#[test]
fn numbered_buttons_are_read_back() {
    for id in [0i64, 7, -7, 1234567890123, i64::MAX, i64::MIN] {
        let categories = vec![CategoryRow { id, name: "Any".to_string() }];
        assert_eq!(
            actions(&build_categories_keyboard(&categories)),
            vec![CallbackAction::Category(id), CallbackAction::Menu(MenuTarget::Root)]
        );
        assert_eq!(
            actions(&build_category_picker_keyboard(&categories)),
            vec![
                CallbackAction::PickCategory(id),
                CallbackAction::PickNewCategory,
                CallbackAction::Menu(MenuTarget::Root)
            ]
        );
        let lot = ItemRow {
            id,
            seller_tg_id: 1,
            category_id: 1,
            title: "Any".to_string(),
            description: None,
            start_price: 1,
            image_file_id: None,
            is_open: true,
            is_new: false,
            created_at: 0,
        };
        assert_eq!(
            actions(&build_items_keyboard(&vec![(lot, None)])),
            vec![
                CallbackAction::Item(id),
                CallbackAction::BackToCategories,
                CallbackAction::Menu(MenuTarget::Root)
            ]
        );
        let fan = ItemViewerContext { is_favorite: true, user_best_bid: None };
        let guest = ItemViewerContext { is_favorite: false, user_best_bid: None };
        assert_eq!(
            actions(&item_action_keyboard(id, true, Some(&fan))),
            vec![
                CallbackAction::Bid(id),
                CallbackAction::Favorite { change: FavoriteChange::Remove, item_id: id }
            ]
        );
        assert_eq!(
            actions(&item_action_keyboard(id, false, Some(&guest))),
            vec![CallbackAction::Favorite { change: FavoriteChange::Add, item_id: id }]
        );
        for shown in [0usize, 10, 20, usize::MAX - 1] {
            let (_, keyboard) = send_more_images_prompt(id, shown, usize::MAX);
            assert_eq!(
                actions(&keyboard),
                vec![CallbackAction::Images { item_id: id, offset: shown }]
            );
        }
    }
}
