use auction_bot::context::AppContext;
use auction_bot::models::CategoryRow;
use auction_bot::models::ItemRow;
use auction_bot::render::admin_menu_keyboard;
use auction_bot::render::build_categories_keyboard;
use auction_bot::render::build_category_picker_keyboard;
use auction_bot::render::build_items_keyboard;
use auction_bot::render::categories_message;
use auction_bot::render::category_items_message;
use auction_bot::render::category_picker_message;
use auction_bot::render::item_action_keyboard;
use auction_bot::render::item_images;
use auction_bot::render::main_menu_keyboard;
use auction_bot::render::main_menu_only_keyboard;
use auction_bot::render::plan_image_page;
use auction_bot::render::render_item_message;
use auction_bot::render::send_item_images_chunk;
use auction_bot::render::send_more_images_prompt;
use auction_bot::render::settings_menu_keyboard;
use auction_bot::render::settings_message;
use auction_bot::render::truncate_button_text;
use auction_bot::render::Button;
use auction_bot::render::ImagePage;
use auction_bot::render::ItemViewerContext;
use auction_bot::render::Keyboard;

fn button(label: &str, data: &str) -> Button {
    Button { label: label.to_string(), data: data.to_string() }
}

fn payloads(keyboard: &Keyboard) -> Vec<Vec<String>> {
    keyboard
        .inline_keyboard
        .iter()
        .map(|row| row.iter().map(|b| b.data.clone()).collect())
        .collect()
}

fn item(id: i64, title: &str, start_price: i64, is_open: bool) -> ItemRow {
    ItemRow {
        id,
        seller_tg_id: 1,
        category_id: 1,
        title: title.to_string(),
        description: None,
        start_price,
        image_file_id: None,
        is_open,
        is_new: false,
        created_at: 0,
    }
}

#[test]
fn renders_keyboard_only_for_open_items() {
    let keyboard = item_action_keyboard(1, true, None);
    assert!(!keyboard.inline_keyboard.is_empty());

    let closed = item_action_keyboard(2, false, None);
    assert!(closed.inline_keyboard.is_empty());
}

#[test]
fn renders_item_text() {
    let item = ItemRow {
        id: 1,
        seller_tg_id: 1,
        category_id: 1,
        title: "Test".to_string(),
        description: Some("Description".to_string()),
        start_price: 100,
        image_file_id: None,
        is_open: true,
        is_new: false,
        created_at: 0,
    };
    let text = render_item_message(&item, Some(150), None);
    assert!(text.contains("#1"));
    assert!(text.contains("Current best"));
}

#[test]
fn renders_viewer_details() {
    let item = ItemRow {
        id: 5,
        seller_tg_id: 1,
        category_id: 1,
        title: "Test".to_string(),
        description: None,
        start_price: 100,
        image_file_id: None,
        is_open: true,
        is_new: false,
        created_at: 0,
    };
    let ctx = ItemViewerContext {
        is_favorite: true,
        user_best_bid: Some(125),
    };
    let text = render_item_message(&item, Some(150), Some(&ctx));
    assert!(text.contains("Your top bid"));
    assert!(text.contains("Saved to favorites"));
}

#[test]
fn item_message_is_escaped_for_markdown() {
    let mut lot = item(12, "A_B (new).", 1050, true);
    lot.description = Some("1+1=2!".to_string());
    lot.is_new = true;
    let viewer = ItemViewerContext { is_favorite: true, user_best_bid: Some(2000) };
    let text = render_item_message(&lot, Some(2550), Some(&viewer));
    assert_eq!(
        text,
        "🔨 *\\#12* — *A\\_B \\(new\\)\\.*\n\n1\\+1\\=2\\!\n\n💰 Start: AED 10\\.50\n🏆 Current best: AED 25\\.50\n🎯 Your top bid: AED 20\\.00\n⭐ Saved to favorites\n🆕 Newly listed\n📦 Status: OPEN"
    );
}

#[test]
fn item_message_leaves_out_what_is_missing() {
    let mut lot = item(3, "Plain", 100, false);
    lot.description = Some("   ".to_string());
    assert_eq!(
        render_item_message(&lot, None, None),
        "🔨 *\\#3* — *Plain*\n\n💰 Start: AED 1\\.00\n📦 Status: CLOSED"
    );
    let viewer = ItemViewerContext { is_favorite: false, user_best_bid: None };
    assert_eq!(
        render_item_message(&lot, None, Some(&viewer)),
        "🔨 *\\#3* — *Plain*\n\n💰 Start: AED 1\\.00\n📦 Status: CLOSED"
    );
    lot.description = Some(" back\\slash ".to_string());
    assert_eq!(
        render_item_message(&lot, None, None),
        "🔨 *\\#3* — *Plain*\n\n back\\\\slash \n\n💰 Start: AED 1\\.00\n📦 Status: CLOSED"
    );
}

#[test]
fn item_buttons_follow_state_and_viewer() {
    let fan = ItemViewerContext { is_favorite: true, user_best_bid: None };
    let guest = ItemViewerContext { is_favorite: false, user_best_bid: None };
    assert_eq!(
        item_action_keyboard(7, true, Some(&guest)).inline_keyboard,
        vec![vec![button("💸 Place bid", "bid:7"), button("⭐ Add favorite", "fav:add:7")]]
    );
    assert_eq!(
        item_action_keyboard(7, false, Some(&fan)).inline_keyboard,
        vec![vec![button("❌ Remove favorite", "fav:remove:7")]]
    );
    assert_eq!(
        item_action_keyboard(-7, true, None).inline_keyboard,
        vec![vec![button("💸 Place bid", "bid:-7")]]
    );
}

#[test]
fn main_menu_offers_the_admin_panel_to_admins_only() {
    let ctx = AppContext::new(vec![1]);
    assert_eq!(
        payloads(&main_menu_keyboard(&ctx, 1)),
        vec![
            vec!["menu:catalogue".to_string()],
            vec!["menu:my_bids".to_string(), "menu:favorites".to_string()],
            vec!["menu:settings".to_string()],
            vec!["menu:admin".to_string()],
        ]
    );
    let user = main_menu_keyboard(&ctx, 2);
    assert_eq!(user.inline_keyboard.len(), 3);
    assert_eq!(user.inline_keyboard[0], vec![button("🗂️ Catalogue", "menu:catalogue")]);
    assert_eq!(
        user.inline_keyboard[1],
        vec![button("🪙 My bids", "menu:my_bids"), button("⭐ My favorites", "menu:favorites")]
    );
    assert_eq!(user.inline_keyboard[2], vec![button("⚙️ My settings", "menu:settings")]);
}

#[test]
fn admin_and_settings_menus_are_fixed() {
    assert_eq!(
        admin_menu_keyboard().inline_keyboard,
        vec![
            vec![button("🆕 Add category", "admin:add_category"), button("📦 Add item", "admin:add_item")],
            vec![
                button("🗑 Remove item", "admin:remove_item"),
                button("🗑 Remove category", "admin:remove_category")
            ],
            vec![button("🛑 Close item", "admin:close_item"), button("📢 Broadcast", "admin:broadcast")],
            vec![button("🔔 Notify new lots", "admin:notify_new")],
            vec![button("⬅️ Main menu", "menu:root")],
        ]
    );
    assert_eq!(
        main_menu_only_keyboard().inline_keyboard,
        vec![vec![button("⬅️ Main menu", "menu:root")]]
    );
    assert_eq!(
        settings_menu_keyboard(true).inline_keyboard,
        vec![
            vec![button("🔔 Enable updates", "settings:toggle_notifications")],
            vec![button("⬅️ Main menu", "menu:root")],
        ]
    );
    assert_eq!(
        settings_menu_keyboard(false).inline_keyboard[0],
        vec![button("🔕 Mute updates", "settings:toggle_notifications")]
    );
    assert_eq!(
        settings_message(true),
        "⚙️ Settings\n\n🔕 Notifications are OFF\nToggle below to control auction updates."
    );
    assert_eq!(
        settings_message(false),
        "⚙️ Settings\n\n🔔 Notifications are ON\nToggle below to control auction updates."
    );
}

#[test]
fn categories_are_laid_out_two_to_a_row() {
    let categories = vec![
        CategoryRow { id: 1, name: "Art".to_string() },
        CategoryRow { id: 2, name: "Books".to_string() },
        CategoryRow { id: 3, name: "Coins".to_string() },
    ];
    assert_eq!(
        build_categories_keyboard(&categories).inline_keyboard,
        vec![
            vec![button("Art", "cat:1"), button("Books", "cat:2")],
            vec![button("Coins", "cat:3")],
            vec![button("⬅️ Main menu", "menu:root")],
        ]
    );
    assert_eq!(
        build_category_picker_keyboard(&categories[..2].to_vec()).inline_keyboard,
        vec![
            vec![button("Art", "pickcat:1"), button("Books", "pickcat:2")],
            vec![button("➕ New category", "pickcat:new"), button("⬅️ Main menu", "menu:root")],
        ]
    );
    assert_eq!(
        build_categories_keyboard(&Vec::new()).inline_keyboard,
        vec![vec![button("⬅️ Main menu", "menu:root")]]
    );
    assert_eq!(build_category_picker_keyboard(&Vec::new()).inline_keyboard.len(), 1);
    let four: Vec<CategoryRow> =
        (1..=4).map(|id| CategoryRow { id, name: format!("c{}", id) }).collect();
    assert_eq!(
        payloads(&build_categories_keyboard(&four)),
        vec![
            vec!["cat:1".to_string(), "cat:2".to_string()],
            vec!["cat:3".to_string(), "cat:4".to_string()],
            vec!["menu:root".to_string()],
        ]
    );
}

#[test]
fn menu_texts_depend_on_what_there_is() {
    assert_eq!(
        category_picker_message(true),
        "🗂️ Choose a category \\(or tap *➕ New category*\\):"
    );
    assert_eq!(
        category_picker_message(false),
        "🗂️ No categories yet.\nSend a new category name, or /cancel to stop."
    );
    assert_eq!(categories_message(true), "🗂️ Choose a category:");
    assert_eq!(categories_message(false), "🗂️ No categories yet. Check back soon.");
    assert_eq!(
        category_items_message("Books", true),
        "🗂️ Category: Books\n🛍️ Select an item:"
    );
    assert_eq!(
        category_items_message("Books", false),
        "🗂️ Category: Books\n📭 No items in this category yet."
    );
}

#[test]
fn open_items_are_listed_before_closed_ones() {
    let entries = vec![
        (item(1, "Closed first", 100, false), None),
        (item(2, "Open with bid", 100, true), Some(250)),
        (item(3, "Closed with bid", 100, false), Some(300)),
        (item(4, "Open", 1234, true), None),
    ];
    assert_eq!(
        build_items_keyboard(&entries).inline_keyboard,
        vec![
            vec![button("AED 2.50 — Open with bid", "item:2")],
            vec![button("AED 12.34 — Open", "item:4")],
            vec![button("🔴 AED 1.00 — Closed first", "item:1")],
            vec![button("🔴 AED 3.00 — Closed with bid", "item:3")],
            vec![button("⬅️ Categories", "back:categories"), button("⬅️ Main menu", "menu:root")],
        ]
    );
    assert_eq!(
        build_items_keyboard(&Vec::new()).inline_keyboard,
        vec![vec![button("⬅️ Categories", "back:categories"), button("⬅️ Main menu", "menu:root")]]
    );
}

#[test]
fn long_button_texts_are_cut_to_forty_eight_characters() {
    let title = "An exceptionally long title that will not fit on a button";
    let entries = vec![(item(1, title, 100, true), None)];
    let label = build_items_keyboard(&entries).inline_keyboard[0][0].label.clone();
    assert_eq!(label.chars().count(), 48);
    assert_eq!(label, "AED 1.00 — An exceptionally long title that w...");
}

#[test]
fn truncation_counts_characters() {
    assert_eq!(truncate_button_text("short", 48), "short");
    assert_eq!(truncate_button_text("abcdef", 6), "abcdef");
    assert_eq!(truncate_button_text("abcdefg", 6), "abc...");
    assert_eq!(truncate_button_text("ééééééé", 6), "ééé...");
    assert_eq!(truncate_button_text("abcdefg", 4), "a...");
    assert_eq!(truncate_button_text("abcdefg", 3), "...");
    assert_eq!(truncate_button_text("abcdefg", 0), "...");
    assert_eq!(truncate_button_text("", 0), "");
}

#[test]
fn images_go_out_ten_at_a_time() {
    assert_eq!(send_item_images_chunk(0, 0), 0);
    assert_eq!(send_item_images_chunk(0, 3), 3);
    assert_eq!(send_item_images_chunk(0, 10), 10);
    assert_eq!(send_item_images_chunk(0, 25), 10);
    assert_eq!(send_item_images_chunk(10, 25), 20);
    assert_eq!(send_item_images_chunk(20, 25), 25);
    assert_eq!(send_item_images_chunk(25, 25), 25);
    assert_eq!(send_item_images_chunk(30, 25), 30);
    assert_eq!(send_item_images_chunk(usize::MAX - 1, usize::MAX), usize::MAX);

    assert_eq!(plan_image_page(25, 25), ImagePage::AllShown);
    assert_eq!(plan_image_page(0, 0), ImagePage::AllShown);
    assert_eq!(plan_image_page(25, 10), ImagePage::Batch { start: 10, end: 20, remaining: 5 });
    assert_eq!(plan_image_page(25, 20), ImagePage::Batch { start: 20, end: 25, remaining: 0 });
}

#[test]
fn more_images_are_offered_while_some_are_left() {
    let (text, keyboard) = send_more_images_prompt(7, 10, 25);
    assert_eq!(text, "📷 15 more photo(s) available.");
    assert_eq!(
        keyboard.inline_keyboard,
        vec![vec![button("Show more images (15)", "img:7:10")]]
    );
    let (text, keyboard) = send_more_images_prompt(7, 25, 25);
    assert_eq!(text, "📷 All images shown.");
    assert!(keyboard.inline_keyboard.is_empty());
    let (text, _) = send_more_images_prompt(7, 30, 25);
    assert_eq!(text, "📷 All images shown.");
}

#[test]
fn an_item_without_images_shows_its_cover() {
    let cover = "cover".to_string();
    assert_eq!(item_images(Vec::new(), Some(&cover)), vec!["cover".to_string()]);
    assert_eq!(item_images(vec!["a".to_string()], Some(&cover)), vec!["a".to_string()]);
    assert!(item_images(Vec::new(), None).is_empty());
}
