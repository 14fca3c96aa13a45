use auction_bot::admin::AdminDraft;
use auction_bot::callbacks::begin_prompt;
use auction_bot::callbacks::favorite_answer;
use auction_bot::callbacks::find_category;
use auction_bot::callbacks::handle_callback_query;
use auction_bot::callbacks::handle_start;
use auction_bot::callbacks::pick_category;
use auction_bot::callbacks::pick_new_category;
use auction_bot::callbacks::select_bid;
use auction_bot::callbacks::toggle_notifications;
use auction_bot::callbacks::Ack;
use auction_bot::callbacks::BidSelection;
use auction_bot::callbacks::CallbackPlan;
use auction_bot::callbacks::ListKind;
use auction_bot::callbacks::PickOutcome;
use auction_bot::callbacks::Screen;
use auction_bot::models::CategoryRow;
use auction_bot::models::ItemRow;
use auction_bot::router::parse_action;
use auction_bot::router::FavoriteChange;
use auction_bot::state::AddItemDraft;
use auction_bot::state::BidDraft;
use auction_bot::state::ConversationState;
use auction_bot::state::DraftStage;
use auction_bot::state::StateChange;

fn plan(payload: &str, is_admin: bool, has_message: bool) -> CallbackPlan {
    handle_callback_query(parse_action(payload), 1, is_admin, has_message, &ConversationState::Idle)
}

fn item(is_open: bool) -> ItemRow {
    ItemRow {
        id: 4,
        seller_tg_id: 1,
        category_id: 1,
        title: "Vase".to_string(),
        description: None,
        start_price: 1,
        image_file_id: None,
        is_open,
        is_new: false,
        created_at: 0,
    }
}

#[test]
fn menus_reset_the_conversation() {
    for (payload, screen) in [
        ("menu:root", Screen::MainMenu),
        ("menu:catalogue", Screen::Catalogue),
        ("menu:settings", Screen::Settings),
    ] {
        for has_message in [true, false] {
            let planned = plan(payload, false, has_message);
            assert_eq!(planned, CallbackPlan::Open(screen));
            assert_eq!(planned.change(1), StateChange::Reset);
            assert_eq!(planned.answer(), None);
        }
    }
}

#[test]
fn the_admin_panel_is_for_admins() {
    assert_eq!(plan("menu:admin", true, true), CallbackPlan::Open(Screen::AdminPanel));
    let denied = plan("menu:admin", false, true);
    assert_eq!(denied, CallbackPlan::Deny);
    assert_eq!(denied.change(1), StateChange::Keep);
    assert_eq!(denied.answer(), Some(Ack::AdminsOnly));
    for payload in [
        "admin:add_category",
        "admin:add_item",
        "admin:remove_item",
        "admin:remove_category",
        "admin:close_item",
        "admin:broadcast",
        "admin:notify_new",
        "admin:whatever",
    ] {
        assert_eq!(plan(payload, false, true), CallbackPlan::Deny);
        assert_eq!(plan(payload, false, false), CallbackPlan::Deny);
    }
    assert_eq!(plan("admin:whatever", true, true), CallbackPlan::Nothing);
}

#[test]
fn admin_actions_begin_their_drafts() {
    let cases = [
        ("admin:add_category", AdminDraft::AddCategory, Ack::WaitingCategoryName),
        ("admin:remove_item", AdminDraft::RemoveItem, Ack::AwaitingRemoveItem),
        ("admin:remove_category", AdminDraft::RemoveCategory, Ack::AwaitingRemoveCategory),
        ("admin:close_item", AdminDraft::CloseItem, Ack::AwaitingItemId),
        ("admin:broadcast", AdminDraft::Broadcast, Ack::WaitingAnnouncement),
    ];
    for (payload, kind, ack) in cases {
        let planned = plan(payload, true, false);
        assert_eq!(planned, CallbackPlan::Begin(kind));
        assert_eq!(planned.change(5), StateChange::Become(kind.begin(5)));
        assert_eq!(planned.answer(), Some(ack));
    }
    let planned = plan("admin:add_item", true, true);
    assert_eq!(planned, CallbackPlan::BeginItem);
    assert_eq!(planned.answer(), Some(Ack::StartingItem));
    match planned.change(5) {
        StateChange::Become(ConversationState::AddItem(draft)) => {
            assert_eq!(draft, AddItemDraft::new(5, None));
            assert_eq!(draft.stage, DraftStage::Category);
        }
        other => panic!("unexpected {:?}", other),
    }
    let planned = plan("admin:notify_new", true, true);
    assert_eq!(planned, CallbackPlan::AnnounceNewLots);
    assert_eq!(planned.change(5), StateChange::Reset);
}

#[test]
fn what_is_shown_needs_a_message() {
    assert_eq!(plan("menu:favorites", false, true), CallbackPlan::Send(ListKind::Favorites));
    assert_eq!(plan("menu:my_bids", false, true), CallbackPlan::Send(ListKind::MyBids));
    assert_eq!(plan("menu:favorites", false, true).answer(), Some(Ack::SentFavorites));
    assert_eq!(plan("menu:my_bids", false, true).answer(), Some(Ack::SentBids));
    assert_eq!(plan("pickcat:new", false, true), CallbackPlan::PickNewCategory);
    assert_eq!(plan("pickcat:3", false, true), CallbackPlan::PickCategory(3));
    assert_eq!(plan("cat:3", false, true), CallbackPlan::ShowCategory(3));
    assert_eq!(plan("item:3", false, true), CallbackPlan::ShowItem(3));
    assert_eq!(plan("img:3:10", false, true), CallbackPlan::ShowImages { item_id: 3, offset: 10 });
    assert_eq!(plan("back:categories", false, true), CallbackPlan::ShowCategories);
    for payload in [
        "menu:favorites",
        "menu:my_bids",
        "pickcat:new",
        "pickcat:3",
        "cat:3",
        "item:3",
        "img:3:10",
        "back:categories",
    ] {
        let planned = plan(payload, true, false);
        assert_eq!(planned, CallbackPlan::Nothing);
        assert_eq!(planned.change(1), StateChange::Keep);
        assert_eq!(planned.answer(), None);
    }
}

#[test]
fn bids_favourites_and_settings_need_no_message() {
    assert_eq!(plan("bid:4", false, false), CallbackPlan::SelectBid(4));
    assert_eq!(
        plan("fav:add:4", false, false),
        CallbackPlan::Favorite { change: FavoriteChange::Add, item_id: 4 }
    );
    assert_eq!(plan("settings:toggle_notifications", false, false), CallbackPlan::ToggleNotifications);
    assert_eq!(plan("nonsense", true, true), CallbackPlan::Nothing);
}

#[test]
fn answers_have_their_words() {
    assert_eq!(Ack::AdminsOnly.message(), "🛡️ Admins only.");
    assert_eq!(Ack::SentFavorites.message(), "⭐ Sent your favorites.");
    assert_eq!(Ack::SentBids.message(), "🪙 Sent your bids.");
    assert_eq!(Ack::WaitingCategoryName.message(), "🆕 Waiting for category name.");
    assert_eq!(Ack::StartingItem.message(), "📦 Starting item creation.");
    assert_eq!(Ack::AwaitingRemoveItem.message(), "🗑 Awaiting item ID to remove.");
    assert_eq!(Ack::AwaitingRemoveCategory.message(), "🗑 Awaiting category ID to remove.");
    assert_eq!(Ack::AwaitingItemId.message(), "🛑 Awaiting item ID.");
    assert_eq!(Ack::WaitingAnnouncement.message(), "📢 Waiting for announcement text.");
    assert_eq!(Ack::NoNewLots.message(), "🔔 No new lots.");
    assert_eq!(Ack::NoUsers.message(), "🔔 No users registered.");
    assert_eq!(Ack::NotificationSent.message(), "🔔 Notification sent.");
    assert_eq!(Ack::CategorySelected.message(), "🗂️ Category selected.");
    assert_eq!(Ack::CategoryNotFound.message(), "❓ Category not found");
    assert_eq!(Ack::ItemNotFound.message(), "❓ Item not found");
    assert_eq!(Ack::AllImagesShown.message(), "📷 All images already shown.");
    assert_eq!(Ack::SentMorePhotos.message(), "📷 Sent more photos.");
    assert_eq!(Ack::AuctionClosed.message(), "🔒 Auction is closed");
    assert_eq!(Ack::AddedFavorite.message(), "⭐ Added to favorites");
    assert_eq!(Ack::RemovedFavorite.message(), "❌ Removed from favorites");
    assert_eq!(Ack::Muted.message(), "🔕 Notifications muted.");
    assert_eq!(Ack::Enabled.message(), "🔔 Notifications enabled.");
    assert_eq!(
        Ack::DraftInProgress.message(),
        "Only the one who started the action in progress can respond."
    );
}

#[test]
fn drafts_begin_with_their_prompts() {
    assert_eq!(begin_prompt(AdminDraft::AddCategory), "🆕 Send the new category name:");
    assert_eq!(
        begin_prompt(AdminDraft::RemoveItem),
        "🗑 Send the item ID to remove (bids and favorites will also be removed). Type cancel to stop."
    );
    assert_eq!(
        begin_prompt(AdminDraft::RemoveCategory),
        "🗑 Send the category ID to remove (all items, bids, and favorites under it will be deleted). Type cancel to stop."
    );
    assert_eq!(begin_prompt(AdminDraft::CloseItem), "🛑 Send the item ID to close:");
    assert_eq!(
        begin_prompt(AdminDraft::Broadcast),
        "📢 Send the announcement text to broadcast to all users."
    );
}

#[test]
fn picking_a_category_moves_the_draft_to_its_title() {
    let books = CategoryRow { id: 3, name: "Books".to_string() };
    let mut draft = AddItemDraft::new(5, None);
    draft.image_file_ids.push("photo-1".to_string());
    let picked = pick_category(ConversationState::AddItem(draft.clone()), 5, false, Some(books.clone()));
    assert_eq!(picked.answer(true), Ack::CategorySelected);
    assert_eq!(picked.prompt(true), Some("📝 Enter item title:"));
    match picked.into_state_change() {
        StateChange::Become(ConversationState::AddItem(next)) => {
            assert_eq!(next.stage, DraftStage::Title);
            assert_eq!(next.category_id, Some(3));
            assert_eq!(next.category_name, Some("Books".to_string()));
            assert_eq!(next.image_file_ids, vec!["photo-1".to_string()]);
            assert_eq!(next.seller_tg_id, 5);
        }
        other => panic!("unexpected {:?}", other),
    }

    let fresh = pick_category(ConversationState::Idle, 6, true, Some(books.clone()));
    match fresh {
        PickOutcome::Continue(next) => {
            assert_eq!(next.seller_tg_id, 6);
            assert_eq!(next.stage, DraftStage::Title);
            assert_eq!(next.category_id, Some(3));
        }
        other => panic!("unexpected {:?}", other),
    }
}

#[test]
fn the_picker_respects_owner_and_admins() {
    let books = CategoryRow { id: 3, name: "Books".to_string() };
    let state = ConversationState::AddItem(AddItemDraft::new(5, None));

    let stranger = pick_category(state.clone(), 6, true, Some(books.clone()));
    assert_eq!(stranger, PickOutcome::NotOwner);
    assert_eq!(stranger.answer(true), Ack::DraftInProgress);
    assert_eq!(stranger.prompt(true), None);
    assert_eq!(stranger.into_state_change().apply(state.clone()), state);

    let user = pick_category(ConversationState::Idle, 6, false, Some(books.clone()));
    assert_eq!(user, PickOutcome::Denied);
    assert_eq!(user.answer(true), Ack::AdminsOnly);
    assert_eq!(user.into_state_change(), StateChange::Keep);

    let missing = pick_category(state.clone(), 5, true, None);
    assert_eq!(missing, PickOutcome::NotFound);
    assert_eq!(missing.answer(true), Ack::CategoryNotFound);
    assert_eq!(missing.into_state_change(), StateChange::Keep);

    assert_eq!(pick_new_category(state.clone(), 6, true), PickOutcome::NotOwner);
    assert_eq!(pick_new_category(ConversationState::Idle, 6, false), PickOutcome::Denied);
    let kept = pick_new_category(state.clone(), 5, false);
    assert_eq!(kept, PickOutcome::Continue(AddItemDraft::new(5, None)));
    assert_eq!(kept.answer(false), Ack::WaitingCategoryName);
    assert_eq!(kept.prompt(false), Some("🆕 Send the new category name (or type cancel)."));
    let begun = pick_new_category(
        ConversationState::PlaceBid(BidDraft { item_id: 1, bidder_tg_id: 6 }),
        6,
        true,
    );
    assert_eq!(begun, PickOutcome::Continue(AddItemDraft::new(6, None)));
    let foreign = pick_new_category(
        ConversationState::PlaceBid(BidDraft { item_id: 1, bidder_tg_id: 5 }),
        6,
        true,
    );
    assert_eq!(foreign, PickOutcome::NotOwner);
}

#[test]
fn categories_are_found_by_number() {
    let categories = vec![
        CategoryRow { id: 4, name: "a".to_string() },
        CategoryRow { id: 2, name: "b".to_string() },
        CategoryRow { id: 4, name: "c".to_string() },
    ];
    assert_eq!(find_category(&categories, 4), Some(0));
    assert_eq!(find_category(&categories, 2), Some(1));
    assert_eq!(find_category(&categories, 3), None);
    assert_eq!(find_category(&Vec::new(), 4), None);
}

#[test]
fn a_bid_begins_on_open_items_only() {
    let idle = ConversationState::Idle;
    let open = item(true);
    let selection = select_bid(&idle, Some(&open), 4, 11);
    assert_eq!(selection, BidSelection::Begin(BidDraft { item_id: 4, bidder_tg_id: 11 }));
    assert_eq!(
        selection.change(),
        StateChange::Become(ConversationState::PlaceBid(BidDraft { item_id: 4, bidder_tg_id: 11 }))
    );
    assert_eq!(selection.answer(), None);
    assert_eq!(
        selection.prompt(),
        Some("Enter your bid for item #4 in 0.00 format:".to_string())
    );

    let closed = item(false);
    let selection = select_bid(&idle, Some(&closed), 4, 11);
    assert_eq!(selection, BidSelection::Closed);
    assert_eq!(selection.change(), StateChange::Keep);
    assert_eq!(selection.answer(), Some(Ack::AuctionClosed));
    assert_eq!(selection.prompt(), None);

    let selection = select_bid(&idle, None, 4, 11);
    assert_eq!(selection, BidSelection::NotFound);
    assert_eq!(selection.answer(), Some(Ack::ItemNotFound));

    let own = ConversationState::CloseItem { admin_tg_id: 11 };
    assert_eq!(
        select_bid(&own, Some(&open), 4, 11),
        BidSelection::Begin(BidDraft { item_id: 4, bidder_tg_id: 11 })
    );
    let foreign = ConversationState::CloseItem { admin_tg_id: 12 };
    let selection = select_bid(&foreign, Some(&open), 4, 11);
    assert_eq!(selection, BidSelection::NotOwner);
    assert_eq!(selection.change(), StateChange::Keep);
    assert_eq!(selection.answer(), Some(Ack::DraftInProgress));
    assert_eq!(selection.prompt(), None);
}

#[test]
fn inline_actions_of_others_leave_a_draft_alone() {
    let drafts = vec![
        ConversationState::AddItem(AddItemDraft::new(5, None)),
        ConversationState::PlaceBid(BidDraft { item_id: 1, bidder_tg_id: 5 }),
        ConversationState::AddCategory { admin_tg_id: 5 },
        ConversationState::CloseItem { admin_tg_id: 5 },
        ConversationState::RemoveItem { admin_tg_id: 5 },
        ConversationState::RemoveCategory { admin_tg_id: 5 },
        ConversationState::Broadcast { admin_tg_id: 5 },
    ];
    let payloads = [
        "menu:root", "menu:catalogue", "menu:favorites", "menu:my_bids", "menu:settings",
        "menu:admin", "admin:add_category", "admin:add_item", "admin:remove_item",
        "admin:remove_category", "admin:close_item", "admin:broadcast", "admin:notify_new",
        "pickcat:new", "pickcat:1", "cat:1", "item:1", "img:1:0", "back:categories", "bid:1",
        "fav:add:1", "fav:remove:1", "settings:toggle_notifications", "junk",
    ];
    for state in drafts {
        for payload in payloads {
            for is_admin in [true, false] {
                for has_message in [true, false] {
                    let action = parse_action(payload);
                    let theirs = handle_callback_query(action, 6, is_admin, has_message, &state);
                    assert!(!theirs.changes_conversation(), "{} {:?}", payload, theirs);
                    assert_eq!(theirs.change(6).apply(state.clone()), state);
                    let own = handle_callback_query(action, 5, is_admin, has_message, &state);
                    let free = handle_callback_query(
                        action,
                        5,
                        is_admin,
                        has_message,
                        &ConversationState::Idle,
                    );
                    assert_eq!(own, free);
                    assert_ne!(own, CallbackPlan::NotOwner);
                }
            }
        }
        assert_eq!(handle_start(&state, 6), StateChange::Keep);
        assert_eq!(handle_start(&state, 5), StateChange::Reset);
    }
    assert_eq!(handle_start(&ConversationState::Idle, 6), StateChange::Reset);
    let blocked = handle_callback_query(
        parse_action("menu:root"),
        6,
        true,
        true,
        &ConversationState::CloseItem { admin_tg_id: 5 },
    );
    assert_eq!(blocked, CallbackPlan::NotOwner);
    assert_eq!(blocked.answer(), Some(Ack::DraftInProgress));
    let shown = handle_callback_query(
        parse_action("item:3"),
        6,
        false,
        true,
        &ConversationState::CloseItem { admin_tg_id: 5 },
    );
    assert_eq!(shown, CallbackPlan::ShowItem(3));
}

#[test]
fn switches_answer_with_the_new_setting() {
    assert_eq!(toggle_notifications(false), (true, Ack::Muted));
    assert_eq!(toggle_notifications(true), (false, Ack::Enabled));
    assert_eq!(favorite_answer(FavoriteChange::Add), Some(Ack::AddedFavorite));
    assert_eq!(favorite_answer(FavoriteChange::Remove), Some(Ack::RemovedFavorite));
    assert_eq!(favorite_answer(FavoriteChange::Nothing), None);
}
