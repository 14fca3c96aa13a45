use auction_bot::callbacks::Ack;
use auction_bot::callbacks::ListKind;
use auction_bot::lists::item_ids;
use auction_bot::lists::list_header;
use auction_bot::lists::new_lots_announcement;
use auction_bot::lists::new_lots_report;
use auction_bot::lists::plan_new_lots;
use auction_bot::lists::NewLots;
use auction_bot::models::ItemRow;

fn item(id: i64, title: &str, start_price: i64) -> ItemRow {
    ItemRow {
        id,
        seller_tg_id: 1,
        category_id: 1,
        title: title.to_string(),
        description: None,
        start_price,
        image_file_id: None,
        is_open: true,
        is_new: true,
        created_at: 0,
    }
}

#[test]
fn lists_have_their_headers() {
    assert_eq!(list_header(ListKind::Favorites, 0), "⭐ No favorites yet.");
    assert_eq!(list_header(ListKind::Favorites, 3), "⭐ Favorites (3):");
    assert_eq!(list_header(ListKind::MyBids, 0), "🪙 You have not placed any bids yet.");
    assert_eq!(list_header(ListKind::MyBids, 12), "🪙 Active bids (12 items):");
}

#[test]
fn new_lots_need_lots_and_users() {
    assert_eq!(plan_new_lots(0, 0), NewLots::NoLots);
    assert_eq!(plan_new_lots(0, 5), NewLots::NoLots);
    assert_eq!(plan_new_lots(2, 0), NewLots::NoUsers);
    assert_eq!(plan_new_lots(2, 5), NewLots::Announce);
    assert_eq!(NewLots::NoLots.reply(), Some("🔔 No new lots are marked for notification."));
    assert_eq!(NewLots::NoUsers.reply(), Some("🔔 No users are registered to receive the update."));
    assert_eq!(NewLots::Announce.reply(), None);
    assert_eq!(NewLots::NoLots.answer(), Ack::NoNewLots);
    assert_eq!(NewLots::NoUsers.answer(), Ack::NoUsers);
    assert_eq!(NewLots::Announce.answer(), Ack::NotificationSent);
}

#[test]
fn new_lots_are_announced_line_by_line() {
    let items = vec![item(3, "Vase", 5000), item(9, "Old map", 1250)];
    assert_eq!(
        new_lots_announcement(&items),
        "🆕 New lots available!\n\n• #3 Vase — start AED 50.00\n• #9 Old map — start AED 12.50\n"
    );
    assert_eq!(new_lots_announcement(&Vec::new()), "🆕 New lots available!\n\n");
    assert_eq!(new_lots_report(8, 2), "🔔 Notified 8 user(s) about 2 new lot(s).");
    assert_eq!(item_ids(&items), vec![3, 9]);
    assert!(item_ids(&Vec::new()).is_empty());
}
