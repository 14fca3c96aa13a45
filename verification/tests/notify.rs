use auction_bot::models::ItemRow;
use auction_bot::notify::bidder_label;
use auction_bot::notify::broadcast_text;
use auction_bot::notify::closure_notice;
use auction_bot::notify::closure_recipients;
use auction_bot::notify::holds_id;
use auction_bot::notify::notify_item_closed;
use auction_bot::notify::Fanout;
use auction_bot::notify::NotificationEvent;
use auction_bot::notify::Recipient;

fn item() -> ItemRow {
    ItemRow {
        id: 2,
        seller_tg_id: 1,
        category_id: 1,
        title: "Lamp".to_string(),
        description: None,
        start_price: 100,
        image_file_id: None,
        is_open: false,
        is_new: false,
        created_at: 0,
    }
}

#[test]
fn mute_spares_users_all_but_announcements() {
    assert!(!NotificationEvent::Outbid.should_deliver(true));
    assert!(!NotificationEvent::NewBid.should_deliver(true));
    assert!(!NotificationEvent::AuctionClosed.should_deliver(true));
    assert!(NotificationEvent::AdminBroadcast.should_deliver(true));
    assert!(NotificationEvent::NewLots.should_deliver(true));
    for event in [
        NotificationEvent::Outbid,
        NotificationEvent::NewBid,
        NotificationEvent::AuctionClosed,
        NotificationEvent::AdminBroadcast,
        NotificationEvent::NewLots,
    ] {
        assert!(event.should_deliver(false));
    }
}

#[test]
fn broadcast_counts_deliveries_and_goes_on_after_failures() {
    let recipients: Vec<i64> = (1..=10).collect();
    let mut fanout = Fanout::new(recipients.clone());
    let mut tried = Vec::new();
    while let Some(user_id) = fanout.next_recipient() {
        tried.push(user_id);
        fanout.record(user_id != 3 && user_id != 7);
    }
    assert_eq!(tried, recipients);
    assert_eq!(fanout.delivered_count(), 8);
    assert_eq!(fanout.failed_count(), 2);
    assert_eq!(fanout.next_recipient(), None);
    fanout.record(true);
    assert_eq!(fanout.delivered_count(), 8);

    let outcomes = vec![true, true, false, true, true, true, false, true, true, true];
    assert_eq!(broadcast_text(recipients, &outcomes), 8);
}

#[test]
fn broadcast_to_nobody_delivers_nothing() {
    let mut fanout = Fanout::new(Vec::new());
    assert_eq!(fanout.next_recipient(), None);
    fanout.record(true);
    assert_eq!(fanout.delivered_count(), 0);
    assert_eq!(fanout.failed_count(), 0);
    assert_eq!(broadcast_text(Vec::new(), &Vec::new()), 0);
    assert_eq!(broadcast_text(vec![1, 2], &vec![false, false]), 0);
    assert_eq!(broadcast_text(vec![1, 2], &vec![true, true, true]), 2);
    assert_eq!(broadcast_text(vec![1, 2, 3], &vec![true]), 1);
}

#[test]
fn bidders_are_named_by_user_name_or_full_name() {
    assert_eq!(bidder_label(Some("carol"), "Carol", Some("Jones")), "@carol");
    assert_eq!(bidder_label(None, "Carol", Some("Jones")), "Carol Jones");
    assert_eq!(bidder_label(None, "Carol", None), "Carol");
}

#[test]
fn closure_goes_to_bidders_and_savers_once_each() {
    assert_eq!(closure_recipients(&vec![3, 1, 3], &vec![2, 1, 4, 4]), vec![3, 1, 2, 4]);
    assert_eq!(closure_recipients(&Vec::new(), &vec![5]), vec![5]);
    assert_eq!(closure_recipients(&vec![5], &Vec::new()), vec![5]);
    assert!(closure_recipients(&Vec::new(), &Vec::new()).is_empty());
    assert!(holds_id(&vec![1, 2], 2));
    assert!(!holds_id(&vec![1, 2], 3));
}

#[test]
fn closure_without_bids_says_so() {
    assert_eq!(
        closure_notice(&item(), None, 5),
        "🏁 Auction closed for item #2 (Lamp).\nThe item closed with no bids."
    );
    let notices = notify_item_closed(
        &item(),
        None,
        &vec![Recipient { user_id: 5, muted: false }, Recipient { user_id: 6, muted: true }],
    );
    assert_eq!(notices.len(), 1);
    assert_eq!(notices[0].user_id, 5);
    assert_eq!(
        notices[0].text,
        "🏁 Auction closed for item #2 (Lamp).\nThe item closed with no bids."
    );
    assert!(notify_item_closed(&item(), Some((1, 1)), &Vec::new()).is_empty());
}
