use auction_bot::auctions::Auctions;
use auction_bot::bidding::BidError;
use auction_bot::ledger::Placed;
use auction_bot::money::MoneyError;

#[test]
fn auction_scenario_across_the_engine() {
    let mut auctions = Auctions::new();
    assert!(auctions.open_item(4, 5000));
    assert_eq!(auctions.best_bid(4), None);
    assert_eq!(auctions.is_open(4), Some(true));

    assert_eq!(auctions.place_bid(4, 1, "40.00"), Err(BidError::BelowStart(5000)));
    assert_eq!(auctions.best_bid(4), None);
    assert_eq!(
        auctions.place_bid(4, 1, "50.00"),
        Ok(Placed { amount: 5000, previous_best: None })
    );
    assert_eq!(auctions.best_bid(4), Some((1, 5000)));
    assert_eq!(auctions.place_bid(4, 2, "50.00"), Err(BidError::TooLow(5000)));
    assert_eq!(auctions.best_bid(4), Some((1, 5000)));
    assert_eq!(
        auctions.place_bid(4, 3, "60.00"),
        Ok(Placed { amount: 6000, previous_best: Some((1, 5000)) })
    );
    assert_eq!(auctions.best_bid(4), Some((3, 6000)));
}

#[test]
fn bids_name_their_item() {
    let mut auctions = Auctions::new();
    assert!(auctions.open_item(1, 100));
    assert!(auctions.open_item(2, 0));
    assert!(!auctions.open_item(1, 7));
    assert!(!auctions.open_item(3, -1));
    assert_eq!(auctions.is_open(3), None);

    assert_eq!(auctions.place_bid(9, 1, "5"), Err(BidError::NotFound));
    assert_eq!(
        auctions.place_bid(9, 1, "five"),
        Err(BidError::InvalidAmount(MoneyError::InvalidFormat))
    );
    assert_eq!(auctions.place_bid(2, 1, "5"), Ok(Placed { amount: 500, previous_best: None }));
    assert_eq!(auctions.best_bid(1), None);
    assert_eq!(auctions.best_bid(2), Some((1, 500)));
    assert_eq!(auctions.best_bid(9), None);
    assert_eq!(auctions.place_bid(1, 2, "1"), Ok(Placed { amount: 100, previous_best: None }));
    assert_eq!(auctions.best_bid(2), Some((1, 500)));
}

#[test]
fn closing_happens_once() {
    let mut auctions = Auctions::new();
    assert!(auctions.open_item(1, 100));
    assert_eq!(auctions.place_bid(1, 5, "75.00"), Ok(Placed { amount: 7500, previous_best: None }));
    assert_eq!(auctions.close_item(1), Some(true));
    assert_eq!(auctions.is_open(1), Some(false));
    assert_eq!(auctions.place_bid(1, 6, "80"), Err(BidError::Closed));
    assert_eq!(auctions.best_bid(1), Some((5, 7500)));
    assert_eq!(auctions.close_item(1), Some(false));
    assert_eq!(auctions.is_open(1), Some(false));
    assert_eq!(auctions.close_item(2), None);
    assert!(!auctions.open_item(1, 100));
}
