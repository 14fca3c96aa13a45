use auction_bot::state::AddItemDraft;
use auction_bot::state::BidDraft;
use auction_bot::state::ConversationState;
use auction_bot::state::StateChange;
use auction_bot::store::ConversationStore;

#[test]
fn every_chat_starts_idle() {
    let store = ConversationStore::new();
    assert_eq!(store.get(1), ConversationState::Idle);
    assert_eq!(store.get(-1), ConversationState::Idle);
}

#[test]
fn chats_keep_their_own_conversations() {
    let mut store = ConversationStore::new();
    let draft = ConversationState::AddItem(AddItemDraft::new(1, Some("p".to_string())));
    let bid = ConversationState::PlaceBid(BidDraft { item_id: 2, bidder_tg_id: 3 });
    store.set(10, draft.clone());
    store.set(20, bid.clone());
    assert_eq!(store.get(10), draft);
    assert_eq!(store.get(20), bid);
    assert_eq!(store.get(30), ConversationState::Idle);

    store.set(10, bid.clone());
    assert_eq!(store.get(10), bid);
    assert_eq!(store.get(20), bid);

    store.clear(10);
    assert_eq!(store.get(10), ConversationState::Idle);
    assert_eq!(store.get(20), bid);
    store.clear(10);
    store.clear(99);
    assert_eq!(store.get(20), bid);
}

#[test]
fn updates_apply_the_change_of_a_step() {
    let mut store = ConversationStore::new();
    let close = ConversationState::CloseItem { admin_tg_id: 1 };
    store.update(5, StateChange::Become(close.clone()));
    assert_eq!(store.get(5), close);
    store.update(5, StateChange::Keep);
    assert_eq!(store.get(5), close);
    store.update(6, StateChange::Keep);
    assert_eq!(store.get(6), ConversationState::Idle);
    store.update(5, StateChange::Reset);
    assert_eq!(store.get(5), ConversationState::Idle);
    store.update(5, StateChange::Reset);
    assert_eq!(store.get(5), ConversationState::Idle);
}
