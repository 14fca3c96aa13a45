use auction_bot::state::AddItemDraft;
use auction_bot::state::BidDraft;
use auction_bot::state::ConversationState;
use auction_bot::state::DraftStage;
use auction_bot::state::StateChange;

#[test]
fn new_draft_starts_with_category_stage() {
    let draft = AddItemDraft::new(1, None);
    assert_eq!(draft.stage, DraftStage::Category);
    assert_eq!(draft.seller_tg_id, 1);
    assert!(draft.image_file_id.is_none());
}

#[test]
fn new_draft_is_empty_but_for_its_first_image() {
    let draft = AddItemDraft::new(9, None);
    assert!(draft.image_file_ids.is_empty());
    assert_eq!(draft.category_id, None);
    assert_eq!(draft.category_name, None);
    assert_eq!(draft.title, None);
    assert_eq!(draft.description, None);
    assert_eq!(draft.start_price, None);

    let pictured = AddItemDraft::new(9, Some("file-1".to_string()));
    assert_eq!(pictured.stage, DraftStage::Category);
    assert_eq!(pictured.image_file_id, Some("file-1".to_string()));
    assert_eq!(pictured.image_file_ids, vec!["file-1".to_string()]);
}

#[test]
fn default_conversation_is_idle() {
    assert_eq!(ConversationState::default(), ConversationState::Idle);
}

#[test]
fn state_changes_apply() {
    let bid = ConversationState::PlaceBid(BidDraft { item_id: 3, bidder_tg_id: 4 });
    assert_eq!(StateChange::Keep.apply(bid.clone()), bid);
    assert_eq!(StateChange::Reset.apply(bid.clone()), ConversationState::Idle);
    let next = ConversationState::CloseItem { admin_tg_id: 8 };
    assert_eq!(StateChange::Become(next.clone()).apply(bid), next);
}

#[test]
fn copies_equal_what_they_copy() {
    let mut draft = AddItemDraft::new(1, Some("a".to_string()));
    draft.image_file_ids.push("b".to_string());
    draft.title = Some("Lamp".to_string());
    draft.stage = DraftStage::Description;
    assert_eq!(draft.duplicate(), draft);
    let state = ConversationState::AddItem(draft);
    assert_eq!(state.duplicate(), state);
    assert_eq!(ConversationState::Idle.duplicate(), ConversationState::Idle);
    let broadcast = ConversationState::Broadcast { admin_tg_id: 2 };
    assert_eq!(broadcast.duplicate(), broadcast);
}
