//! The conversations of all chats: at most one per chat, kept in memory
//! for as long as the process runs. A chat without an entry is idle.
//! Every change goes through exclusive access to the store, so that two
//! steps for one chat can never overwrite each other unseen.

use crate::state::ConversationState;
use crate::state::ConversationView;
use crate::state::StateChange;
use std::collections::HashMap;
use vstd::prelude::*;

verus! {

/// The conversations of all chats, by the number of the chat.
pub struct ConversationStore {
    chats: HashMap<i64, ConversationState>,
}

impl ConversationStore {
    /// The conversation of a chat; idle where the store holds none.
    pub closed spec fn state_of(&self, chat_id: i64) -> ConversationView {
        if self.chats@.contains_key(chat_id) {
            self.chats@[chat_id]@
        } else {
            ConversationView::Idle
        }
    }

    /// A store in which every chat is idle.
    pub fn new() -> (store: ConversationStore)
        ensures
            forall|chat_id: i64| #[trigger] store.state_of(chat_id) == ConversationView::Idle,
    {
        ConversationStore { chats: HashMap::new() }
    }

    /// The conversation of a chat.
    pub fn get(&self, chat_id: i64) -> (state: ConversationState)
        ensures
            state@ == self.state_of(chat_id),
    {
        match self.chats.get(&chat_id) {
            Some(state) => state.duplicate(),
            None => ConversationState::Idle,
        }
    }

    /// Puts a chat into the given conversation.
    pub fn set(&mut self, chat_id: i64, state: ConversationState)
        ensures
            final(self).state_of(chat_id) == state@,
            forall|other: i64|
                other != chat_id ==> #[trigger] final(self).state_of(other) == old(self).state_of(
                    other,
                ),
    {
        self.chats.insert(chat_id, state);
    }

    /// Returns a chat to idle and drops its draft.
    pub fn clear(&mut self, chat_id: i64)
        ensures
            final(self).state_of(chat_id) == ConversationView::Idle,
            forall|other: i64|
                other != chat_id ==> #[trigger] final(self).state_of(other) == old(self).state_of(
                    other,
                ),
    {
        self.chats.remove(&chat_id);
    }

    /// Applies the change of a step to the conversation of a chat; no
    /// other chat is touched.
    pub fn update(&mut self, chat_id: i64, change: StateChange)
        ensures
            final(self).state_of(chat_id) == change@.applied_to(old(self).state_of(chat_id)),
            forall|other: i64|
                other != chat_id ==> #[trigger] final(self).state_of(other) == old(self).state_of(
                    other,
                ),
    {
        match change {
            StateChange::Keep => {},
            StateChange::Reset => {
                self.clear(chat_id);
            },
            StateChange::Become(state) => {
                self.set(chat_id, state);
            },
        }
    }
}

} // verus!
