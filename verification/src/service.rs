//! The chat service: the five operations on chats, each scoped to its caller.

use crate::chat::views;
use crate::chat::Chat;
use crate::chat::CreateChat;
use crate::chat::Principal;
use crate::error::AppError;
use crate::model::ChatData;
use crate::model::StoreState;
use crate::store::ChatStore;
use vstd::prelude::*;

verus! {

/// Reads the system clock through `std::time::SystemTime::elapsed` on the Unix epoch
/// and gives the whole seconds since then, or nothing where the clock stands before
/// the epoch. Nothing is claimed of the value.
#[verifier::external_body]
fn seconds_since_epoch() -> (seconds: Option<u64>) {
    match std::time::UNIX_EPOCH.elapsed() {
        Ok(elapsed) => Some(elapsed.as_secs()),
        Err(_) => None,
    }
}

/// The service that owns the store and mediates every read and write of a chat. Its
/// view is that of the store, and as well formed.
pub struct ChatService {
    store: ChatStore,
}

impl View for ChatService {
    type V = StoreState;

    closed spec fn view(&self) -> StoreState {
        self.store@
    }
}

impl ChatService {
    /// A service over the given store.
    pub fn new(store: ChatStore) -> (service: Self)
        ensures
            service@ == store@,
            service@.wf(),
    {
        proof {
            use_type_invariant(&store);
        }
        ChatService { store }
    }

    /// Every chat of the caller's workspace, in the order of creation; none of another
    /// workspace.
    pub fn list(&self, principal: &Principal) -> (chats: Vec<Chat>)
        ensures
            self@.wf(),
            views(chats@) == self@.list(principal.workspace_id),
    {
        self.store.list_by_workspace(principal.workspace_id)
    }

    /// Creates a chat for the payload in `workspace_id`, created by `user_id` at the
    /// time `now`, and returns it with its identifier. A refused payload is reported as
    /// such and a store without identifiers left as an internal failure; neither
    /// changes the store.
    pub fn create_at(
        &mut self,
        input: CreateChat,
        user_id: u64,
        workspace_id: u64,
        now: u64,
    ) -> (result: Result<Chat, AppError>)
        ensures
            old(self)@.wf(),
            final(self)@.wf(),
            final(self)@ == old(self)@.after_insert(input@, user_id, workspace_id, now),
            match (result, old(self)@.insert_result(input@, user_id, workspace_id, now)) {
                (Ok(chat), Ok(expected)) => chat@ == expected,
                (Err(error), Err(refusal)) => error == AppError::of_store(refusal),
                _ => false,
            },
    {
        match self.store.insert(input, user_id, workspace_id, now) {
            Ok(chat) => Ok(chat),
            Err(refusal) => Err(AppError::from_store(refusal)),
        }
    }

    /// Creates a chat as `create_at` does, at the time the system clock shows: the
    /// seconds since the Unix epoch, or 0 where the clock stands before it. The chat
    /// returned carries that time.
    pub fn create(&mut self, input: CreateChat, user_id: u64, workspace_id: u64) -> (result: Result<
        Chat,
        AppError,
    >)
        ensures
            old(self)@.wf(),
            final(self)@.wf(),
            match (result, old(self)@.insert_refusal(input@)) {
                (Ok(chat), None) => {
                    &&& chat@ == ChatData::created(
                        old(self)@.next_id,
                        workspace_id,
                        user_id,
                        input@,
                        chat.created_at,
                    )
                    &&& final(self)@ == old(self)@.after_insert(
                        input@,
                        user_id,
                        workspace_id,
                        chat.created_at,
                    )
                },
                (Err(error), Some(refusal)) => {
                    &&& error == AppError::of_store(refusal)
                    &&& final(self)@ == old(self)@
                },
                _ => false,
            },
    {
        let now: u64 = match seconds_since_epoch() {
            Some(seconds) => seconds,
            None => 0,
        };
        self.create_at(input, user_id, workspace_id, now)
    }

    /// The chat with the given identifier, whatever its workspace, or nothing where
    /// there is none.
    pub fn get_by_id(&self, id: u64) -> (chat: Option<Chat>)
        ensures
            self@.wf(),
            match chat {
                Some(c) => self@.find(id) == Some(c@),
                None => self@.find(id) is None,
            },
    {
        self.store.find_by_id(id)
    }

    /// Gives the chat `id` the payload's name, members and shape, if `user_id` created
    /// it, and returns the revised chat. A chat that is missing and a chat of another
    /// user both give nothing, and leave the store as it was.
    pub fn update(&mut self, id: u64, user_id: u64, input: CreateChat) -> (result: Result<
        Option<Chat>,
        AppError,
    >)
        ensures
            old(self)@.wf(),
            final(self)@.wf(),
            final(self)@ == old(self)@.after_update(id, user_id, input@),
            match (result, old(self)@.update_result(id, user_id, input@)) {
                (Ok(Some(chat)), Ok(Some(expected))) => chat@ == expected,
                (Ok(None), Ok(None)) => true,
                (Err(error), Err(refusal)) => error == AppError::of_store(refusal),
                _ => false,
            },
    {
        match self.store.update_if_owned(id, user_id, input) {
            Ok(chat) => Ok(chat),
            Err(refusal) => Err(AppError::from_store(refusal)),
        }
    }

    /// Removes the chat `id`, if `user_id` created it, and returns its identifier. A
    /// chat that is missing and a chat of another user both give nothing, and leave
    /// the store as it was.
    pub fn delete(&mut self, id: u64, user_id: u64) -> (deleted: Option<u64>)
        ensures
            old(self)@.wf(),
            final(self)@.wf(),
            final(self)@ == old(self)@.after_delete(id, user_id),
            deleted == old(self)@.delete_result(id, user_id),
    {
        self.store.delete_if_owned(id, user_id)
    }
}

} // verus!
