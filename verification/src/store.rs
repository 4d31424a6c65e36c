//! An in-memory chat store with the five storage primitives.

use crate::chat::views;
use crate::chat::Chat;
use crate::chat::CreateChat;
use crate::error::StoreError;
use crate::filtering::lemma_filter_all;
use crate::filtering::lemma_filter_first;
use crate::filtering::lemma_filter_none;
use crate::filtering::lemma_filter_push;
use crate::filtering::lemma_filter_remove;
use crate::model::has_id;
use crate::model::in_workspace;
use crate::model::not_owned;
use crate::model::owned;
use crate::model::revise_owned;
use crate::model::ChatData;
use crate::model::StoreState;
use vstd::prelude::*;

verus! {

/// The chats of every workspace, in the order of their creation. The view of a store is
/// always well formed: no identifier is shared, and none reaches the next to be
/// assigned. A method that changes the chats takes the vector out of the store, changes
/// it and puts it back, so that the store is well formed at every step in between.
pub struct ChatStore {
    chats: Vec<Chat>,
    next_id: u64,
}

impl View for ChatStore {
    type V = StoreState;

    closed spec fn view(&self) -> StoreState {
        StoreState { chats: views(self.chats@), next_id: self.next_id }
    }
}

impl ChatStore {
    /// What holds of every store: its view is well formed.
    #[verifier::type_invariant]
    pub open spec fn well_formed(self) -> bool {
        self@.wf()
    }

    /// An empty store whose first chat will get the identifier 1.
    pub fn new() -> (store: Self)
        ensures
            store@ == StoreState::starting_at(1),
            store@.wf(),
    {
        Self::starting_at(1)
    }

    /// An empty store whose first chat will get the identifier `first_id`.
    pub fn starting_at(first_id: u64) -> (store: Self)
        ensures
            store@ == StoreState::starting_at(first_id),
            store@.wf(),
    {
        let store = ChatStore { chats: Vec::new(), next_id: first_id };
        assert(store@.chats =~= Seq::<ChatData>::empty());
        store
    }

    /// The position of the chat with the given identifier.
    fn position(&self, id: u64) -> (found: Option<usize>)
        ensures
            match found {
                Some(k) => k < self@.chats.len() && has_id(id)(self@.chats[k as int])
                    && forall|j: int| 0 <= j < k ==> !has_id(id)(#[trigger] self@.chats[j]),
                None => forall|j: int|
                    0 <= j < self@.chats.len() ==> !has_id(id)(#[trigger] self@.chats[j]),
            },
    {
        let mut i: usize = 0;
        while i < self.chats.len()
            invariant
                i <= self.chats.len(),
                forall|j: int| 0 <= j < i ==> !has_id(id)(#[trigger] self@.chats[j]),
            decreases self.chats.len() - i,
        {
            if self.chats[i].id == id {
                return Some(i);
            }
            i += 1;
        }
        None
    }

    /// The position of the chat with the given identifier, if the given user created it.
    fn position_owned(&self, id: u64, user_id: u64) -> (found: Option<usize>)
        ensures
            match found {
                Some(k) => k < self@.chats.len() && owned(id, user_id)(self@.chats[k as int])
                    && forall|j: int|
                    0 <= j < self@.chats.len() && j != k ==> !owned(id, user_id)(
                        #[trigger] self@.chats[j],
                    ),
                None => forall|j: int|
                    0 <= j < self@.chats.len() ==> !owned(id, user_id)(#[trigger] self@.chats[j]),
            },
    {
        proof {
            use_type_invariant(self);
        }
        let mut i: usize = 0;
        while i < self.chats.len()
            invariant
                self@.wf(),
                i <= self.chats.len(),
                forall|j: int| 0 <= j < i ==> !owned(id, user_id)(#[trigger] self@.chats[j]),
            decreases self.chats.len() - i,
        {
            if self.chats[i].id == id && self.chats[i].created_by == user_id {
                return Some(i);
            }
            i += 1;
        }
        None
    }

    /// Every chat of the workspace, in the order of creation.
    pub fn list_by_workspace(&self, workspace_id: u64) -> (chats: Vec<Chat>)
        ensures
            self@.wf(),
            views(chats@) == self@.list(workspace_id),
    {
        proof {
            use_type_invariant(self);
        }
        let ghost all = self@.chats;
        let ghost keep = in_workspace(workspace_id);
        let mut out: Vec<Chat> = Vec::new();
        let mut i: usize = 0;
        proof {
            lemma_filter_none(all.take(0), keep);
            assert(views(out@) =~= all.take(0).filter(keep));
        }
        while i < self.chats.len()
            invariant
                i <= self.chats.len(),
                all == self@.chats,
                keep == in_workspace(workspace_id),
                views(out@) == all.take(i as int).filter(keep),
            decreases self.chats.len() - i,
        {
            proof {
                assert(all.take(i + 1) =~= all.take(i as int).push(all[i as int]));
                lemma_filter_push(all.take(i as int), all[i as int], keep);
            }
            if self.chats[i].workspace_id == workspace_id {
                let copy = self.chats[i].clone();
                let ghost before = out@;
                out.push(copy);
                assert(views(out@) =~= views(before).push(copy@));
            }
            i += 1;
        }
        assert(all.take(i as int) =~= all);
        out
    }

    /// The chat with the given identifier, whatever its workspace.
    pub fn find_by_id(&self, id: u64) -> (chat: Option<Chat>)
        ensures
            self@.wf(),
            match chat {
                Some(c) => self@.find(id) == Some(c@),
                None => self@.find(id) is None,
            },
    {
        proof {
            use_type_invariant(self);
        }
        match self.position(id) {
            Some(k) => {
                proof {
                    lemma_filter_first(self@.chats, has_id(id), k as int);
                }
                Some(self.chats[k].clone())
            },
            None => {
                proof {
                    lemma_filter_none(self@.chats, has_id(id));
                }
                None
            },
        }
    }

    /// Stores a new chat for the payload, owned by `user_id` in `workspace_id` and
    /// stamped `now`, and returns it with the identifier it was given. A payload
    /// without a name or without members is refused, and so is any payload once the
    /// identifiers have run out; a refused insertion leaves the store as it was.
    pub fn insert(&mut self, input: CreateChat, user_id: u64, workspace_id: u64, now: u64) -> (result:
        Result<Chat, StoreError>)
        ensures
            old(self)@.wf(),
            final(self)@.wf(),
            final(self)@ == old(self)@.after_insert(input@, user_id, workspace_id, now),
            match (result, old(self)@.insert_result(input@, user_id, workspace_id, now)) {
                (Ok(chat), Ok(expected)) => chat@ == expected,
                (Err(error), Err(refusal)) => error == refusal,
                _ => false,
            },
    {
        proof {
            use_type_invariant(&*self);
        }
        if !input.is_valid() {
            return Err(StoreError::InvalidInput);
        }
        if self.next_id == u64::MAX {
            return Err(StoreError::Exhausted);
        }
        let id: u64 = self.next_id;
        let chat = Chat {
            id,
            workspace_id,
            name: input.name,
            chat_type: input.chat_type,
            members: input.members,
            created_by: user_id,
            created_at: now,
        };
        let copy = chat.clone();
        let mut chats: Vec<Chat> = Vec::new();
        core::mem::swap(&mut self.chats, &mut chats);
        chats.push(chat);
        self.next_id = id + 1;
        assert(views(chats@) =~= old(self)@.chats.push(chat@));
        core::mem::swap(&mut self.chats, &mut chats);
        Ok(copy)
    }

    /// Gives the chat `id` the payload's name, members and shape if `user_id` created
    /// it, and returns the revised chat. Where no such chat exists, or another user
    /// created it, nothing is returned and nothing changes. A payload without a name
    /// or without members is refused once the chat has been found.
    pub fn update_if_owned(&mut self, id: u64, user_id: u64, input: CreateChat) -> (result: Result<
        Option<Chat>,
        StoreError,
    >)
        ensures
            old(self)@.wf(),
            final(self)@.wf(),
            final(self)@ == old(self)@.after_update(id, user_id, input@),
            match (result, old(self)@.update_result(id, user_id, input@)) {
                (Ok(Some(chat)), Ok(Some(expected))) => chat@ == expected,
                (Ok(None), Ok(None)) => true,
                (Err(error), Err(refusal)) => error == refusal,
                _ => false,
            },
    {
        proof {
            use_type_invariant(&*self);
        }
        let ghost before = self@.chats;
        let ghost revise = revise_owned(id, user_id, input@);
        match self.position_owned(id, user_id) {
            None => {
                proof {
                    lemma_filter_none(before, owned(id, user_id));
                    assert(before.map_values(revise) =~= before);
                }
                Ok(None)
            },
            Some(k) => {
                proof {
                    lemma_filter_first(before, owned(id, user_id), k as int);
                }
                if !input.is_valid() {
                    return Err(StoreError::InvalidInput);
                }
                let revised = Chat {
                    id: self.chats[k].id,
                    workspace_id: self.chats[k].workspace_id,
                    name: input.name,
                    chat_type: input.chat_type,
                    members: input.members,
                    created_by: self.chats[k].created_by,
                    created_at: self.chats[k].created_at,
                };
                let copy = revised.clone();
                let mut chats: Vec<Chat> = Vec::new();
                core::mem::swap(&mut self.chats, &mut chats);
                chats.set(k, revised);
                assert(views(chats@) =~= before.map_values(revise));
                core::mem::swap(&mut self.chats, &mut chats);
                Ok(Some(copy))
            },
        }
    }

    /// Removes the chat `id` if `user_id` created it, and returns its identifier. Where
    /// no such chat exists, or another user created it, nothing is returned and
    /// nothing changes.
    pub fn delete_if_owned(&mut self, id: u64, user_id: u64) -> (deleted: Option<u64>)
        ensures
            old(self)@.wf(),
            final(self)@.wf(),
            final(self)@ == old(self)@.after_delete(id, user_id),
            deleted == old(self)@.delete_result(id, user_id),
    {
        proof {
            use_type_invariant(&*self);
        }
        let ghost before = self@.chats;
        match self.position_owned(id, user_id) {
            None => {
                proof {
                    lemma_filter_none(before, owned(id, user_id));
                    lemma_filter_all(before, not_owned(id, user_id));
                }
                None
            },
            Some(k) => {
                proof {
                    lemma_filter_first(before, owned(id, user_id), k as int);
                    lemma_filter_remove(before, not_owned(id, user_id), k as int);
                }
                let mut chats: Vec<Chat> = Vec::new();
                core::mem::swap(&mut self.chats, &mut chats);
                let _ = chats.remove(k);
                assert(views(chats@) =~= before.remove(k as int));
                core::mem::swap(&mut self.chats, &mut chats);
                Some(id)
            },
        }
    }
}

} // verus!
