//! The mathematical model of the chat store: what a chat is, what a store holds, and
//! what each storage primitive returns and leaves behind.

use crate::chat::ChatType;
use crate::error::StoreError;
use vstd::prelude::*;

verus! {

/// A chat as a mathematical value.
pub struct ChatData {
    pub id: u64,
    pub workspace_id: u64,
    pub name: Seq<char>,
    pub chat_type: ChatType,
    pub members: Seq<u64>,
    pub created_by: u64,
    pub created_at: u64,
}

/// The payload of a create or update request as a mathematical value.
pub struct ChatInput {
    pub name: Seq<char>,
    pub members: Seq<u64>,
    pub chat_type: ChatType,
}

impl ChatInput {
    /// A payload is acceptable when it names the chat and lists at least one member.
    pub open spec fn valid(self) -> bool {
        self.name.len() > 0 && self.members.len() > 0
    }
}

impl ChatData {
    /// The chat that a creation with this payload yields.
    pub open spec fn created(
        id: u64,
        workspace_id: u64,
        user_id: u64,
        input: ChatInput,
        now: u64,
    ) -> ChatData {
        ChatData {
            id,
            workspace_id,
            name: input.name,
            chat_type: input.chat_type,
            members: input.members,
            created_by: user_id,
            created_at: now,
        }
    }

    /// This chat with the payload's name, members and shape in place of its own.
    pub open spec fn revised(self, input: ChatInput) -> ChatData {
        ChatData {
            name: input.name,
            chat_type: input.chat_type,
            members: input.members,
            ..self
        }
    }

    /// Whether this is the chat `id` and `user_id` created it: the one predicate by
    /// which update and delete select.
    pub open spec fn owned_by(self, id: u64, user_id: u64) -> bool {
        self.id == id && self.created_by == user_id
    }
}

/// Selects the chats of one workspace.
pub open spec fn in_workspace(workspace_id: u64) -> spec_fn(ChatData) -> bool {
    |c: ChatData| c.workspace_id == workspace_id
}

/// Selects the chat with the given identifier.
pub open spec fn has_id(id: u64) -> spec_fn(ChatData) -> bool {
    |c: ChatData| c.id == id
}

/// Selects the chat with the given identifier if the given user created it.
pub open spec fn owned(id: u64, user_id: u64) -> spec_fn(ChatData) -> bool {
    |c: ChatData| c.owned_by(id, user_id)
}

/// Selects every chat but the one that `owned` selects.
pub open spec fn not_owned(id: u64, user_id: u64) -> spec_fn(ChatData) -> bool {
    |c: ChatData| !c.owned_by(id, user_id)
}

/// Revises the chat that `owned` selects and leaves every other chat as it is.
pub open spec fn revise_owned(id: u64, user_id: u64, input: ChatInput) -> spec_fn(
    ChatData,
) -> ChatData {
    |c: ChatData|
        if c.owned_by(id, user_id) {
            c.revised(input)
        } else {
            c
        }
}

/// The first element of a sequence, if it has one.
pub open spec fn first_of(chats: Seq<ChatData>) -> Option<ChatData> {
    if chats.len() > 0 {
        Some(chats[0])
    } else {
        None
    }
}

/// A write to the store.
pub enum Op {
    Insert { input: ChatInput, user_id: u64, workspace_id: u64, now: u64 },
    Update { id: u64, user_id: u64, input: ChatInput },
    Delete { id: u64, user_id: u64 },
}

/// What a store holds: its chats in the order of their creation, and the identifier
/// that the next chat will get.
pub struct StoreState {
    pub chats: Seq<ChatData>,
    pub next_id: u64,
}

impl StoreState {
    /// Identifiers are never shared and never reach the one to be assigned next.
    pub open spec fn wf(self) -> bool {
        &&& forall|i: int| 0 <= i < self.chats.len() ==> (#[trigger] self.chats[i]).id < self.next_id
        &&& forall|i: int, j: int|
            0 <= i < j < self.chats.len() ==> (#[trigger] self.chats[i]).id != (
            #[trigger] self.chats[j]).id
    }

    /// The store without chats whose first chat will get `first_id`.
    pub open spec fn starting_at(first_id: u64) -> StoreState {
        StoreState { chats: Seq::empty(), next_id: first_id }
    }

    /// The chats of a workspace, in the order of their creation.
    pub open spec fn list(self, workspace_id: u64) -> Seq<ChatData> {
        self.chats.filter(in_workspace(workspace_id))
    }

    /// The chat with the given identifier, whatever its workspace.
    pub open spec fn find(self, id: u64) -> Option<ChatData> {
        first_of(self.chats.filter(has_id(id)))
    }

    /// The chat with the given identifier if the given user created it.
    pub open spec fn find_owned(self, id: u64, user_id: u64) -> Option<ChatData> {
        first_of(self.chats.filter(owned(id, user_id)))
    }

    /// Why an insertion is refused, if it is: the payload is not acceptable, or it is
    /// and the identifiers have run out.
    pub open spec fn insert_refusal(self, input: ChatInput) -> Option<StoreError> {
        if !input.valid() {
            Some(StoreError::InvalidInput)
        } else if self.next_id == u64::MAX {
            Some(StoreError::Exhausted)
        } else {
            None
        }
    }

    /// What an insertion returns: the new chat, or the reason for refusing it.
    pub open spec fn insert_result(
        self,
        input: ChatInput,
        user_id: u64,
        workspace_id: u64,
        now: u64,
    ) -> Result<ChatData, StoreError> {
        match self.insert_refusal(input) {
            Some(refusal) => Err(refusal),
            None => Ok(ChatData::created(self.next_id, workspace_id, user_id, input, now)),
        }
    }

    /// The store after an insertion: one chat longer where it succeeds, unchanged where
    /// it fails.
    pub open spec fn after_insert(
        self,
        input: ChatInput,
        user_id: u64,
        workspace_id: u64,
        now: u64,
    ) -> StoreState {
        match self.insert_result(input, user_id, workspace_id, now) {
            Ok(chat) => StoreState {
                chats: self.chats.push(chat),
                next_id: (self.next_id + 1) as u64,
            },
            Err(_) => self,
        }
    }

    /// What an update returns: nothing where no chat is selected, the revised chat where
    /// one is and the payload is acceptable, and an error where one is and it is not.
    pub open spec fn update_result(self, id: u64, user_id: u64, input: ChatInput) -> Result<
        Option<ChatData>,
        StoreError,
    > {
        match self.find_owned(id, user_id) {
            None => Ok(None),
            Some(chat) => if input.valid() {
                Ok(Some(chat.revised(input)))
            } else {
                Err(StoreError::InvalidInput)
            },
        }
    }

    /// The store after an update.
    pub open spec fn after_update(self, id: u64, user_id: u64, input: ChatInput) -> StoreState {
        if input.valid() {
            StoreState { chats: self.chats.map_values(revise_owned(id, user_id, input)), ..self }
        } else {
            self
        }
    }

    /// What a deletion returns: the identifier where a chat is selected, else nothing.
    pub open spec fn delete_result(self, id: u64, user_id: u64) -> Option<u64> {
        match self.find_owned(id, user_id) {
            Some(_) => Some(id),
            None => None,
        }
    }

    /// The store after a deletion.
    pub open spec fn after_delete(self, id: u64, user_id: u64) -> StoreState {
        StoreState { chats: self.chats.filter(not_owned(id, user_id)), ..self }
    }

    /// The store after one write.
    pub open spec fn step(self, op: Op) -> StoreState {
        match op {
            Op::Insert { input, user_id, workspace_id, now } => self.after_insert(
                input,
                user_id,
                workspace_id,
                now,
            ),
            Op::Update { id, user_id, input } => self.after_update(id, user_id, input),
            Op::Delete { id, user_id } => self.after_delete(id, user_id),
        }
    }

    /// The store after a series of writes, the first of them first.
    pub open spec fn run(self, ops: Seq<Op>) -> StoreState
        decreases ops.len(),
    {
        if ops.len() == 0 {
            self
        } else {
            self.run(ops.drop_last()).step(ops.last())
        }
    }
}

} // verus!
