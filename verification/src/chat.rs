//! Chat entities and the values callers hand to the service.

use crate::model::ChatData;
use crate::model::ChatInput;
use vstd::prelude::*;

verus! {

/// The structural shape of a chat.
#[derive(Clone, Copy, Debug, PartialEq, Eq, Structural)]
pub enum ChatType {
    /// A conversation between two participants.
    Direct,
    /// A conversation among any number of participants.
    Group,
}

/// The authenticated caller of an operation.
#[derive(Clone, Copy, Debug, PartialEq, Eq, Structural)]
pub struct Principal {
    pub user_id: u64,
    pub workspace_id: u64,
}

/// Builds the principal from the signed identifiers an authentication layer carries,
/// reinterpreting each as unsigned.
pub fn resolve_principal(user_id: i64, workspace_id: i64) -> (principal: Principal)
    ensures
        principal.user_id == user_id as u64,
        principal.workspace_id == workspace_id as u64,
{
    Principal { user_id: user_id as u64, workspace_id: workspace_id as u64 }
}

/// A chat as the store hands it out.
#[derive(Debug, PartialEq, Eq)]
pub struct Chat {
    pub id: u64,
    pub workspace_id: u64,
    pub name: String,
    pub chat_type: ChatType,
    pub members: Vec<u64>,
    pub created_by: u64,
    pub created_at: u64,
}

impl View for Chat {
    type V = ChatData;

    open spec fn view(&self) -> ChatData {
        ChatData {
            id: self.id,
            workspace_id: self.workspace_id,
            name: self.name@,
            chat_type: self.chat_type,
            members: self.members@,
            created_by: self.created_by,
            created_at: self.created_at,
        }
    }
}

impl Clone for Chat {
    fn clone(&self) -> (copy: Self)
        ensures
            copy@ == self@,
    {
        let members = self.members.clone();
        assert(members@ =~= self.members@);
        Chat {
            id: self.id,
            workspace_id: self.workspace_id,
            name: self.name.clone(),
            chat_type: self.chat_type,
            members,
            created_by: self.created_by,
            created_at: self.created_at,
        }
    }
}

/// The views of a sequence of chats, one for one.
pub open spec fn views(chats: Seq<Chat>) -> Seq<ChatData> {
    chats.map_values(|c: Chat| c@)
}

/// The payload of a create or update request.
#[derive(Debug, PartialEq, Eq)]
pub struct CreateChat {
    pub name: String,
    pub members: Vec<u64>,
    pub chat_type: ChatType,
}

impl View for CreateChat {
    type V = ChatInput;

    open spec fn view(&self) -> ChatInput {
        ChatInput { name: self.name@, members: self.members@, chat_type: self.chat_type }
    }
}

impl Clone for CreateChat {
    fn clone(&self) -> (copy: Self)
        ensures
            copy@ == self@,
    {
        let members = self.members.clone();
        assert(members@ =~= self.members@);
        CreateChat { name: self.name.clone(), members, chat_type: self.chat_type }
    }
}

impl CreateChat {
    /// Whether the payload names the chat and lists at least one member.
    pub fn is_valid(&self) -> (valid: bool)
        ensures
            valid == self@.valid(),
    {
        !self.name.as_str().is_empty() && self.members.len() > 0
    }
}

} // verus!
