//! The request handlers: each takes the caller, the service and what the request
//! carried, and gives the reply or the error to send. The two functions that turn an
//! absent chat into an error stand on their own, for a caller that asks a store of
//! its own.

use crate::chat::views;
use crate::chat::Chat;
use crate::chat::CreateChat;
use crate::chat::Principal;
use crate::error::AppError;
use crate::model::ChatData;
use crate::service::ChatService;
use crate::status::STATUS_CREATED;
use crate::status::STATUS_OK;
use crate::text::deleted_text;
use crate::text::render_deleted;
use vstd::prelude::*;

verus! {

/// The reply to a request for one chat: the chat, or for an absent chat the error that
/// names it.
pub fn chat_or_not_found(found: Option<Chat>, id: u64) -> (reply: Result<Chat, AppError>)
    ensures
        match (reply, found) {
            (Ok(chat), Some(given)) => chat == given,
            (Err(error), None) => error.is_not_found(id),
            _ => false,
        },
{
    match found {
        Some(chat) => Ok(chat),
        None => Err(AppError::not_found(id)),
    }
}

/// The reply to a request to delete the chat `id`: the text that says it is gone, or
/// for an absent chat the error that names it.
pub fn deleted_or_not_found(deleted: Option<u64>, id: u64) -> (reply: Result<String, AppError>)
    ensures
        match (reply, deleted) {
            (Ok(text), Some(_)) => text@ == deleted_text(id),
            (Err(error), None) => error.is_not_found(id),
            _ => false,
        },
{
    match deleted {
        Some(_) => Ok(render_deleted(id)),
        None => Err(AppError::not_found(id)),
    }
}

/// Lists all chats in the workspace of the user.
pub fn list_chat_handler(user: &Principal, state: &ChatService) -> (reply: (u16, Vec<Chat>))
    ensures
        state@.wf(),
        reply.0 == STATUS_OK,
        views(reply.1@) == state@.list(user.workspace_id),
{
    let chats = state.list(user);
    (STATUS_OK, chats)
}

/// Creates a new chat in the workspace of the user, with the user as its creator.
pub fn create_chat_handler(user: &Principal, state: &mut ChatService, input: CreateChat) -> (reply:
    Result<(u16, Chat), AppError>)
    ensures
        old(state)@.wf(),
        final(state)@.wf(),
        match (reply, old(state)@.insert_refusal(input@)) {
            (Ok((code, chat)), None) => {
                &&& code == STATUS_CREATED
                &&& chat@ == ChatData::created(
                    old(state)@.next_id,
                    user.workspace_id,
                    user.user_id,
                    input@,
                    chat.created_at,
                )
                &&& final(state)@ == old(state)@.after_insert(
                    input@,
                    user.user_id,
                    user.workspace_id,
                    chat.created_at,
                )
            },
            (Err(error), Some(refusal)) => {
                &&& error == AppError::of_store(refusal)
                &&& final(state)@ == old(state)@
            },
            _ => false,
        },
{
    match state.create(input, user.user_id, user.workspace_id) {
        Ok(chat) => Ok((STATUS_CREATED, chat)),
        Err(error) => Err(error),
    }
}

/// Gets the chat by its identifier; an absent chat is an error that names it.
pub fn get_chat_handler(state: &ChatService, id: u64) -> (reply: Result<Chat, AppError>)
    ensures
        state@.wf(),
        match reply {
            Ok(chat) => state@.find(id) == Some(chat@),
            Err(error) => state@.find(id) is None && error.is_not_found(id),
        },
{
    chat_or_not_found(state.get_by_id(id), id)
}

/// Updates the chat if the user created it. A chat that is missing and a chat of
/// another user give the same error, which names the chat.
pub fn update_chat_handler(
    user: &Principal,
    state: &mut ChatService,
    id: u64,
    input: CreateChat,
) -> (reply: Result<Chat, AppError>)
    ensures
        old(state)@.wf(),
        final(state)@.wf(),
        final(state)@ == old(state)@.after_update(id, user.user_id, input@),
        match (reply, old(state)@.update_result(id, user.user_id, input@)) {
            (Ok(chat), Ok(Some(expected))) => chat@ == expected,
            (Err(error), Ok(None)) => error.is_not_found(id),
            (Err(error), Err(refusal)) => error == AppError::of_store(refusal),
            _ => false,
        },
{
    match state.update(id, user.user_id, input) {
        Ok(found) => chat_or_not_found(found, id),
        Err(error) => Err(error),
    }
}

/// Deletes the chat if the user created it, and says so. A chat that is missing and a
/// chat of another user give the same error, which names the chat.
pub fn delete_chat_handler(user: &Principal, state: &mut ChatService, id: u64) -> (reply: Result<
    String,
    AppError,
>)
    ensures
        old(state)@.wf(),
        final(state)@.wf(),
        final(state)@ == old(state)@.after_delete(id, user.user_id),
        match (reply, old(state)@.delete_result(id, user.user_id)) {
            (Ok(text), Some(deleted)) => deleted == id && text@ == deleted_text(id),
            (Err(error), None) => error.is_not_found(id),
            _ => false,
        },
{
    deleted_or_not_found(state.delete(id, user.user_id), id)
}

} // verus!
