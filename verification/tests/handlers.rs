use chat_server::chat::{Chat, ChatType, CreateChat, Principal};
use chat_server::error::{AppError, StoreError};
use chat_server::handlers::{
    chat_or_not_found, create_chat_handler, delete_chat_handler, deleted_or_not_found,
    get_chat_handler, list_chat_handler, update_chat_handler,
};
use chat_server::service::ChatService;
use chat_server::status::{
    STATUS_BAD_REQUEST, STATUS_CREATED, STATUS_INTERNAL, STATUS_NOT_FOUND, STATUS_OK,
};
use chat_server::store::ChatStore;
use chat_server::text::{push_decimal, render_deleted, render_not_found};

fn group(name: &str, members: &[u64]) -> CreateChat {
    CreateChat { name: name.to_string(), members: members.to_vec(), chat_type: ChatType::Group }
}

fn user(user_id: u64, workspace_id: u64) -> Principal {
    Principal { user_id, workspace_id }
}

#[test]
fn handlers_scenario() {
    let mut state = ChatService::new(ChatStore::new());
    let owner = user(3, 7);
    let stranger = user(5, 7);

    let (code, created) = create_chat_handler(&owner, &mut state, group("general", &[3, 4])).unwrap();
    assert_eq!(code, 201);
    assert_eq!(created.id, 1);
    assert_eq!(created.workspace_id, 7);
    assert_eq!(created.created_by, 3);
    assert_eq!(created.name, "general");
    assert_eq!(created.members, vec![3, 4]);

    assert_eq!(
        update_chat_handler(&stranger, &mut state, 1, group("x", &[])),
        Err(AppError::NotFound("chat id 1".to_string()))
    );
    assert_eq!(get_chat_handler(&state, 1), Ok(created.clone()));

    let renamed = update_chat_handler(&owner, &mut state, 1, group("renamed", &[3, 4, 9])).unwrap();
    assert_eq!(renamed.id, 1);
    assert_eq!(renamed.name, "renamed");
    assert_eq!(renamed.members, vec![3, 4, 9]);
    assert_eq!(renamed.created_by, 3);

    assert_eq!(
        delete_chat_handler(&stranger, &mut state, 1),
        Err(AppError::NotFound("chat id 1".to_string()))
    );
    assert_eq!(
        delete_chat_handler(&owner, &mut state, 1),
        Ok("chat id 1 has been deleted".to_string())
    );
    assert_eq!(get_chat_handler(&state, 1), Err(AppError::NotFound("chat id 1".to_string())));
    assert_eq!(
        delete_chat_handler(&owner, &mut state, 1),
        Err(AppError::NotFound("chat id 1".to_string()))
    );
}

#[test]
fn list_handler_replies_ok_with_the_workspace_chats() {
    let mut state = ChatService::new(ChatStore::new());
    let (code, chats) = list_chat_handler(&user(1, 1), &state);
    assert_eq!(code, STATUS_OK);
    assert_eq!(code, 200);
    assert_eq!(chats, Vec::<Chat>::new());

    let (_, a) = create_chat_handler(&user(1, 1), &mut state, group("a", &[1])).unwrap();
    let (_, b) = create_chat_handler(&user(2, 2), &mut state, group("b", &[2])).unwrap();
    let (_, c) = create_chat_handler(&user(3, 1), &mut state, group("c", &[3])).unwrap();
    assert_eq!(list_chat_handler(&user(9, 1), &state), (200, vec![a, c]));
    assert_eq!(list_chat_handler(&user(9, 2), &state), (200, vec![b]));
}

#[test]
fn create_handler_reports_refusals() {
    let mut state = ChatService::new(ChatStore::starting_at(u64::MAX));
    assert_eq!(
        create_chat_handler(&user(1, 1), &mut state, group("", &[1])),
        Err(AppError::InvalidInput)
    );
    assert_eq!(
        create_chat_handler(&user(1, 1), &mut state, group("full", &[1])),
        Err(AppError::Internal)
    );
    assert_eq!(STATUS_CREATED, 201);
}

#[test]
fn update_handler_reports_a_refused_payload_of_the_owner() {
    let mut state = ChatService::new(ChatStore::new());
    let owner = user(1, 1);
    let (_, created) = create_chat_handler(&owner, &mut state, group("a", &[1])).unwrap();
    assert_eq!(
        update_chat_handler(&owner, &mut state, created.id, group("", &[1])),
        Err(AppError::InvalidInput)
    );
    assert_eq!(
        update_chat_handler(&owner, &mut state, 77, group("", &[1])),
        Err(AppError::NotFound("chat id 77".to_string()))
    );
    assert_eq!(get_chat_handler(&state, created.id), Ok(created));
}

#[test]
fn get_handler_names_the_absent_chat() {
    let state = ChatService::new(ChatStore::new());
    for id in [0u64, 9, 10, 4711, u64::MAX] {
        assert_eq!(get_chat_handler(&state, id), Err(AppError::NotFound(format!("chat id {id}"))));
    }
}

#[test]
fn texts_match_the_decimal_form() {
    for id in [0u64, 1, 9, 10, 11, 99, 100, 101, 1_000_000, 18_446_744_073_709_551_615] {
        assert_eq!(render_not_found(id), format!("chat id {id}"));
        assert_eq!(render_deleted(id), format!("chat id {} has been deleted", id));
    }
    assert_eq!(render_not_found(42), "chat id 42");
    assert_eq!(render_deleted(120), "chat id 120 has been deleted");
    let mut text = String::from("n=");
    push_decimal(&mut text, 305);
    push_decimal(&mut text, 0);
    assert_eq!(text, "n=3050");
}

#[test]
fn errors_carry_status_and_text() {
    assert_eq!(AppError::not_found(12), AppError::NotFound("chat id 12".to_string()));
    assert_eq!(AppError::not_found(12).status(), 404);
    assert_eq!(AppError::InvalidInput.status(), 400);
    assert_eq!(AppError::Internal.status(), 500);
    assert_eq!(STATUS_NOT_FOUND, 404);
    assert_eq!(STATUS_BAD_REQUEST, 400);
    assert_eq!(STATUS_INTERNAL, 500);
    assert_eq!(AppError::not_found(12).message(), "chat id 12");
    assert_eq!(AppError::InvalidInput.message(), "invalid chat input");
    assert_eq!(AppError::Internal.message(), "internal server error");
    assert_eq!(AppError::from_store(StoreError::InvalidInput), AppError::InvalidInput);
    assert_eq!(AppError::from_store(StoreError::Exhausted), AppError::Internal);
    assert_eq!(AppError::not_found(3).clone(), AppError::not_found(3));
}

#[test]
fn an_absent_chat_becomes_an_error_that_names_it() {
    let chat = Chat {
        id: 5,
        workspace_id: 2,
        name: "five".to_string(),
        chat_type: ChatType::Direct,
        members: vec![1, 2],
        created_by: 1,
        created_at: 77,
    };
    assert_eq!(chat_or_not_found(Some(chat.clone()), 5), Ok(chat));
    assert_eq!(chat_or_not_found(None, 5), Err(AppError::NotFound("chat id 5".to_string())));
    assert_eq!(deleted_or_not_found(Some(5), 5), Ok("chat id 5 has been deleted".to_string()));
    assert_eq!(deleted_or_not_found(None, 5), Err(AppError::NotFound("chat id 5".to_string())));
}
