use chat_server::chat::{resolve_principal, Chat, ChatType, CreateChat, Principal};
use chat_server::error::{AppError, StoreError};
use chat_server::service::ChatService;
use chat_server::store::ChatStore;

fn payload(name: &str, members: &[u64]) -> CreateChat {
    CreateChat { name: name.to_string(), members: members.to_vec(), chat_type: ChatType::Group }
}

fn service() -> ChatService {
    ChatService::new(ChatStore::new())
}

fn principal(user_id: u64, workspace_id: u64) -> Principal {
    Principal { user_id, workspace_id }
}

#[test]
fn scenario_create_update_delete() {
    let mut svc = service();
    let created = svc.create_at(payload("general", &[3, 4]), 3, 7, 1_700_000_000).unwrap();
    assert_eq!(
        created,
        Chat {
            id: 1,
            workspace_id: 7,
            name: "general".to_string(),
            chat_type: ChatType::Group,
            members: vec![3, 4],
            created_by: 3,
            created_at: 1_700_000_000,
        }
    );

    assert_eq!(svc.update(1, 5, payload("x", &[])), Ok(None));

    let renamed = svc.update(1, 3, payload("renamed", &[3, 4, 9])).unwrap().unwrap();
    assert_eq!(renamed.id, 1);
    assert_eq!(renamed.name, "renamed");
    assert_eq!(renamed.members, vec![3, 4, 9]);
    assert_eq!(renamed.created_by, 3);
    assert_eq!(renamed.workspace_id, 7);
    assert_eq!(renamed.created_at, 1_700_000_000);

    assert_eq!(svc.delete(1, 3), Some(1));
    assert_eq!(svc.get_by_id(1), None);
}

#[test]
fn list_is_scoped_to_the_workspace() {
    let mut svc = service();
    let a = svc.create_at(payload("alpha", &[1, 2]), 1, 10, 5).unwrap();
    let b = svc.create_at(payload("beta", &[3]), 3, 20, 6).unwrap();
    let c = svc.create_at(payload("gamma", &[1, 4]), 4, 10, 7).unwrap();

    assert_eq!(svc.list(&principal(1, 10)), vec![a.clone(), c.clone()]);
    assert_eq!(svc.list(&principal(9, 20)), vec![b.clone()]);
    assert!(!svc.list(&principal(1, 20)).contains(&a));
    assert!(!svc.list(&principal(1, 10)).contains(&b));
}

#[test]
fn list_of_a_workspace_without_chats_is_empty() {
    let mut svc = service();
    assert_eq!(svc.list(&principal(1, 1)), Vec::<Chat>::new());
    svc.create_at(payload("alpha", &[1]), 1, 10, 5).unwrap();
    assert_eq!(svc.list(&principal(1, 11)), Vec::<Chat>::new());
}

#[test]
fn list_keeps_a_chat_out_of_other_workspaces_after_later_writes() {
    let mut svc = service();
    let a = svc.create_at(payload("alpha", &[1, 2]), 1, 10, 5).unwrap();
    svc.create_at(payload("beta", &[3]), 3, 20, 6).unwrap();
    svc.update(a.id, 1, payload("alpha two", &[1, 2, 3])).unwrap();
    svc.delete(2, 3);
    svc.create_at(payload("delta", &[3]), 3, 20, 8).unwrap();
    assert!(svc.list(&principal(3, 20)).iter().all(|chat| chat.id != a.id));
    assert!(svc.list(&principal(3, 20)).iter().all(|chat| chat.workspace_id == 20));
}

#[test]
fn create_then_get_returns_the_same_chat() {
    let mut svc = service();
    svc.create_at(payload("first", &[8]), 8, 1, 11).unwrap();
    let created = svc.create_at(payload("second", &[8, 9]), 9, 2, 12).unwrap();
    assert_eq!(created.id, 2);
    assert_eq!(svc.get_by_id(created.id), Some(created));
}

#[test]
fn create_with_the_clock_returns_what_get_returns() {
    let mut svc = service();
    let created = svc.create(payload("now", &[1]), 1, 2).unwrap();
    assert_eq!(created.id, 1);
    assert_eq!(created.workspace_id, 2);
    assert_eq!(created.created_by, 1);
    assert_eq!(created.name, "now");
    assert_eq!(created.members, vec![1]);
    assert_eq!(svc.get_by_id(1), Some(created));
}

#[test]
fn get_is_not_scoped_to_a_workspace() {
    let mut svc = service();
    let created = svc.create_at(payload("elsewhere", &[1]), 1, 99, 3).unwrap();
    assert_eq!(svc.get_by_id(1), Some(created));
    assert_eq!(svc.get_by_id(2), None);
    assert_eq!(svc.get_by_id(0), None);
}

#[test]
fn delete_by_owner_then_get_is_absent() {
    let mut svc = service();
    let keep = svc.create_at(payload("keep", &[1]), 1, 1, 1).unwrap();
    let gone = svc.create_at(payload("gone", &[2]), 2, 1, 2).unwrap();
    assert_eq!(svc.delete(gone.id, 2), Some(gone.id));
    assert_eq!(svc.get_by_id(gone.id), None);
    assert_eq!(svc.get_by_id(keep.id), Some(keep.clone()));
    assert_eq!(svc.list(&principal(1, 1)), vec![keep]);
}

#[test]
fn update_by_non_owner_is_absent_and_changes_nothing() {
    let mut svc = service();
    let created = svc.create_at(payload("mine", &[1, 2]), 1, 1, 1).unwrap();
    assert_eq!(svc.update(created.id, 2, payload("yours", &[2])), Ok(None));
    assert_eq!(svc.get_by_id(created.id), Some(created));
}

#[test]
fn update_of_a_missing_chat_is_absent() {
    let mut svc = service();
    assert_eq!(svc.update(1, 1, payload("nothing", &[1])), Ok(None));
    svc.create_at(payload("one", &[1]), 1, 1, 1).unwrap();
    assert_eq!(svc.update(2, 1, payload("nothing", &[1])), Ok(None));
}

#[test]
fn update_by_owner_replaces_name_members_and_shape() {
    let mut svc = service();
    let created = svc.create_at(payload("pair", &[1, 2]), 1, 4, 9).unwrap();
    let input = CreateChat {
        name: "pair renamed".to_string(),
        members: vec![2, 1],
        chat_type: ChatType::Direct,
    };
    let revised = svc.update(created.id, 1, input).unwrap().unwrap();
    assert_eq!(
        revised,
        Chat {
            id: created.id,
            workspace_id: 4,
            name: "pair renamed".to_string(),
            chat_type: ChatType::Direct,
            members: vec![2, 1],
            created_by: 1,
            created_at: 9,
        }
    );
    assert_eq!(svc.get_by_id(created.id), Some(revised));
}

#[test]
fn update_keeps_the_order_of_the_list() {
    let mut svc = service();
    svc.create_at(payload("a", &[1]), 1, 1, 1).unwrap();
    svc.create_at(payload("b", &[1]), 1, 1, 2).unwrap();
    svc.create_at(payload("c", &[1]), 1, 1, 3).unwrap();
    svc.update(2, 1, payload("b2", &[1])).unwrap();
    let names: Vec<String> = svc.list(&principal(1, 1)).into_iter().map(|c| c.name).collect();
    assert_eq!(names, vec!["a".to_string(), "b2".to_string(), "c".to_string()]);
}

#[test]
fn delete_by_non_owner_is_absent_and_the_chat_remains() {
    let mut svc = service();
    let created = svc.create_at(payload("mine", &[1, 2]), 1, 1, 1).unwrap();
    assert_eq!(svc.delete(created.id, 2), None);
    assert_eq!(svc.get_by_id(created.id), Some(created));
}

#[test]
fn delete_twice_is_absent_the_second_time() {
    let mut svc = service();
    let created = svc.create_at(payload("once", &[1]), 1, 1, 1).unwrap();
    assert_eq!(svc.delete(created.id, 1), Some(created.id));
    assert_eq!(svc.delete(created.id, 1), None);
    assert_eq!(svc.get_by_id(created.id), None);
}

#[test]
fn identifiers_are_not_given_twice() {
    let mut svc = service();
    let first = svc.create_at(payload("first", &[1]), 1, 1, 1).unwrap();
    assert_eq!(svc.delete(first.id, 1), Some(1));
    let second = svc.create_at(payload("second", &[1]), 1, 1, 2).unwrap();
    assert_eq!(second.id, 2);
    assert_eq!(svc.get_by_id(1), None);
}

#[test]
fn equal_payloads_create_separate_chats() {
    let mut svc = service();
    let a = svc.create_at(payload("same", &[1]), 1, 1, 1).unwrap();
    let b = svc.create_at(payload("same", &[1]), 1, 1, 1).unwrap();
    assert_ne!(a.id, b.id);
    assert_eq!(svc.list(&principal(1, 1)).len(), 2);
}

#[test]
fn create_refuses_an_empty_name() {
    let mut svc = service();
    assert_eq!(svc.create_at(payload("", &[1]), 1, 1, 1), Err(AppError::InvalidInput));
    assert_eq!(svc.list(&principal(1, 1)), Vec::<Chat>::new());
    assert_eq!(svc.create_at(payload("ok", &[1]), 1, 1, 1).unwrap().id, 1);
}

#[test]
fn create_refuses_a_payload_without_members() {
    let mut svc = service();
    assert_eq!(svc.create_at(payload("lonely", &[]), 1, 1, 1), Err(AppError::InvalidInput));
    assert_eq!(svc.create(payload("lonely", &[]), 1, 1), Err(AppError::InvalidInput));
}

#[test]
fn create_reports_an_exhausted_store_as_internal() {
    let mut svc = ChatService::new(ChatStore::starting_at(u64::MAX - 1));
    let last = svc.create_at(payload("last", &[1]), 1, 1, 1).unwrap();
    assert_eq!(last.id, u64::MAX - 1);
    assert_eq!(svc.create_at(payload("one too many", &[1]), 1, 1, 2), Err(AppError::Internal));
    assert_eq!(svc.create(payload("one too many", &[1]), 1, 1), Err(AppError::Internal));
    assert_eq!(svc.list(&principal(1, 1)), vec![last]);
}

#[test]
fn update_by_owner_refuses_an_unacceptable_payload() {
    let mut svc = service();
    let created = svc.create_at(payload("fine", &[1]), 1, 1, 1).unwrap();
    assert_eq!(svc.update(created.id, 1, payload("", &[1])), Err(AppError::InvalidInput));
    assert_eq!(svc.update(created.id, 1, payload("x", &[])), Err(AppError::InvalidInput));
    assert_eq!(svc.get_by_id(created.id), Some(created));
}

#[test]
fn store_primitives_report_their_own_errors() {
    let mut store = ChatStore::starting_at(u64::MAX);
    assert_eq!(store.insert(payload("", &[1]), 1, 1, 1), Err(StoreError::InvalidInput));
    assert_eq!(store.insert(payload("full", &[1]), 1, 1, 1), Err(StoreError::Exhausted));
    assert_eq!(store.list_by_workspace(1), Vec::<Chat>::new());

    let mut store = ChatStore::starting_at(40);
    let chat = store.insert(payload("forty", &[1]), 1, 2, 3).unwrap();
    assert_eq!(chat.id, 40);
    assert_eq!(store.find_by_id(40), Some(chat.clone()));
    assert_eq!(store.update_if_owned(40, 1, payload("", &[])), Err(StoreError::InvalidInput));
    assert_eq!(store.update_if_owned(40, 2, payload("", &[])), Ok(None));
    assert_eq!(store.delete_if_owned(40, 2), None);
    assert_eq!(store.delete_if_owned(40, 1), Some(40));
    assert_eq!(store.find_by_id(40), None);
}

#[test]
fn payload_validity() {
    assert!(payload("n", &[1]).is_valid());
    assert!(!payload("", &[1]).is_valid());
    assert!(!payload("n", &[]).is_valid());
    assert!(!payload("", &[]).is_valid());
}

#[test]
fn principal_from_signed_identifiers() {
    assert_eq!(resolve_principal(3, 7), Principal { user_id: 3, workspace_id: 7 });
    assert_eq!(resolve_principal(-1, 0), Principal { user_id: u64::MAX, workspace_id: 0 });
}
