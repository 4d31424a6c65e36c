//! What holds of a store over its life: across several operations, and after any
//! series of writes.

use crate::filtering::lemma_filter_all;
use crate::filtering::lemma_filter_first;
use crate::filtering::lemma_filter_head;
use crate::filtering::lemma_filter_members;
use crate::filtering::lemma_filter_none;
use crate::filtering::lemma_filter_push;
use crate::filtering::lemma_filter_remove;
use crate::model::has_id;
use crate::model::in_workspace;
use crate::model::not_owned;
use crate::model::owned;
use crate::model::ChatData;
use crate::model::ChatInput;
use crate::model::Op;
use crate::model::StoreState;
use vstd::prelude::*;

verus! {

/// Two chats agree in what never changes: identifier, workspace, creator and time of
/// creation.
pub open spec fn same_identity(a: ChatData, b: ChatData) -> bool {
    &&& a.id == b.id
    &&& a.workspace_id == b.workspace_id
    &&& a.created_by == b.created_by
    &&& a.created_at == b.created_at
}

/// Whether one of the chats has the identifier `id`.
pub open spec fn holds_id(chats: Seq<ChatData>, id: u64) -> bool {
    exists|i: int| 0 <= i < chats.len() && (#[trigger] chats[i]).id == id
}

/// Every chat that the store holds under `id` agrees with `origin` in what never
/// changes; where `origin` is nothing, the store holds no chat under `id`.
pub open spec fn pinned(s: StoreState, id: u64, origin: Option<ChatData>) -> bool {
    forall|i: int|
        0 <= i < s.chats.len() && (#[trigger] s.chats[i]).id == id ==> match origin {
            Some(a) => same_identity(a, s.chats[i]),
            None => false,
        }
}

/// Finds the position of the chat that `user_id` owns under `id`, or the number of
/// chats where there is none, and says what a deletion does in either case.
proof fn lemma_delete_shape(s: StoreState, id: u64, user_id: u64) -> (k: int)
    requires
        s.wf(),
    ensures
        0 <= k <= s.chats.len(),
        k == s.chats.len() ==> s.find_owned(id, user_id) is None && s.after_delete(id, user_id)
            == s,
        k < s.chats.len() ==> s.find_owned(id, user_id) == Some(s.chats[k]) && s.chats[k].owned_by(
            id,
            user_id,
        ) && s.after_delete(id, user_id).chats == s.chats.remove(k),
{
    let k = lemma_filter_head(s.chats, owned(id, user_id));
    if k < s.chats.len() {
        assert forall|j: int| 0 <= j < s.chats.len() && j != k implies not_owned(id, user_id)(
            #[trigger] s.chats[j],
        ) by {
            assert(s.chats[j].id != s.chats[k].id);
        }
        lemma_filter_remove(s.chats, not_owned(id, user_id), k);
    } else {
        lemma_filter_all(s.chats, not_owned(id, user_id));
    }
    k
}

/// Looking a chat up for its creator is looking it up and then asking who created it:
/// a chat of another user is as absent as a missing one.
pub proof fn lemma_owned_lookup(s: StoreState, id: u64, user_id: u64)
    requires
        s.wf(),
    ensures
        s.find_owned(id, user_id) == match s.find(id) {
            Some(chat) => if chat.created_by == user_id {
                Some(chat)
            } else {
                None
            },
            None => None,
        },
{
    let k = lemma_filter_head(s.chats, has_id(id));
    if k < s.chats.len() && s.chats[k].created_by == user_id {
        lemma_filter_first(s.chats, owned(id, user_id), k);
    } else {
        assert forall|j: int| 0 <= j < s.chats.len() implies !owned(id, user_id)(
            #[trigger] s.chats[j],
        ) by {
            if k < s.chats.len() && j != k {
                assert(s.chats[j].id != s.chats[k].id);
            }
        }
        lemma_filter_none(s.chats, owned(id, user_id));
    }
}

/// Every write leaves a well-formed store well formed.
pub proof fn lemma_step_keeps_wf(s: StoreState, op: Op)
    requires
        s.wf(),
    ensures
        s.step(op).wf(),
        s.step(op).next_id >= s.next_id,
{
    match op {
        Op::Insert { input, user_id, workspace_id, now } => {},
        Op::Update { id, user_id, input } => {},
        Op::Delete { id, user_id } => {
            let k = lemma_delete_shape(s, id, user_id);
        },
    }
}

/// Every series of writes leaves a well-formed store well formed.
pub proof fn lemma_run_keeps_wf(s: StoreState, ops: Seq<Op>)
    requires
        s.wf(),
    ensures
        s.run(ops).wf(),
        s.run(ops).next_id >= s.next_id,
    decreases ops.len(),
{
    if ops.len() > 0 {
        lemma_run_keeps_wf(s, ops.drop_last());
        lemma_step_keeps_wf(s.run(ops.drop_last()), ops.last());
    }
}

/// A write changes neither the identifier, the workspace, the creator nor the time of
/// creation of any chat, and never gives a used identifier to another chat.
proof fn lemma_step_keeps_pinned(s: StoreState, op: Op, id: u64, origin: Option<ChatData>)
    requires
        s.wf(),
        id < s.next_id,
        pinned(s, id, origin),
    ensures
        pinned(s.step(op), id, origin),
{
    match op {
        Op::Insert { input, user_id, workspace_id, now } => {},
        Op::Update { id: target, user_id, input } => {},
        Op::Delete { id: target, user_id } => {
            let k = lemma_delete_shape(s, target, user_id);
        },
    }
}

/// Whatever is written to a store, a chat keeps its identifier, workspace, creator and
/// time of creation for as long as it exists, and an identifier that the store has
/// used up is never given to another chat: once a chat is gone, nothing is found
/// under its identifier again.
pub proof fn lemma_identity_is_stable(s: StoreState, ops: Seq<Op>, id: u64)
    requires
        s.wf(),
        id < s.next_id,
    ensures
        s.run(ops).wf(),
        pinned(s.run(ops), id, s.find(id)),
        match s.run(ops).find(id) {
            Some(later) => match s.find(id) {
                Some(earlier) => same_identity(earlier, later),
                None => false,
            },
            None => true,
        },
    decreases ops.len(),
{
    lemma_run_keeps_wf(s, ops);
    if ops.len() == 0 {
        let k = lemma_filter_head(s.chats, has_id(id));
        assert forall|i: int| 0 <= i < s.chats.len() && (#[trigger] s.chats[i]).id == id implies i
            == k by {
            if i != k {
                assert(s.chats[i].id != s.chats[k].id);
            }
        }
    } else {
        let before = s.run(ops.drop_last());
        lemma_identity_is_stable(s, ops.drop_last(), id);
        lemma_run_keeps_wf(s, ops.drop_last());
        lemma_step_keeps_pinned(before, ops.last(), id, s.find(id));
    }
    let end = s.run(ops);
    let k = lemma_filter_head(end.chats, has_id(id));
}

/// A chat created in one workspace never shows in the list of another workspace,
/// neither right away nor after any series of writes.
pub proof fn lemma_workspace_isolation(
    s: StoreState,
    input: ChatInput,
    user_id: u64,
    home: u64,
    other: u64,
    now: u64,
    later: Seq<Op>,
)
    requires
        s.wf(),
        home != other,
        s.insert_result(input, user_id, home, now) is Ok,
    ensures
        s.after_insert(input, user_id, home, now).list(other) == s.list(other),
        !holds_id(
            s.after_insert(input, user_id, home, now).run(later).list(other),
            s.insert_result(input, user_id, home, now)->Ok_0.id,
        ),
{
    let chat = s.insert_result(input, user_id, home, now)->Ok_0;
    let created = s.after_insert(input, user_id, home, now);
    let end = created.run(later);
    lemma_filter_push(s.chats, chat, in_workspace(other));
    lemma_create_then_get(s, input, user_id, home, now);
    lemma_step_keeps_wf(s, Op::Insert { input, user_id, workspace_id: home, now });
    lemma_identity_is_stable(created, later, chat.id);
    lemma_filter_members(end.chats, in_workspace(other));
    if holds_id(end.list(other), chat.id) {
        let i = choose|i: int| 0 <= i < end.list(other).len() && end.list(other)[i].id == chat.id;
        let listed = end.list(other)[i];
        assert(end.chats.contains(listed));
        let j = choose|j: int| 0 <= j < end.chats.len() && end.chats[j] == listed;
        assert(in_workspace(other)(listed));
        assert(same_identity(chat, end.chats[j]));
    }
}

/// A chat just created is found under the identifier it was given, equal in every
/// field to the chat that the creation returned.
pub proof fn lemma_create_then_get(
    s: StoreState,
    input: ChatInput,
    user_id: u64,
    workspace_id: u64,
    now: u64,
)
    requires
        s.wf(),
        s.insert_result(input, user_id, workspace_id, now) is Ok,
    ensures
        s.after_insert(input, user_id, workspace_id, now).find(s.next_id) == Some(
            s.insert_result(input, user_id, workspace_id, now)->Ok_0,
        ),
        s.insert_result(input, user_id, workspace_id, now)->Ok_0.id == s.next_id,
{
    let created = s.after_insert(input, user_id, workspace_id, now);
    lemma_filter_first(created.chats, has_id(s.next_id), s.chats.len() as int);
}

/// A deletion by the creator of a chat returns its identifier, and nothing is found
/// under that identifier afterwards.
pub proof fn lemma_delete_then_get(s: StoreState, id: u64, user_id: u64)
    requires
        s.wf(),
        s.find(id) is Some,
        s.find(id)->Some_0.created_by == user_id,
    ensures
        s.delete_result(id, user_id) == Some(id),
        s.after_delete(id, user_id).find(id) is None,
{
    lemma_owned_lookup(s, id, user_id);
    let k = lemma_delete_shape(s, id, user_id);
    let after = s.after_delete(id, user_id);
    assert forall|j: int| 0 <= j < after.chats.len() implies !has_id(id)(
        #[trigger] after.chats[j],
    ) by {
        if j < k {
            assert(s.chats[j].id != s.chats[k].id);
        } else {
            assert(s.chats[j + 1].id != s.chats[k].id);
        }
    }
    lemma_filter_none(after.chats, has_id(id));
}

/// An update by anyone but the creator returns nothing and changes nothing: the chat
/// is found afterwards as it was before.
pub proof fn lemma_update_by_other_user(s: StoreState, id: u64, user_id: u64, input: ChatInput)
    requires
        s.wf(),
        s.find(id) is Some,
        s.find(id)->Some_0.created_by != user_id,
    ensures
        s.update_result(id, user_id, input) matches Ok(None),
        s.after_update(id, user_id, input) == s,
        s.after_update(id, user_id, input).find(id) == s.find(id),
{
    lemma_owned_lookup(s, id, user_id);
    lemma_absent_update_changes_nothing(s, id, user_id, input);
}

/// An update that returns nothing changes nothing, whether the chat is missing or
/// another user's.
pub proof fn lemma_absent_update_changes_nothing(
    s: StoreState,
    id: u64,
    user_id: u64,
    input: ChatInput,
)
    requires
        s.find_owned(id, user_id) is None,
    ensures
        s.update_result(id, user_id, input) matches Ok(None),
        s.after_update(id, user_id, input) == s,
{
    let k = lemma_filter_head(s.chats, owned(id, user_id));
    assert(s.after_update(id, user_id, input).chats =~= s.chats);
}

/// A deletion by anyone but the creator returns nothing and changes nothing: the chat
/// is found afterwards as it was before.
pub proof fn lemma_delete_by_other_user(s: StoreState, id: u64, user_id: u64)
    requires
        s.wf(),
        s.find(id) is Some,
        s.find(id)->Some_0.created_by != user_id,
    ensures
        s.delete_result(id, user_id) is None,
        s.after_delete(id, user_id) == s,
        s.after_delete(id, user_id).find(id) == s.find(id),
{
    lemma_owned_lookup(s, id, user_id);
    let k = lemma_delete_shape(s, id, user_id);
}

/// Deleting a chat a second time returns nothing and changes nothing.
pub proof fn lemma_delete_twice(s: StoreState, id: u64, user_id: u64)
    ensures
        s.after_delete(id, user_id).delete_result(id, user_id) is None,
        s.after_delete(id, user_id).after_delete(id, user_id) == s.after_delete(id, user_id),
{
    let after = s.after_delete(id, user_id);
    lemma_filter_members(s.chats, not_owned(id, user_id));
    lemma_filter_none(after.chats, owned(id, user_id));
    lemma_filter_all(after.chats, not_owned(id, user_id));
}

} // verus!
