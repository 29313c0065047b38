//! What the executor stores for a task.

use vstd::prelude::*;
use crate::common::execution_info::ExecutionInfo;
use crate::common::task_info::{
    spec_from_parts, spec_validate, validate_execution_info, TaskInfo, TaskInfoView,
};
use crate::error::Error;
use crate::p2p_proto::{KeyGenerationCandidateRequest, SignCandidateRequest};
use crate::text::join3;

verus! {

/// First part of the storage key of an executor's item.
pub const PREFIX_EXECUTOR_TASK_STORE_ITEM: &'static str = "executor_task_store_item";

/// How far a task has come, as its executor sees it.
#[derive(Debug, Clone, Copy, PartialEq, Eq, Structural)]
pub enum StoreItemState {
    /// The invitation is accepted.
    Init,
    /// The application is sent.
    Requested,
    /// The delegator's request has arrived and is being worked on.
    Responded,
    /// The result is sent.
    Executed,
}

/// The executor's record of a task.
#[derive(Debug, Clone, PartialEq)]
pub struct ExecutorStoreItem {
    pub task_info: TaskInfo,
    pub state: StoreItemState,
}

/// What an [`ExecutorStoreItem`] holds, as plain values.
pub struct ExecutorStoreItemView {
    pub task_info: TaskInfoView,
    pub state: StoreItemState,
}

impl View for ExecutorStoreItem {
    type V = ExecutorStoreItemView;

    open spec fn view(&self) -> ExecutorStoreItemView {
        ExecutorStoreItemView { task_info: self.task_info@, state: self.state }
    }
}

/// The storage key of an executor's item.
pub open spec fn spec_task_store_item_key(task_id: Seq<char>) -> Seq<char> {
    PREFIX_EXECUTOR_TASK_STORE_ITEM@ + "_"@ + task_id
}

/// The key under which the executor stores the item of a task.
pub fn get_task_store_item_key(task_id: &str) -> (key: String)
    ensures
        key@ == spec_task_store_item_key(task_id@),
{
    join3(PREFIX_EXECUTOR_TASK_STORE_ITEM, "_", task_id)
}

impl ExecutorStoreItem {
    /// Whether an item is stored: what the lookup of a task's item found.
    pub fn contains(stored: &Option<ExecutorStoreItem>) -> (r: bool)
        ensures
            r == stored is Some,
    {
        stored.is_some()
    }

    /// The item of the key-generation task that an invitation describes, in
    /// state [`StoreItemState::Init`]. An invitation with invalid parameters
    /// gives no item.
    pub fn from_candidate_request(value: KeyGenerationCandidateRequest) -> (r: Result<Self, Error>)
        ensures
            match (r, spec_from_parts(value.task_id@, value.n, value.k, value.key_type@)) {
                (Ok(item), Ok(task_info)) => item@ == (ExecutorStoreItemView {
                    task_info,
                    state: StoreItemState::Init,
                }),
                (Err(e), Err(expected)) => e == expected,
                _ => false,
            },
    {
        match TaskInfo::from_candidate_request(value) {
            Ok(task_info) => Ok(ExecutorStoreItem { task_info, state: StoreItemState::Init }),
            Err(e) => Err(e),
        }
    }

    /// The item of the signing task that an invitation names, in state
    /// [`StoreItemState::Init`], with the account's parameters as the ledger
    /// gave them. Parameters outside `1 <= k < n` give no item.
    pub fn from_sign_candidate_request(value: SignCandidateRequest, exec_info: ExecutionInfo) -> (r:
        Result<Self, Error>)
        ensures
            match spec_validate(exec_info.n, exec_info.k) {
                Some(e) => r == Err::<Self, Error>(e),
                None => r is Ok && r->Ok_0@ == (ExecutorStoreItemView {
                    task_info: TaskInfoView { task_id: value.task_id@, exec_info: exec_info@ },
                    state: StoreItemState::Init,
                }),
            },
    {
        match validate_execution_info(&exec_info) {
            Ok(_) => {},
            Err(e) => {
                return Err(e);
            },
        }
        let mut task_info = TaskInfo::from_sign_candidate_request(value);
        task_info.exec_info = exec_info;
        Ok(ExecutorStoreItem { task_info, state: StoreItemState::Init })
    }
}

} // verus!
