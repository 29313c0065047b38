//! What an initial pinner stores for a task.

use vstd::prelude::*;
use crate::common::task_info::{spec_from_parts, TaskInfo, TaskInfoView};
use crate::error::Error;
use crate::executor::store_item::{
    ExecutorStoreItem, ExecutorStoreItemView, StoreItemState as ExecutorStoreItemState,
};
use crate::p2p_proto::KeyGenerationCandidateRequest;
use crate::text::join3;

verus! {

/// First part of the storage key of an initial pinner's item.
pub const PREFIX_INITIAL_PINNER_TASK_STORE_ITEM: &'static str = "pinner_task_store_item";

/// How far a task has come, as an initial pinner sees it.
#[derive(Debug, Clone, Copy, PartialEq, Eq, Structural)]
pub enum StoreItemState {
    /// The invitation is accepted.
    Init,
    /// The application is sent.
    Requested,
    /// The slice has arrived and is being stored.
    Responded,
    /// The slice is stored and the receipt is sent.
    Deployed,
}

/// An initial pinner's record of a task.
#[derive(Debug, Clone, PartialEq)]
pub struct InitialPinnerStoreItem {
    pub task_info: TaskInfo,
    pub state: StoreItemState,
}

/// What an [`InitialPinnerStoreItem`] holds, as plain values.
pub struct InitialPinnerStoreItemView {
    pub task_info: TaskInfoView,
    pub state: StoreItemState,
}

impl View for InitialPinnerStoreItem {
    type V = InitialPinnerStoreItemView;

    open spec fn view(&self) -> InitialPinnerStoreItemView {
        InitialPinnerStoreItemView { task_info: self.task_info@, state: self.state }
    }
}

/// The state of an initial pinner that corresponds to a state of an
/// executor.
pub open spec fn spec_state_of(state: ExecutorStoreItemState) -> StoreItemState {
    match state {
        ExecutorStoreItemState::Init => StoreItemState::Init,
        ExecutorStoreItemState::Requested => StoreItemState::Requested,
        ExecutorStoreItemState::Responded => StoreItemState::Responded,
        ExecutorStoreItemState::Executed => StoreItemState::Deployed,
    }
}

/// The initial pinner's item that an executor's item becomes when a
/// candidate executor is promoted to initial pinner.
pub open spec fn spec_from_executor(item: ExecutorStoreItemView) -> InitialPinnerStoreItemView {
    InitialPinnerStoreItemView { task_info: item.task_info, state: spec_state_of(item.state) }
}

/// The storage key of an initial pinner's item.
pub open spec fn spec_task_store_item_key(task_id: Seq<char>) -> Seq<char> {
    PREFIX_INITIAL_PINNER_TASK_STORE_ITEM@ + "_"@ + task_id
}

/// The key under which an initial pinner stores the item of a task.
pub fn get_task_store_item_key(task_id: &str) -> (key: String)
    ensures
        key@ == spec_task_store_item_key(task_id@),
{
    join3(PREFIX_INITIAL_PINNER_TASK_STORE_ITEM, "_", task_id)
}

impl InitialPinnerStoreItem {
    /// Whether an item is stored: what the lookup of a task's item found.
    pub fn contains(stored: &Option<InitialPinnerStoreItem>) -> (r: bool)
        ensures
            r == stored is Some,
    {
        stored.is_some()
    }

    /// The item of the key-generation task that an invitation describes, in
    /// state [`StoreItemState::Init`]. An invitation with invalid parameters
    /// gives no item.
    pub fn from_candidate_request(value: KeyGenerationCandidateRequest) -> (r: Result<Self, Error>)
        ensures
            match (r, spec_from_parts(value.task_id@, value.n, value.k, value.key_type@)) {
                (Ok(item), Ok(task_info)) => item@ == (InitialPinnerStoreItemView {
                    task_info,
                    state: StoreItemState::Init,
                }),
                (Err(e), Err(expected)) => e == expected,
                _ => false,
            },
    {
        match TaskInfo::from_candidate_request(value) {
            Ok(task_info) => Ok(InitialPinnerStoreItem { task_info, state: StoreItemState::Init }),
            Err(e) => Err(e),
        }
    }
}

impl From<ExecutorStoreItem> for InitialPinnerStoreItem {
    /// An executor's item, seen as an initial pinner's: the same task, in
    /// the corresponding state.
    fn from(item: ExecutorStoreItem) -> (r: Self)
        ensures
            r@ == spec_from_executor(item@),
    {
        InitialPinnerStoreItem {
            task_info: item.task_info,
            state: match item.state {
                ExecutorStoreItemState::Init => StoreItemState::Init,
                ExecutorStoreItemState::Requested => StoreItemState::Requested,
                ExecutorStoreItemState::Responded => StoreItemState::Responded,
                ExecutorStoreItemState::Executed => StoreItemState::Deployed,
            },
        }
    }
}

impl vstd::std_specs::convert::FromSpecImpl<ExecutorStoreItem> for InitialPinnerStoreItem {
    open spec fn obeys_from_spec() -> bool {
        true
    }

    open spec fn from_spec(item: ExecutorStoreItem) -> Self {
        InitialPinnerStoreItem {
            task_info: item.task_info,
            state: match item.state {
                ExecutorStoreItemState::Init => StoreItemState::Init,
                ExecutorStoreItemState::Requested => StoreItemState::Requested,
                ExecutorStoreItemState::Responded => StoreItemState::Responded,
                ExecutorStoreItemState::Executed => StoreItemState::Deployed,
            },
        }
    }
}

} // verus!
