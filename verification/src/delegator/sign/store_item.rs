//! What the delegator stores for a signing task.

use vstd::prelude::*;
use crate::action::Step;
use crate::actor_delegate_proto::SignTransactionResponse;
use crate::common::execution_info::{ExecutionInfo, ExecutionInfoView};
use crate::common::task_info::{TaskInfo, TaskInfoView};
use crate::delegator::executor_info::{ExecutorInfo, ExecutorInfoView};
use crate::encoding::{base64_text, encodable, encode};
use crate::error::Error;
use crate::table::{has_key, key_index, spec_get, spec_put, Table};
use crate::text::{copy_bytes, join3, option_view, text, views};

verus! {

/// First part of the storage key of a delegator's signing item.
pub const PREFIX_DELEGATOR_TASK_SIGN_STORE_ITEM: &'static str = "delegator_task_sign_store_item";

/// How far a signing task has come, as its delegator sees it.
#[derive(Debug, Clone, Copy, PartialEq, Eq, Structural)]
pub enum StoreItemState {
    Init,
    Initialized,
    FindingDeployments,
    SentToExecutor,
    CommitResult,
}

/// A key slice as a pinner handed it over: wrapped for the executor.
#[derive(Debug, Clone, PartialEq)]
pub struct KeySliceInfo {
    pub peer_id: String,
    pub encrypted_key_slice: Vec<u8>,
}

/// What a [`KeySliceInfo`] holds, as plain values.
pub struct KeySliceInfoView {
    pub peer_id: Seq<char>,
    pub encrypted_key_slice: Seq<u8>,
}

impl View for KeySliceInfo {
    type V = KeySliceInfoView;

    open spec fn view(&self) -> KeySliceInfoView {
        KeySliceInfoView { peer_id: self.peer_id@, encrypted_key_slice: self.encrypted_key_slice@ }
    }
}

impl DeepView for KeySliceInfo {
    type V = KeySliceInfoView;

    open spec fn deep_view(&self) -> KeySliceInfoView {
        self@
    }
}

/// The delegator's record of a signing task.
#[derive(Debug, Clone, PartialEq)]
pub struct DelegatorSignStoreItem {
    pub task_info: TaskInfo,
    pub state: StoreItemState,
    /// The executor, once one has passed attestation.
    pub executor: Option<ExecutorInfo>,
    pub multi_sig_account: Vec<u8>,
    pub p1_signature: Vec<u8>,
    pub transaction_data: Vec<u8>,
    pub nonce: Vec<u8>,
    /// For each deployment of the account, the slice that a pinner handed
    /// over, once one has.
    pub key_slices: Table<Option<KeySliceInfo>>,
    /// For each deployment of the account, the pinners that passed
    /// attestation before there was an executor, in order of arrival.
    pub deployment_candidates: Table<Vec<String>>,
}

/// What a [`DelegatorSignStoreItem`] holds, as plain values.
pub struct DelegatorSignStoreItemView {
    pub task_info: TaskInfoView,
    pub state: StoreItemState,
    pub executor: Option<ExecutorInfoView>,
    pub multi_sig_account: Seq<u8>,
    pub p1_signature: Seq<u8>,
    pub transaction_data: Seq<u8>,
    pub nonce: Seq<u8>,
    pub key_slices: Seq<(Seq<char>, Option<KeySliceInfoView>)>,
    pub deployment_candidates: Seq<(Seq<char>, Seq<Seq<char>>)>,
}

impl View for DelegatorSignStoreItem {
    type V = DelegatorSignStoreItemView;

    open spec fn view(&self) -> DelegatorSignStoreItemView {
        DelegatorSignStoreItemView {
            task_info: self.task_info@,
            state: self.state,
            executor: option_view(self.executor),
            multi_sig_account: self.multi_sig_account@,
            p1_signature: self.p1_signature@,
            transaction_data: self.transaction_data@,
            nonce: self.nonce@,
            key_slices: self.key_slices.pairs(),
            deployment_candidates: self.deployment_candidates.pairs(),
        }
    }
}

/// How many of the slots hold a slice.
pub open spec fn count_found(slots: Seq<(Seq<char>, Option<KeySliceInfoView>)>) -> nat
    decreases slots.len(),
{
    if slots.len() == 0 {
        0
    } else if slots.last().1 is Some {
        count_found(slots.drop_last()) + 1
    } else {
        count_found(slots.drop_last())
    }
}

/// The slices that the slots hold, in the slots' order.
pub open spec fn found_slices(slots: Seq<(Seq<char>, Option<KeySliceInfoView>)>) -> Seq<Seq<u8>>
    decreases slots.len(),
{
    if slots.len() == 0 {
        Seq::empty()
    } else if slots.last().1 is Some {
        found_slices(slots.drop_last()).push(slots.last().1->0.encrypted_key_slice)
    } else {
        found_slices(slots.drop_last())
    }
}

/// As many slices are found as slots are filled.
pub proof fn lemma_found_slices_len(slots: Seq<(Seq<char>, Option<KeySliceInfoView>)>)
    ensures
        found_slices(slots).len() == count_found(slots),
        count_found(slots) <= slots.len(),
    decreases slots.len(),
{
    if slots.len() > 0 {
        lemma_found_slices_len(slots.drop_last());
    }
}

/// Filling an empty slot adds one found slice, and the slice is among
/// those that are found.
pub proof fn lemma_fill_slot(
    slots: Seq<(Seq<char>, Option<KeySliceInfoView>)>,
    i: int,
    info: KeySliceInfoView,
)
    requires
        0 <= i < slots.len(),
        slots[i].1 is None,
    ensures
        count_found(slots.update(i, (slots[i].0, Some(info)))) == count_found(slots) + 1,
        found_slices(slots.update(i, (slots[i].0, Some(info)))).contains(info.encrypted_key_slice),
    decreases slots.len(),
{
    let filled = slots.update(i, (slots[i].0, Some(info)));
    if i == slots.len() - 1 {
        assert(filled.drop_last() =~= slots.drop_last());
        let found = found_slices(filled);
        assert(found[found.len() - 1] == info.encrypted_key_slice);
    } else {
        let rest = slots.drop_last();
        lemma_fill_slot(rest, i, info);
        assert(filled.drop_last() =~= rest.update(i, (rest[i].0, Some(info))));
        assert(filled.last() == slots.last());
        let inner = found_slices(filled.drop_last());
        let j = choose|j: int| 0 <= j < inner.len() && inner[j] == info.encrypted_key_slice;
        assert(found_slices(filled)[j] == info.encrypted_key_slice);
    }
}

/// Recording the slice of a deployment whose slot is empty adds one found
/// slice: the recorded one.
pub proof fn lemma_recorded_slice_is_found(
    item: DelegatorSignStoreItemView,
    deployment_id: Seq<char>,
    info: KeySliceInfoView,
)
    requires
        has_key(item.key_slices, deployment_id),
        !item.has_found_key_slice(deployment_id),
    ensures
        item.insert_key_slice_info(deployment_id, info) is Ok,
        count_found(item.insert_key_slice_info(deployment_id, info)->Ok_0.key_slices)
            == count_found(item.key_slices) + 1,
        found_slices(item.insert_key_slice_info(deployment_id, info)->Ok_0.key_slices).contains(
            info.encrypted_key_slice,
        ),
{
    let i = key_index(item.key_slices, deployment_id);
    lemma_fill_slot(item.key_slices, i, info);
}

/// The slots after an empty slot is set up for each of `ids`.
pub open spec fn spec_init_slots(
    slots: Seq<(Seq<char>, Option<KeySliceInfoView>)>,
    ids: Seq<Seq<char>>,
) -> Seq<(Seq<char>, Option<KeySliceInfoView>)>
    decreases ids.len(),
{
    if ids.len() == 0 {
        slots
    } else {
        spec_put(spec_init_slots(slots, ids.drop_last()), ids.last(), None)
    }
}

/// The waiting lists after an empty list is set up for each of `ids`.
pub open spec fn spec_init_candidates(
    candidates: Seq<(Seq<char>, Seq<Seq<char>>)>,
    ids: Seq<Seq<char>>,
) -> Seq<(Seq<char>, Seq<Seq<char>>)>
    decreases ids.len(),
{
    if ids.len() == 0 {
        candidates
    } else {
        spec_put(spec_init_candidates(candidates, ids.drop_last()), ids.last(), Seq::empty())
    }
}

impl DelegatorSignStoreItemView {
    /// The item of a signing task that has just been accepted: its
    /// parameters are not known yet.
    pub open spec fn fresh(
        task_id: Seq<char>,
        multi_sig_account: Seq<u8>,
        p1_signature: Seq<u8>,
        transaction_data: Seq<u8>,
    ) -> Self {
        DelegatorSignStoreItemView {
            task_info: TaskInfoView {
                task_id,
                exec_info: ExecutionInfoView { n: 0, k: 0, task_type: Seq::empty() },
            },
            state: StoreItemState::Init,
            executor: None,
            multi_sig_account,
            p1_signature,
            transaction_data,
            nonce: Seq::empty(),
            key_slices: Seq::empty(),
            deployment_candidates: Seq::empty(),
        }
    }

    /// The item with an empty slot and an empty waiting list for each of
    /// `ids`.
    pub open spec fn init_deployment_resources(self, ids: Seq<Seq<char>>) -> Self {
        DelegatorSignStoreItemView {
            key_slices: spec_init_slots(self.key_slices, ids),
            deployment_candidates: spec_init_candidates(self.deployment_candidates, ids),
            ..self
        }
    }

    /// Whether a slice of the deployment has been handed over.
    pub open spec fn has_found_key_slice(self, deployment_id: Seq<char>) -> bool {
        spec_get(self.key_slices, deployment_id) matches Some(Some(_))
    }

    /// The task can go to the executor: at least `k` slices are found, and
    /// there is an executor.
    pub open spec fn ready_send_to_executor(self) -> bool {
        count_found(self.key_slices) >= self.task_info.exec_info.k && self.executor is Some
    }

    /// The item after `peer_id` joins the waiting list of a deployment, or
    /// the error where the deployment is none of the task's.
    pub open spec fn insert_deployment(self, deployment_id: Seq<char>, peer_id: Seq<char>) -> Result<
        Self,
        Error,
    > {
        if !has_key(self.deployment_candidates, deployment_id) {
            Err(Error::UnknownDeployment)
        } else {
            Ok(
                DelegatorSignStoreItemView {
                    deployment_candidates: spec_put(
                        self.deployment_candidates,
                        deployment_id,
                        spec_get(self.deployment_candidates, deployment_id)->0.push(peer_id),
                    ),
                    ..self
                },
            )
        }
    }

    /// The item after the slice of a deployment is recorded, or the error
    /// where the deployment is none of the task's.
    pub open spec fn insert_key_slice_info(
        self,
        deployment_id: Seq<char>,
        info: KeySliceInfoView,
    ) -> Result<Self, Error> {
        if !has_key(self.key_slices, deployment_id) {
            Err(Error::UnknownDeployment)
        } else {
            Ok(
                DelegatorSignStoreItemView {
                    key_slices: spec_put(self.key_slices, deployment_id, Some(info)),
                    ..self
                },
            )
        }
    }
}

/// The storage key of a delegator's signing item.
pub open spec fn spec_task_store_item_key(task_id: Seq<char>) -> Seq<char> {
    PREFIX_DELEGATOR_TASK_SIGN_STORE_ITEM@ + "_"@ + task_id
}

/// The key under which the delegator stores the signing item of a task.
pub fn get_task_store_item_key(task_id: &str) -> (key: String)
    ensures
        key@ == spec_task_store_item_key(task_id@),
{
    join3(PREFIX_DELEGATOR_TASK_SIGN_STORE_ITEM, "_", task_id)
}

/// Whether a stored item, if there is one, is well-formed.
pub open spec fn item_wf(item: Option<DelegatorSignStoreItem>) -> bool {
    match item {
        Some(item) => item.wf(),
        None => true,
    }
}

/// Whether the item that a handler's outcome holds, if any, is well-formed.
pub open spec fn result_wf(r: Result<Step<DelegatorSignStoreItem>, Error>) -> bool {
    match r {
        Ok(step) => item_wf(step.item),
        Err(_) => true,
    }
}

/// The view of a stored item, if there is one.
pub open spec fn option_view_of(stored: Option<DelegatorSignStoreItem>) -> Option<
    DelegatorSignStoreItemView,
> {
    option_view(stored)
}

impl DelegatorSignStoreItem {
    /// No deployment has two slots or two waiting lists.
    pub open spec fn wf(&self) -> bool {
        self.key_slices.wf() && self.deployment_candidates.wf()
    }

    /// The item of a signing task with the given id, in state
    /// [`StoreItemState::Init`]: no parameters, no executor, no deployments.
    pub fn new(
        task_id: String,
        multi_sig_account: Vec<u8>,
        p1_signature: Vec<u8>,
        transaction_data: Vec<u8>,
    ) -> (r: Self)
        ensures
            r@ == DelegatorSignStoreItemView::fresh(
                task_id@,
                multi_sig_account@,
                p1_signature@,
                transaction_data@,
            ),
            r.wf(),
    {
        let item = DelegatorSignStoreItem {
            task_info: TaskInfo {
                task_id,
                exec_info: ExecutionInfo { n: 0, k: 0, task_type: String::new() },
            },
            nonce: Vec::new(),
            state: StoreItemState::Init,
            executor: None,
            multi_sig_account,
            p1_signature,
            transaction_data,
            key_slices: Table::new(),
            deployment_candidates: Table::new(),
        };
        assert(item@.nonce =~= Seq::empty());
        item
    }

    /// The item of a signing task that the ledger announced, in state
    /// [`StoreItemState::Init`]. The task's id is the base64 text of the
    /// announced id.
    pub fn from_sign_event(value: SignTransactionResponse) -> (r: Self)
        requires
            encodable(value.task_id@.len()),
        ensures
            r@ == DelegatorSignStoreItemView::fresh(
                base64_text(value.task_id@),
                value.multi_sig_account@,
                value.p1_signature@,
                value.data_adhoc.transaction_data@,
            ),
            r.wf(),
    {
        DelegatorSignStoreItem::new(
            encode(&value.task_id),
            value.multi_sig_account,
            value.p1_signature,
            value.data_adhoc.transaction_data,
        )
    }

    /// Sets up an empty slot and an empty waiting list for each deployment.
    /// A deployment that has them already gets them emptied.
    pub fn init_deployment_resources(&mut self, deployment_ids: &Vec<String>)
        requires
            old(self).wf(),
        ensures
            final(self)@ == old(self)@.init_deployment_resources(views(deployment_ids@)),
            final(self).wf(),
    {
        let ghost before = self@;
        let ghost ids = views(deployment_ids@);
        let mut i: usize = 0;
        assert(ids.take(0) =~= Seq::empty());
        while i < deployment_ids.len()
            invariant
                i <= deployment_ids@.len(),
                ids == views(deployment_ids@),
                self.wf(),
                self@ == before.init_deployment_resources(ids.take(i as int)),
            decreases deployment_ids@.len() - i,
        {
            self.key_slices.put(deployment_ids[i].clone(), None);
            let empty: Vec<String> = Vec::new();
            assert(empty.deep_view() =~= Seq::<Seq<char>>::empty());
            self.deployment_candidates.put(deployment_ids[i].clone(), empty);
            proof {
                let next = ids.take(i + 1);
                assert(next.drop_last() =~= ids.take(i as int));
                assert(next.last() == deployment_ids@[i as int]@);
            }
            i = i + 1;
        }
        assert(ids.take(deployment_ids@.len() as int) =~= ids);
    }

    /// Whether a slice of the deployment has been handed over.
    pub fn has_found_key_slice(&self, deployment_id: &str) -> (r: bool)
        requires
            self.wf(),
        ensures
            r == self@.has_found_key_slice(deployment_id@),
    {
        match self.key_slices.find(deployment_id) {
            Some(i) => self.key_slices.value_at(i).is_some(),
            None => false,
        }
    }

    /// Puts `peer_id` on the waiting list of a deployment. A deployment
    /// that is none of the task's is an error and changes nothing.
    pub fn insert_deployment(&mut self, deployment_id: &str, peer_id: &str) -> (r: Result<
        (),
        Error,
    >)
        requires
            old(self).wf(),
        ensures
            match r {
                Ok(_) => old(self)@.insert_deployment(deployment_id@, peer_id@) == Ok::<
                    DelegatorSignStoreItemView,
                    Error,
                >(final(self)@),
                Err(e) => old(self)@.insert_deployment(deployment_id@, peer_id@) == Err::<
                    DelegatorSignStoreItemView,
                    Error,
                >(e) && *final(self) == *old(self),
            },
            final(self).wf(),
    {
        match self.deployment_candidates.find(deployment_id) {
            Some(i) => {
                let ghost waiting = self.deployment_candidates.pairs()[i as int].1;
                let mut list = self.deployment_candidates.replace(i, Vec::new());
                list.push(text(peer_id));
                assert(list.deep_view() =~= waiting.push(peer_id@));
                let _ = self.deployment_candidates.replace(i, list);
                assert(self@.deployment_candidates =~= spec_put(
                    old(self)@.deployment_candidates,
                    deployment_id@,
                    waiting.push(peer_id@),
                ));
                Ok(())
            },
            None => Err(Error::UnknownDeployment),
        }
    }

    /// Records the slice of a deployment. A deployment that is none of the
    /// task's is an error and changes nothing.
    pub fn insert_key_slice_info(&mut self, deployment_id: &str, info: KeySliceInfo) -> (r: Result<
        (),
        Error,
    >)
        requires
            old(self).wf(),
        ensures
            match r {
                Ok(_) => old(self)@.insert_key_slice_info(deployment_id@, info@) == Ok::<
                    DelegatorSignStoreItemView,
                    Error,
                >(final(self)@),
                Err(e) => old(self)@.insert_key_slice_info(deployment_id@, info@) == Err::<
                    DelegatorSignStoreItemView,
                    Error,
                >(e) && *final(self) == *old(self),
            },
            final(self).wf(),
    {
        match self.key_slices.find(deployment_id) {
            Some(i) => {
                let _ = self.key_slices.replace(i, Some(info));
                assert(self@.key_slices =~= spec_put(
                    old(self)@.key_slices,
                    deployment_id@,
                    Some(info@),
                ));
                Ok(())
            },
            None => Err(Error::UnknownDeployment),
        }
    }

    /// Whether the task can go to the executor: at least `k` slices are
    /// found, and there is an executor.
    pub fn ready_send_to_executor(&self) -> (r: bool)
        ensures
            r == self@.ready_send_to_executor(),
    {
        let ghost slots = self@.key_slices;
        let mut found: usize = 0;
        let mut i: usize = 0;
        assert(slots.take(0) =~= Seq::empty());
        while i < self.key_slices.len()
            invariant
                i <= self.key_slices.entries@.len(),
                slots == self@.key_slices,
                found == count_found(slots.take(i as int)),
                found <= i,
            decreases self.key_slices.entries@.len() - i,
        {
            proof {
                let next = slots.take(i + 1);
                assert(next.drop_last() =~= slots.take(i as int));
                assert(next.last() == slots[i as int]);
            }
            if self.key_slices.value_at(i).is_some() {
                found = found + 1;
            }
            i = i + 1;
        }
        assert(slots.take(self.key_slices.entries@.len() as int) =~= slots);
        found >= self.task_info.exec_info.k as usize && self.executor.is_some()
    }

    /// Empties the waiting lists and hands them back: for each deployment,
    /// the pinners that waited for an executor.
    pub fn pop_all_candidates(&mut self) -> (r: Table<Vec<String>>)
        ensures
            r.pairs() == old(self)@.deployment_candidates,
            final(self)@ == (DelegatorSignStoreItemView {
                deployment_candidates: Seq::empty(),
                ..old(self)@
            }),
            old(self).wf() ==> final(self).wf() && r.wf(),
    {
        let entries = self.deployment_candidates.take_all();
        let r = Table { entries };
        assert(r.pairs() =~= old(self)@.deployment_candidates);
        r
    }

    /// The slices that have been handed over, in the order of the
    /// deployments.
    pub fn get_encrypted_key_slices(&self) -> (r: Vec<Vec<u8>>)
        ensures
            views(r@) == found_slices(self@.key_slices),
    {
        let ghost slots = self@.key_slices;
        let mut rtn: Vec<Vec<u8>> = Vec::new();
        let mut i: usize = 0;
        assert(slots.take(0) =~= Seq::empty());
        assert(views(rtn@) =~= found_slices(slots.take(0)));
        while i < self.key_slices.len()
            invariant
                i <= self.key_slices.entries@.len(),
                slots == self@.key_slices,
                views(rtn@) == found_slices(slots.take(i as int)),
            decreases self.key_slices.entries@.len() - i,
        {
            let ghost collected = views(rtn@);
            proof {
                let next = slots.take(i + 1);
                assert(next.drop_last() =~= slots.take(i as int));
                assert(next.last() == slots[i as int]);
            }
            match self.key_slices.value_at(i) {
                Some(info) => {
                    rtn.push(copy_bytes(&info.encrypted_key_slice));
                    assert(views(rtn@) =~= collected.push(info@.encrypted_key_slice));
                },
                None => {},
            }
            i = i + 1;
        }
        assert(slots.take(self.key_slices.entries@.len() as int) =~= slots);
        rtn
    }
}

} // verus!
