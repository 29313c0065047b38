//! The delegator's part in key generation.
//!
//! The delegator accepts the task from the ledger, invites candidates,
//! collects those that pass attestation, elects one executor and `n` initial
//! pinners, hands the executor's wrapped key slices to the initial pinners
//! and commits their receipts to the ledger.

use vstd::prelude::*;
use vstd::string::*;
use crate::action::{
    agrees, missing_item, rejected, reply, send_message, spec_missing_item, Action, ActionView,
    P2pReplyType, Step, StepView,
};
use crate::actor_delegate_proto::{
    GetDelegatesRequestView, KeyGenerationResponse, KeyGenerationResponseView,
};
use crate::common::task_info::{spec_from_parts, TaskInfo, TaskInfoView};
use crate::common::utils::invite_candidate_executors;
use crate::delegator::executor_info::ExecutorInfo;
use crate::delegator::key_gen::initial_pinner_info::InitialPinnerInfo;
use crate::delegator::key_gen::store_item::{
    DelegatorKeyGenStoreItem, DelegatorKeyGenStoreItemView, StoreItemState,
};
use crate::encoding::{base64_text, encodable};
use crate::error::Error;
use crate::p2p_proto::{
    GeneralMsgView, Msg, MsgView, TaskExecutionRequest, TaskExecutionResponse,
    TaskExecutionResponseView, TaskPinnerKeySliceRequest, TaskPinnerKeySliceRequestView,
    TaskPinnerKeySliceResponse, TaskPinnerKeySliceResponseView, TaskResultInitialPinnerData,
    TaskResultInitialPinnerDataView,
};
use crate::table::{has_key, spec_put};
use crate::text::{copy_bytes, text, views};

pub mod candidates;
pub mod execution_request;
pub mod initial_pinner_info;
pub mod observers;
pub mod ra;
pub mod store_item;

pub use observers::{is_key_gen_tag, operation_after_verify_handler};
pub use ra::{remote_attestation_executor, remote_attestation_initial_pinner};

verus! {

/// A pool of attested candidates from which the roles of a task are elected.
pub trait TaskCandidates {
    /// Whether enough candidates have arrived to elect from.
    fn ready(&self) -> bool;

    /// Adds a candidate for the executor's role.
    fn insert_executor(&mut self, executor: ExecutorInfo);

    /// Adds a candidate for an initial pinner's role.
    fn insert_initial_pinner(&mut self, pinner: InitialPinnerInfo);

    /// Elects the executor and the initial pinners from the pool.
    fn elect(&mut self) -> Result<(), Error>;
}

/// Something that can tell the elected executor what to do.
pub trait ExecutorRequestConstructor {
    /// Whether everything the request needs has been elected.
    fn ready(&self) -> bool;

    /// Builds the request.
    fn generate(&self) -> Result<TaskExecutionRequest, Error>;
}

/// What the delegator keeps and does when it accepts a task.
pub open spec fn spec_accept_task(
    task_info: TaskInfoView,
    p1_public_key: Seq<u8>,
    nonce: Seq<u8>,
) -> StepView<DelegatorKeyGenStoreItemView> {
    StepView {
        item: Some(
            DelegatorKeyGenStoreItemView {
                nonce,
                state: StoreItemState::InvitedCandidates,
                ..DelegatorKeyGenStoreItemView::fresh(task_info, p1_public_key)
            },
        ),
        actions: seq![
            ActionView::GetDelegates(
                GetDelegatesRequestView { start: 0, limit: task_info.exec_info.n as u32 },
            ),
        ],
    }
}

/// What the delegator keeps and does when the ledger announces a task that
/// is addressed to it.
pub open spec fn spec_process_key_generation_event(
    res: KeyGenerationResponseView,
    nonce: Seq<u8>,
) -> Result<StepView<DelegatorKeyGenStoreItemView>, Error> {
    match spec_from_parts(
        base64_text(res.task_id),
        res.data_adhoc.n,
        res.data_adhoc.k,
        res.data_adhoc.key_type,
    ) {
        Err(e) => Err(e),
        Ok(task_info) => Ok(spec_accept_task(task_info, res.p1_public_key, nonce)),
    }
}

/// Accepts a task: its item is created with the first public key and the
/// nonce, the invitation of candidates begins with the question for the
/// first `n` delegates, and the item's state is
/// [`StoreItemState::InvitedCandidates`].
pub fn accept_task(task_info: TaskInfo, p1_public_key: Vec<u8>, nonce: Vec<u8>) -> (step: Step<
    DelegatorKeyGenStoreItem,
>)
    ensures
        step@ == spec_accept_task(task_info@, p1_public_key@, nonce@),
        store_item::item_wf(step.item),
{
    let mut item = DelegatorKeyGenStoreItem::new(task_info, p1_public_key);
    item.nonce = nonce;
    item.state = StoreItemState::InvitedCandidates;
    let mut actions: Vec<Action> = Vec::new();
    actions.push(invite_candidate_executors(&item.task_info));
    let step = Step { item: Some(item), actions };
    assert(step@.actions =~= spec_accept_task(task_info@, p1_public_key@, nonce@).actions);
    step
}

/// Accepts a key-generation task that the ledger announced and that is
/// addressed to this node; `nonce` is the nonce that proves it. The task's
/// id is the base64 text of the announced id. An announcement with invalid
/// parameters is refused; otherwise the task is accepted as [`accept_task`]
/// says.
pub fn process_key_generation_event(res: KeyGenerationResponse, nonce: Vec<u8>) -> (r: Result<
    Step<DelegatorKeyGenStoreItem>,
    Error,
>)
    requires
        encodable(res.task_id@.len()),
    ensures
        agrees(r, spec_process_key_generation_event(res@, nonce@)),
        store_item::result_wf(r),
{
    let p1_public_key = copy_bytes(&res.p1_public_key);
    match TaskInfo::from_key_generation_event(res) {
        Ok(task_info) => Ok(accept_task(task_info, p1_public_key, nonce)),
        Err(e) => Err(e),
    }
}

/// What an election with dispatch keeps and does: the executor and the
/// initial pinners are elected from the pools as they are, and the executor
/// is sent its request.
pub open spec fn spec_elect_and_dispatch(item: DelegatorKeyGenStoreItemView) -> Result<
    StepView<DelegatorKeyGenStoreItemView>,
    Error,
> {
    match item.elect() {
        Err(e) => Err(e),
        Ok(elected) => if !elected.request_ready() {
            Err(Error::NotElected)
        } else {
            Ok(
                StepView {
                    item: Some(
                        DelegatorKeyGenStoreItemView {
                            state: StoreItemState::SentToExecutor,
                            ..elected
                        },
                    ),
                    actions: seq![
                        ActionView::SendMessage {
                            peer_id: elected.executor->0.peer_id,
                            task_id: elected.task_info.task_id,
                            msg: GeneralMsgView {
                                msg: Some(MsgView::TaskExecutionRequest(elected.execution_request())),
                            },
                        },
                    ],
                },
            )
        },
    }
}

/// What [`try_send_to_executor`] keeps and does.
pub open spec fn spec_try_send_to_executor(item: DelegatorKeyGenStoreItemView) -> Result<
    StepView<DelegatorKeyGenStoreItemView>,
    Error,
> {
    if !item.candidates_ready() {
        Ok(StepView { item: Some(item), actions: Seq::empty() })
    } else {
        spec_elect_and_dispatch(item)
    }
}

/// Elects the executor and the initial pinners from the pools as they are,
/// sends the executor its request, and sets the item's state to
/// [`StoreItemState::SentToExecutor`]. An election without a candidate
/// executor, or one that does not end with exactly `n` initial pinners, is an
/// error.
pub fn elect_and_dispatch(item: DelegatorKeyGenStoreItem) -> (r: Result<
    Step<DelegatorKeyGenStoreItem>,
    Error,
>)
    requires
        item.wf(),
    ensures
        agrees(r, spec_elect_and_dispatch(item@)),
        store_item::result_wf(r),
{
    let ghost before = item@;
    let mut item = item;
    match item.elect() {
        Ok(_) => {},
        Err(e) => {
            return Err(e);
        },
    }
    if !item.request_ready() {
        return Err(Error::NotElected);
    }
    let ghost elected = item@;
    let req = match item.generate() {
        Ok(req) => req,
        Err(e) => {
            return Err(e);
        },
    };
    let mut actions: Vec<Action> = Vec::new();
    match &item.executor {
        Some(executor) => {
            actions.push(
                send_message(
                    executor.peer_id.as_str(),
                    item.task_info.task_id.as_str(),
                    Msg::TaskExecutionRequest(req),
                ),
            );
        },
        None => {
            return Err(Error::NotElected);
        },
    }
    item.state = StoreItemState::SentToExecutor;
    let step = Step { item: Some(item), actions };
    assert(step@.actions =~= spec_elect_and_dispatch(before)->Ok_0.actions);
    Ok(step)
}

/// Elects and dispatches as soon as enough candidates have arrived. Until
/// then the item stays as it is and nothing is sent. Once the candidates
/// are ready, the executor and the initial pinners are elected, the executor
/// is sent its request, and the item's state becomes
/// [`StoreItemState::SentToExecutor`]: see [`elect_and_dispatch`].
pub fn try_send_to_executor(item: DelegatorKeyGenStoreItem) -> (r: Result<
    Step<DelegatorKeyGenStoreItem>,
    Error,
>)
    requires
        item.wf(),
    ensures
        agrees(r, spec_try_send_to_executor(item@)),
        store_item::result_wf(r),
{
    if !item.candidates_ready() {
        let step = Step { item: Some(item), actions: Vec::new() };
        assert(step@.actions =~= Seq::empty());
        return Ok(step);
    }
    elect_and_dispatch(item)
}

/// Once the candidates are ready, and no more than `n` initial pinners were
/// elected before, the task is dispatched: the item holds an executor and
/// exactly `n` initial pinners, and is in state
/// [`StoreItemState::SentToExecutor`].
pub proof fn lemma_ready_candidates_are_dispatched(item: DelegatorKeyGenStoreItemView)
    requires
        item.candidates_ready(),
        item.initial_pinners.len() <= item.task_info.exec_info.n,
    ensures
        spec_try_send_to_executor(item) is Ok,
        spec_try_send_to_executor(item)->Ok_0.item is Some,
        spec_try_send_to_executor(item)->Ok_0.item->0.state == StoreItemState::SentToExecutor,
        spec_try_send_to_executor(item)->Ok_0.item->0.executor is Some,
        spec_try_send_to_executor(item)->Ok_0.item->0.initial_pinners.len()
            == item.task_info.exec_info.n,
        spec_try_send_to_executor(item)->Ok_0.actions.len() == 1,
{
    store_item::lemma_election_completes(item);
}

/// What to do when the candidates of a task have not become ready in time.
#[derive(Debug, Clone, Copy, PartialEq, Eq, Structural)]
pub enum TimeoutPolicy {
    /// Elect from the candidates that have arrived.
    Proceed,
    /// Give the task up.
    Fail,
}

/// What the delegator keeps and does when the collection of candidates
/// times out.
pub open spec fn spec_on_candidate_timeout(
    stored: Option<DelegatorKeyGenStoreItemView>,
    policy: TimeoutPolicy,
) -> Result<StepView<DelegatorKeyGenStoreItemView>, Error> {
    match stored {
        None => Err(Error::TaskNotFound),
        Some(item) => if item.state != StoreItemState::InvitedCandidates {
            Ok(StepView::idle())
        } else {
            match policy {
                TimeoutPolicy::Fail => Err(Error::CandidateTimeout),
                TimeoutPolicy::Proceed => spec_elect_and_dispatch(item),
            }
        },
    }
}

/// Handles the timeout of the collection of candidates. Without an item the
/// task is unknown. A task that has left
/// [`StoreItemState::InvitedCandidates`] was dispatched in time: nothing
/// happens. Otherwise the policy decides: the task is given up, or the
/// election takes place with the candidates that have arrived, which
/// succeeds only if they fill every role.
pub fn on_candidate_timeout(stored: Option<DelegatorKeyGenStoreItem>, policy: TimeoutPolicy) -> (r:
    Result<Step<DelegatorKeyGenStoreItem>, Error>)
    requires
        store_item::item_wf(stored),
    ensures
        agrees(r, spec_on_candidate_timeout(option_view_of(stored), policy)),
        store_item::result_wf(r),
{
    let item = match stored {
        Some(item) => item,
        None => {
            return Err(Error::TaskNotFound);
        },
    };
    if item.state != StoreItemState::InvitedCandidates {
        return Ok(Step::idle());
    }
    match policy {
        TimeoutPolicy::Fail => Err(Error::CandidateTimeout),
        TimeoutPolicy::Proceed => elect_and_dispatch(item),
    }
}

/// The requests that hand the initial pinners their wrapped slices: one per
/// pinner, in the order of the executor's response.
pub open spec fn spec_slice_requests(task_id: Seq<char>, res: TaskExecutionResponseView) -> Seq<
    ActionView,
> {
    Seq::new(
        res.initial_pinners.len(),
        |i: int| spec_share_slice(task_id, res.initial_pinners[i], res.p2_public_key, res.multi_sig_account),
    )
}

/// The request that hands one initial pinner its wrapped slice.
pub open spec fn spec_share_slice(
    task_id: Seq<char>,
    data: TaskResultInitialPinnerDataView,
    pub_key: Seq<u8>,
    multi_sig_account: Seq<u8>,
) -> ActionView {
    ActionView::SendMessage {
        peer_id: data.peer_id,
        task_id,
        msg: GeneralMsgView {
            msg: Some(
                MsgView::TaskPinnerKeySliceRequest(
                    TaskPinnerKeySliceRequestView {
                        task_id,
                        public_key: pub_key,
                        encrypted_key_slice: data.encrypted_key_slice,
                        multi_sig_account,
                    },
                ),
            ),
        },
    }
}

/// The responses after each of `pinners` is recorded as not having answered
/// yet.
pub open spec fn spec_record_pinners(
    responses: Seq<(Seq<char>, Option<Seq<char>>)>,
    pinners: Seq<TaskResultInitialPinnerDataView>,
) -> Seq<(Seq<char>, Option<Seq<char>>)>
    decreases pinners.len(),
{
    if pinners.len() == 0 {
        responses
    } else {
        spec_put(spec_record_pinners(responses, pinners.drop_last()), pinners.last().peer_id, None)
    }
}

/// What the delegator keeps and does when the executor's response arrives.
pub open spec fn spec_process_task_execution_response(
    stored: Option<DelegatorKeyGenStoreItemView>,
    res: TaskExecutionResponseView,
    peer_id: Seq<char>,
    reply_to: Seq<char>,
) -> StepView<DelegatorKeyGenStoreItemView> {
    match stored {
        None => StepView {
            item: None,
            actions: seq![spec_missing_item("DelegatorStoreItem"@, res.task_id, peer_id, reply_to)],
        },
        Some(item) => StepView {
            item: Some(
                DelegatorKeyGenStoreItemView {
                    p2_public_key: Some(res.p2_public_key),
                    multi_sig_account: Some(res.multi_sig_account),
                    state: StoreItemState::SentToInitialPinner,
                    initial_pinner_responses: spec_record_pinners(
                        item.initial_pinner_responses,
                        res.initial_pinners,
                    ),
                    ..item
                },
            ),
            actions: spec_slice_requests(item.task_info.task_id, res).push(
                ActionView::Reply { reply_to, body: "received task response"@ },
            ),
        },
    }
}

/// Hands one initial pinner its wrapped slice, with the second public key
/// and the account.
pub fn share_slices_to_initial_pinner(
    task_id: &str,
    data: &TaskResultInitialPinnerData,
    pub_key: &Vec<u8>,
    multi_sig_account: &Vec<u8>,
) -> (action: Action)
    ensures
        action@ == spec_share_slice(task_id@, data@, pub_key@, multi_sig_account@),
{
    send_message(
        data.peer_id.as_str(),
        task_id,
        Msg::TaskPinnerKeySliceRequest(
            TaskPinnerKeySliceRequest {
                task_id: text(task_id),
                public_key: copy_bytes(pub_key),
                encrypted_key_slice: copy_bytes(&data.encrypted_key_slice),
                multi_sig_account: copy_bytes(multi_sig_account),
            },
        ),
    )
}

/// The item after the executor's result is recorded.
pub open spec fn spec_record_execution_result(
    item: DelegatorKeyGenStoreItemView,
    res: TaskExecutionResponseView,
) -> DelegatorKeyGenStoreItemView {
    DelegatorKeyGenStoreItemView {
        p2_public_key: Some(res.p2_public_key),
        multi_sig_account: Some(res.multi_sig_account),
        state: StoreItemState::ReceivedExecutionResult,
        ..item
    }
}

/// What the delegator keeps and does when it hands out the wrapped slices.
pub open spec fn spec_share_key_slices(
    item: DelegatorKeyGenStoreItemView,
    res: TaskExecutionResponseView,
    reply_to: Seq<char>,
) -> StepView<DelegatorKeyGenStoreItemView> {
    StepView {
        item: Some(
            DelegatorKeyGenStoreItemView {
                state: StoreItemState::SentToInitialPinner,
                initial_pinner_responses: spec_record_pinners(
                    item.initial_pinner_responses,
                    res.initial_pinners,
                ),
                ..item
            },
        ),
        actions: spec_slice_requests(item.task_info.task_id, res).push(
            ActionView::Reply { reply_to, body: "received task response"@ },
        ),
    }
}

/// Handling the executor's response is recording its result, then handing
/// out the slices.
pub proof fn lemma_execution_response_in_two_steps(
    item: DelegatorKeyGenStoreItemView,
    res: TaskExecutionResponseView,
    peer_id: Seq<char>,
    reply_to: Seq<char>,
)
    ensures
        spec_process_task_execution_response(Some(item), res, peer_id, reply_to)
            == spec_share_key_slices(spec_record_execution_result(item, res), res, reply_to),
{
}

/// Records the executor's result: the second public key and the account.
/// The item's state becomes [`StoreItemState::ReceivedExecutionResult`].
pub fn record_execution_result(item: DelegatorKeyGenStoreItem, res: &TaskExecutionResponse) -> (r:
    DelegatorKeyGenStoreItem)
    requires
        item.wf(),
    ensures
        r@ == spec_record_execution_result(item@, res@),
        r.wf(),
{
    let mut item = item;
    item.p2_public_key = Some(copy_bytes(&res.p2_public_key));
    item.multi_sig_account = Some(copy_bytes(&res.multi_sig_account));
    item.state = StoreItemState::ReceivedExecutionResult;
    item
}

/// Hands out the wrapped slices: every initial pinner of the executor's
/// response is sent its slice and recorded as not having answered yet, the
/// item's state becomes [`StoreItemState::SentToInitialPinner`], and the
/// executor's response is acknowledged.
pub fn share_key_slices(
    item: DelegatorKeyGenStoreItem,
    res: &TaskExecutionResponse,
    reply_to: &str,
) -> (step: Step<DelegatorKeyGenStoreItem>)
    requires
        item.wf(),
    ensures
        step@ == spec_share_key_slices(item@, res@, reply_to@),
        store_item::item_wf(step.item),
{
    let ghost before = item@;
    let mut item = item;
    let mut actions: Vec<Action> = Vec::new();
    let mut i: usize = 0;
    assert(res@.initial_pinners.take(0) =~= Seq::empty());
    while i < res.initial_pinners.len()
        invariant
            i <= res.initial_pinners@.len(),
            item.wf(),
            actions@.len() == i,
            forall|j: int|
                0 <= j < i ==> actions@[j]@ == spec_share_slice(
                    before.task_info.task_id,
                    res@.initial_pinners[j],
                    res@.p2_public_key,
                    res@.multi_sig_account,
                ),
            item@ == (DelegatorKeyGenStoreItemView {
                initial_pinner_responses: spec_record_pinners(
                    before.initial_pinner_responses,
                    res@.initial_pinners.take(i as int),
                ),
                ..before
            }),
        decreases res.initial_pinners@.len() - i,
    {
        let pinner_data = &res.initial_pinners[i];
        actions.push(
            share_slices_to_initial_pinner(
                item.task_info.task_id.as_str(),
                pinner_data,
                &res.p2_public_key,
                &res.multi_sig_account,
            ),
        );
        item.initial_pinner_responses.put(pinner_data.peer_id.clone(), None);
        proof {
            let next = res@.initial_pinners.take(i + 1);
            assert(next.drop_last() =~= res@.initial_pinners.take(i as int));
            assert(next.last() == res@.initial_pinners[i as int]);
            assert(res@.initial_pinners[i as int] == pinner_data@);
        }
        i = i + 1;
    }
    assert(res@.initial_pinners.take(res.initial_pinners@.len() as int) =~= res@.initial_pinners);
    item.state = StoreItemState::SentToInitialPinner;
    actions.push(reply(reply_to, "received task response"));
    let step = Step { item: Some(item), actions };
    assert(step@.actions =~= spec_slice_requests(before.task_info.task_id, res@).push(
        ActionView::Reply { reply_to: reply_to@, body: "received task response"@ },
    ));
    step
}

/// Handles the executor's response. `stored` is the delegator's item of the
/// task, if there is one; without it the sender gets an error reply.
/// Otherwise the executor's result is recorded, see
/// [`record_execution_result`], and the slices are handed out, see
/// [`share_key_slices`].
pub fn process_task_execution_response(
    stored: Option<DelegatorKeyGenStoreItem>,
    res: TaskExecutionResponse,
    peer_id: &str,
    reply_to: &str,
) -> (step: Step<DelegatorKeyGenStoreItem>)
    requires
        store_item::item_wf(stored),
    ensures
        step@ == spec_process_task_execution_response(
            option_view_of(stored),
            res@,
            peer_id@,
            reply_to@,
        ),
        store_item::item_wf(step.item),
{
    match stored {
        Some(item) => {
            let recorded = record_execution_result(item, &res);
            share_key_slices(recorded, &res, reply_to)
        },
        None => Step::only(
            missing_item("DelegatorStoreItem", res.task_id.as_str(), peer_id, reply_to),
        ),
    }
}

/// The view of a stored item, if there is one.
pub open spec fn option_view_of(stored: Option<DelegatorKeyGenStoreItem>) -> Option<
    DelegatorKeyGenStoreItemView,
> {
    crate::text::option_view(stored)
}

/// The text that refuses the receipt of a peer that was handed no slice.
pub open spec fn spec_unknown_pinner_message(peer_id: Seq<char>, task_id: Seq<char>) -> Seq<char> {
    "failed to get initial pinner's (peer id is "@ + peer_id + ") info with task_id of "@ + task_id
}

/// What the delegator keeps and does when an initial pinner's receipt
/// arrives.
pub open spec fn spec_process_task_pinner_key_slice_response(
    stored: Option<DelegatorKeyGenStoreItemView>,
    res: TaskPinnerKeySliceResponseView,
    peer_id: Seq<char>,
    reply_to: Seq<char>,
) -> Result<StepView<DelegatorKeyGenStoreItemView>, Error> {
    match stored {
        None => Ok(
            StepView {
                item: None,
                actions: seq![
                    spec_missing_item("DelegatorStoreItem"@, res.task_id, peer_id, reply_to),
                ],
            },
        ),
        Some(item) => if !has_key(item.initial_pinner_responses, peer_id) {
            Ok(
                StepView {
                    item: None,
                    actions: seq![
                        ActionView::Respond {
                            reply_to,
                            peer_id,
                            task_id: res.task_id,
                            message: spec_unknown_pinner_message(peer_id, res.task_id),
                            reply_type: P2pReplyType::Rejected,
                        },
                    ],
                },
            )
        } else {
            let answered = DelegatorKeyGenStoreItemView {
                initial_pinner_responses: spec_put(
                    item.initial_pinner_responses,
                    peer_id,
                    Some(res.deployment_id),
                ),
                ..item
            };
            if answered.all_initial_pinners_ready() {
                let complete = DelegatorKeyGenStoreItemView {
                    state: StoreItemState::ReceivedAllPinnerResponse,
                    ..answered
                };
                match complete.update_result() {
                    Ok(result) => Ok(
                        StepView {
                            item: Some(complete),
                            actions: seq![ActionView::UpdateGenerateKeyResult(result)],
                        },
                    ),
                    Err(e) => Err(e),
                }
            } else {
                Ok(
                    StepView {
                        item: Some(answered),
                        actions: seq![
                            ActionView::Reply {
                                reply_to,
                                body: "received initial pinner key slice response"@,
                            },
                        ],
                    },
                )
            }
        },
    }
}

/// Handles an initial pinner's receipt. `stored` is the delegator's item of
/// the task, if there is one; without it the sender gets an error reply. A
/// peer that was handed no slice is rejected and nothing changes. Otherwise
/// the receipt is recorded. While receipts are outstanding the sender is
/// acknowledged; with the last one the item's state becomes
/// [`StoreItemState::ReceivedAllPinnerResponse`] and the result is committed
/// to the ledger.
pub fn process_task_pinner_key_slice_response(
    stored: Option<DelegatorKeyGenStoreItem>,
    res: TaskPinnerKeySliceResponse,
    peer_id: &str,
    reply_to: &str,
) -> (r: Result<Step<DelegatorKeyGenStoreItem>, Error>)
    requires
        store_item::item_wf(stored),
    ensures
        agrees(
            r,
            spec_process_task_pinner_key_slice_response(
                option_view_of(stored),
                res@,
                peer_id@,
                reply_to@,
            ),
        ),
        store_item::result_wf(r),
{
    let mut item = match stored {
        Some(item) => item,
        None => {
            return Ok(
                Step::only(
                    missing_item("DelegatorStoreItem", res.task_id.as_str(), peer_id, reply_to),
                ),
            );
        },
    };
    let ghost before = item@;
    match item.initial_pinner_responses.find(peer_id) {
        Some(i) => {
            let _ = item.initial_pinner_responses.replace(i, Some(res.deployment_id.clone()));
            assert(item@.initial_pinner_responses =~= spec_put(
                before.initial_pinner_responses,
                peer_id@,
                Some(res@.deployment_id),
            ));
        },
        None => {
            let mut message = String::from_str("failed to get initial pinner's (peer id is ");
            message.append(peer_id);
            message.append(") info with task_id of ");
            message.append(res.task_id.as_str());
            return Ok(Step::only(rejected(reply_to, peer_id, res.task_id.as_str(), message)));
        },
    }
    let mut actions: Vec<Action> = Vec::new();
    if item.is_all_initial_pinners_ready() {
        item.state = StoreItemState::ReceivedAllPinnerResponse;
        let result = match item.update_key_generation_result() {
            Ok(result) => result,
            Err(e) => {
                return Err(e);
            },
        };
        actions.push(Action::UpdateGenerateKeyResult(result));
        let step = Step { item: Some(item), actions };
        assert(step@.actions =~= seq![ActionView::UpdateGenerateKeyResult(result@)]);
        Ok(step)
    } else {
        actions.push(reply(reply_to, "received initial pinner key slice response"));
        let step = Step { item: Some(item), actions };
        assert(step@.actions =~= seq![
            ActionView::Reply {
                reply_to: reply_to@,
                body: "received initial pinner key slice response"@,
            },
        ]);
        Ok(step)
    }
}

/// The connections that are closed when the ledger has the result: those to
/// the initial pinners, then that to the executor.
pub open spec fn spec_close_p2p_connections(item: DelegatorKeyGenStoreItemView) -> Seq<ActionView> {
    Seq::new(
        item.initial_pinners.len(),
        |i: int| ActionView::CloseP2p { peer_id: item.initial_pinners[i].peer_id },
    ) + (match item.executor {
        Some(executor) => seq![ActionView::CloseP2p { peer_id: executor.peer_id }],
        None => Seq::empty(),
    })
}

/// Closes the connections of a completed task, once the ledger has
/// acknowledged the result.
pub fn close_p2p_connections(item: &DelegatorKeyGenStoreItem) -> (actions: Vec<Action>)
    ensures
        views(actions@) == spec_close_p2p_connections(item@),
{
    let mut actions: Vec<Action> = Vec::new();
    let mut i: usize = 0;
    while i < item.initial_pinners.len()
        invariant
            i <= item.initial_pinners@.len(),
            actions@.len() == i,
            forall|j: int|
                0 <= j < i ==> actions@[j]@ == (ActionView::CloseP2p {
                    peer_id: item.initial_pinners@[j].peer_id@,
                }),
        decreases item.initial_pinners@.len() - i,
    {
        actions.push(Action::CloseP2p { peer_id: item.initial_pinners[i].peer_id.clone() });
        i = i + 1;
    }
    match &item.executor {
        Some(executor) => {
            actions.push(Action::CloseP2p { peer_id: executor.peer_id.clone() });
        },
        None => {},
    }
    assert(views(actions@) =~= spec_close_p2p_connections(item@));
    actions
}

} // verus!
