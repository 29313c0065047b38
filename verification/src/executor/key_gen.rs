//! The executor's part in key generation.
//!
//! The executor applies with an RSA key minted for the task. Once elected it
//! generates the second key pair, splits the private key into as many slices
//! as there are initial pinners, wraps each slice with its pinner's RSA key
//! and derives the account from both public keys. Generating, splitting,
//! wrapping and deriving are the embedding program's work; what is split
//! how, which slice goes to whom and what is answered is decided here.

use vstd::prelude::*;
use crate::action::{
    agrees, missing_item, reply, send_message, spec_missing_item, Action, ActionView, Step,
    StepView,
};
use crate::common::key_generation::{
    check_delegator_profile, send_key_generation_request, spec_key_generation_request,
};
use crate::common::task_info::spec_from_parts;
use crate::error::Error;
use crate::executor::store_item::{ExecutorStoreItem, ExecutorStoreItemView, StoreItemState};
use crate::p2p_proto::{
    GeneralMsgView, KeyGenerationCandidateRequest, KeyGenerationCandidateRequestView, Msg,
    MsgView, TaskExecutionRequest, TaskExecutionRequestView, TaskExecutionResponse,
    TaskExecutionResponseView, TaskResultInitialPinnerData, TaskResultInitialPinnerDataView,
};
use crate::text::{copy_bytes, option_view, text, views};

verus! {

/// What a node keeps and does when it accepts the invitation to a role:
/// the executor's if `apply_executor`, an initial pinner's otherwise.
pub open spec fn spec_accept_invitation(
    peer_id: Seq<char>,
    req: KeyGenerationCandidateRequestView,
    profile_peer_id: Seq<char>,
    rsa_pub_key: Seq<u8>,
    apply_executor: bool,
) -> Result<StepView<ExecutorStoreItemView>, Error> {
    if peer_id != profile_peer_id {
        Err(Error::DelegatorMismatch)
    } else {
        match spec_from_parts(req.task_id, req.n, req.k, req.key_type) {
            Err(e) => Err(e),
            Ok(task_info) => Ok(
                StepView {
                    item: Some(ExecutorStoreItemView { task_info, state: StoreItemState::Requested }),
                    actions: spec_key_generation_request(
                        peer_id,
                        task_info.task_id,
                        apply_executor,
                        rsa_pub_key,
                    ),
                },
            ),
        }
    }
}

/// Accepts the invitation to be the executor of a key-generation task, once
/// its signature has been verified and the delegator's profile has arrived.
/// `profile_peer_id` is the peer that the delegator's ephemeral id resolves
/// to: it must be the sender `peer_id`. `rsa_pub_key` is the public half of
/// an RSA key pair minted for the task. The task's parameters are
/// validated, the application goes to the delegator, and the item is kept in
/// state [`StoreItemState::Requested`].
pub fn task_key_generation_candidate_request_handler(
    peer_id: String,
    req: KeyGenerationCandidateRequest,
    profile_peer_id: &str,
    rsa_pub_key: Vec<u8>,
) -> (r: Result<Step<ExecutorStoreItem>, Error>)
    ensures
        agrees(r, spec_accept_invitation(peer_id@, req@, profile_peer_id@, rsa_pub_key@, true)),
{
    match check_delegator_profile(peer_id.as_str(), profile_peer_id) {
        Ok(_) => {},
        Err(e) => {
            return Err(e);
        },
    }
    let mut store_item = match ExecutorStoreItem::from_candidate_request(req) {
        Ok(item) => item,
        Err(e) => {
            return Err(e);
        },
    };
    if !willing_to_run(&store_item) {
        return Ok(Step::idle());
    }
    match check_capabilities(&store_item) {
        Ok(_) => {},
        Err(_) => {
            return Ok(Step::idle());
        },
    }
    let actions = send_key_generation_request(
        peer_id.as_str(),
        &store_item.task_info,
        true,
        rsa_pub_key,
    );
    store_item.state = StoreItemState::Requested;
    Ok(Step { item: Some(store_item), actions })
}

/// Whether this node is willing to run the task. It always is.
pub fn willing_to_run(_item: &ExecutorStoreItem) -> (r: bool)
    ensures
        r,
{
    true
}

/// Whether this node is able to run the task. It always is.
pub fn check_capabilities(_item: &ExecutorStoreItem) -> (r: Result<(), Error>)
    ensures
        r is Ok,
{
    Ok(())
}

/// How the second private key is to be split.
#[derive(Debug, Clone, PartialEq)]
pub struct SplitPlan {
    /// The kind of key pair to generate.
    pub key_type: String,
    /// The number of slices: one for each initial pinner.
    pub n: u8,
    /// The number of slices that recover the key.
    pub k: u8,
}

/// What a [`SplitPlan`] holds, as plain values.
pub struct SplitPlanView {
    pub key_type: Seq<char>,
    pub n: u8,
    pub k: u8,
}

impl View for SplitPlan {
    type V = SplitPlanView;

    open spec fn view(&self) -> SplitPlanView {
        SplitPlanView { key_type: self.key_type@, n: self.n, k: self.k }
    }
}

/// The split that a request asks for: one slice for each initial pinner,
/// any `minimum_recovery_number` of which recover the key. A request without
/// initial pinners or with more than 255 of them is [`Error::InvalidN`];
/// otherwise a threshold that is zero or not below their number is
/// [`Error::InvalidK`].
pub open spec fn spec_split_plan(request: TaskExecutionRequestView) -> Result<SplitPlanView, Error> {
    if request.initial_pinners.len() == 0 || request.initial_pinners.len() > 255 {
        Err(Error::InvalidN)
    } else if request.minimum_recovery_number == 0 || request.minimum_recovery_number
        >= request.initial_pinners.len() {
        Err(Error::InvalidK)
    } else {
        Ok(
            SplitPlanView {
                key_type: request.key_type,
                n: request.initial_pinners.len() as u8,
                k: request.minimum_recovery_number as u8,
            },
        )
    }
}

/// A split is planned exactly for requests with `1 <= k < n <= 255`, where
/// `n` is the number of initial pinners, and the plan holds these counts.
pub proof fn lemma_split_plan_is_valid(request: TaskExecutionRequestView)
    ensures
        spec_split_plan(request) is Ok <==> 1 <= request.minimum_recovery_number
            < request.initial_pinners.len() <= 255,
        spec_split_plan(request) is Ok ==> {
            let plan = spec_split_plan(request)->Ok_0;
            &&& plan.n == request.initial_pinners.len()
            &&& plan.k == request.minimum_recovery_number
            &&& 1 <= plan.k < plan.n
        },
{
}

/// Reads off a request how the key is to be generated and split, and
/// refuses a request whose counts are not those of a task.
pub fn split_plan(request: &TaskExecutionRequest) -> (r: Result<SplitPlan, Error>)
    ensures
        match r {
            Ok(plan) => spec_split_plan(request@) == Ok::<SplitPlanView, Error>(plan@),
            Err(e) => spec_split_plan(request@) == Err::<SplitPlanView, Error>(e),
        },
{
    let n = request.initial_pinners.len();
    if n == 0 || n > 255 {
        return Err(Error::InvalidN);
    }
    let k = request.minimum_recovery_number;
    if k == 0 || k >= n as u32 {
        return Err(Error::InvalidK);
    }
    Ok(SplitPlan { key_type: request.key_type.clone(), n: n as u8, k: k as u8 })
}

/// What the executor keeps and does when the delegator's request arrives.
pub open spec fn spec_task_execution_request(
    stored: Option<ExecutorStoreItemView>,
    request: TaskExecutionRequestView,
    peer_id: Seq<char>,
    reply_to: Seq<char>,
) -> Result<StepView<ExecutorStoreItemView>, Error> {
    match stored {
        None => Ok(
            StepView {
                item: None,
                actions: seq![
                    spec_missing_item("ExecutorStoreItem"@, request.task_id, peer_id, reply_to),
                ],
            },
        ),
        Some(item) => match spec_split_plan(request) {
            Err(e) => Err(e),
            Ok(_) => Ok(
                StepView {
                    item: Some(ExecutorStoreItemView { state: StoreItemState::Responded, ..item }),
                    actions: Seq::empty(),
                },
            ),
        },
    }
}

/// Receives the delegator's request to generate and split the second key.
/// `stored` is the executor's item of the task, if there is one; without it
/// the delegator gets an error reply. A request whose counts are not those
/// of a task is refused and changes nothing. Otherwise the item's state
/// becomes [`StoreItemState::Responded`]; the work that follows is laid out
/// by [`split_plan`] and [`pair_slices_with_pinners`], and its results go to
/// [`complete_task_execution`].
pub fn task_execution_request_handler(
    stored: Option<ExecutorStoreItem>,
    request: &TaskExecutionRequest,
    peer_id: &str,
    reply_to: &str,
) -> (r: Result<Step<ExecutorStoreItem>, Error>)
    ensures
        agrees(
            r,
            spec_task_execution_request(option_view(stored), request@, peer_id@, reply_to@),
        ),
{
    match stored {
        Some(mut item) => {
            match split_plan(request) {
                Ok(_) => {},
                Err(e) => {
                    return Err(e);
                },
            }
            item.state = StoreItemState::Responded;
            let step = Step { item: Some(item), actions: Vec::new() };
            assert(step@.actions =~= Seq::empty());
            Ok(step)
        },
        None => Ok(
            Step::only(missing_item("ExecutorStoreItem", request.task_id.as_str(), peer_id, reply_to)),
        ),
    }
}

/// An RSA public key and the key slice to wrap with it.
#[derive(Debug, Clone, PartialEq)]
pub struct WrapJob {
    pub rsa_pub_key: Vec<u8>,
    pub key_slice: Vec<u8>,
}

/// What a [`WrapJob`] holds, as plain values.
pub struct WrapJobView {
    pub rsa_pub_key: Seq<u8>,
    pub key_slice: Seq<u8>,
}

impl View for WrapJob {
    type V = WrapJobView;

    open spec fn view(&self) -> WrapJobView {
        WrapJobView { rsa_pub_key: self.rsa_pub_key@, key_slice: self.key_slice@ }
    }
}

/// Which slice is wrapped with whose key: the slice at each position with
/// the key of the initial pinner at that position. There must be a slice for
/// every initial pinner.
pub open spec fn spec_pair_slices(request: TaskExecutionRequestView, key_slices: Seq<Seq<u8>>) -> Result<
    Seq<WrapJobView>,
    Error,
> {
    if key_slices.len() < request.initial_pinners.len() {
        Err(Error::SliceCountMismatch)
    } else {
        Ok(
            Seq::new(
                request.initial_pinners.len(),
                |i: int|
                    WrapJobView {
                        rsa_pub_key: request.initial_pinners[i].rsa_pub_key,
                        key_slice: key_slices[i],
                    },
            ),
        )
    }
}

/// Pairs the slices of the second private key with the keys of the initial
/// pinners, position by position. Fewer slices than initial pinners is an
/// error.
pub fn pair_slices_with_pinners(request: &TaskExecutionRequest, key_slices: &Vec<Vec<u8>>) -> (r:
    Result<Vec<WrapJob>, Error>)
    ensures
        match r {
            Ok(jobs) => spec_pair_slices(request@, views(key_slices@)) == Ok::<
                Seq<WrapJobView>,
                Error,
            >(views(jobs@)),
            Err(e) => spec_pair_slices(request@, views(key_slices@)) == Err::<
                Seq<WrapJobView>,
                Error,
            >(e),
        },
{
    if key_slices.len() < request.initial_pinners.len() {
        return Err(Error::SliceCountMismatch);
    }
    let mut jobs: Vec<WrapJob> = Vec::new();
    let mut i: usize = 0;
    while i < request.initial_pinners.len()
        invariant
            i <= request.initial_pinners@.len(),
            request.initial_pinners@.len() <= key_slices@.len(),
            jobs@.len() == i,
            forall|j: int|
                0 <= j < i ==> jobs@[j]@ == (WrapJobView {
                    rsa_pub_key: request.initial_pinners@[j].rsa_pub_key@,
                    key_slice: key_slices@[j]@,
                }),
        decreases request.initial_pinners@.len() - i,
    {
        jobs.push(
            WrapJob {
                rsa_pub_key: copy_bytes(&request.initial_pinners[i].rsa_pub_key),
                key_slice: copy_bytes(&key_slices[i]),
            },
        );
        i = i + 1;
    }
    assert(views(jobs@) =~= spec_pair_slices(request@, views(key_slices@))->Ok_0);
    Ok(jobs)
}

/// What the account of a task is derived from.
#[derive(Debug, Clone, PartialEq)]
pub struct MultiSigRequest {
    /// The number of signatures that the account asks for.
    pub k: u8,
    /// The public keys of the account: the first, the second and, if there
    /// is one, the third.
    pub public_keys: Vec<Vec<u8>>,
    /// The kind of the account.
    pub task_type: String,
}

/// What a [`MultiSigRequest`] holds, as plain values.
pub struct MultiSigRequestView {
    pub k: u8,
    pub public_keys: Seq<Seq<u8>>,
    pub task_type: Seq<char>,
}

impl View for MultiSigRequest {
    type V = MultiSigRequestView;

    open spec fn view(&self) -> MultiSigRequestView {
        MultiSigRequestView {
            k: self.k,
            public_keys: views(self.public_keys@),
            task_type: self.task_type@,
        }
    }
}

/// Lays out what the account of a task is derived from: the threshold, the
/// public keys in the order first, second, third, and the account's kind.
pub fn generate_multi_sig_account(
    first_key: &Vec<u8>,
    second_key: &Vec<u8>,
    third_key: Option<Vec<u8>>,
    k: u8,
    task_type: &str,
) -> (request: MultiSigRequest)
    ensures
        request@ == (MultiSigRequestView {
            k,
            public_keys: match third_key {
                Some(third) => seq![first_key@, second_key@, third@],
                None => seq![first_key@, second_key@],
            },
            task_type: task_type@,
        }),
{
    let mut public_keys: Vec<Vec<u8>> = Vec::new();
    public_keys.push(copy_bytes(first_key));
    public_keys.push(copy_bytes(second_key));
    match third_key {
        Some(third) => {
            public_keys.push(third);
            assert(views(public_keys@) =~= seq![first_key@, second_key@, third@]);
        },
        None => {
            assert(views(public_keys@) =~= seq![first_key@, second_key@]);
        },
    }
    MultiSigRequest { k, public_keys, task_type: text(task_type) }
}

/// The executor's answer: each initial pinner with the slice wrapped for
/// it, the second public key and the account. There must be a wrapped slice
/// for every initial pinner.
pub open spec fn spec_task_execution_response(
    request: TaskExecutionRequestView,
    p2_public_key: Seq<u8>,
    encrypted_slices: Seq<Seq<u8>>,
    multi_sig_account: Seq<u8>,
) -> Result<TaskExecutionResponseView, Error> {
    if encrypted_slices.len() < request.initial_pinners.len() {
        Err(Error::SliceCountMismatch)
    } else {
        Ok(
            TaskExecutionResponseView {
                task_id: request.task_id,
                initial_pinners: Seq::new(
                    request.initial_pinners.len(),
                    |i: int|
                        TaskResultInitialPinnerDataView {
                            peer_id: request.initial_pinners[i].peer_id,
                            encrypted_key_slice: encrypted_slices[i],
                        },
                ),
                p2_public_key,
                multi_sig_account,
            },
        )
    }
}

/// Builds the executor's answer to the delegator. `encrypted_slices` are
/// the slices of the second private key, each wrapped as
/// [`pair_slices_with_pinners`] laid out; the slice at each position goes to
/// the initial pinner at that position.
pub fn generate_task_execution_response(
    request: &TaskExecutionRequest,
    p2_public_key: Vec<u8>,
    encrypted_slices: &Vec<Vec<u8>>,
    multi_sig_account: Vec<u8>,
) -> (r: Result<TaskExecutionResponse, Error>)
    ensures
        match r {
            Ok(response) => spec_task_execution_response(
                request@,
                p2_public_key@,
                views(encrypted_slices@),
                multi_sig_account@,
            ) == Ok::<TaskExecutionResponseView, Error>(response@),
            Err(e) => spec_task_execution_response(
                request@,
                p2_public_key@,
                views(encrypted_slices@),
                multi_sig_account@,
            ) == Err::<TaskExecutionResponseView, Error>(e),
        },
{
    if encrypted_slices.len() < request.initial_pinners.len() {
        return Err(Error::SliceCountMismatch);
    }
    let mut initial_pinners: Vec<TaskResultInitialPinnerData> = Vec::new();
    let mut index: usize = 0;
    while index < request.initial_pinners.len()
        invariant
            index <= request.initial_pinners@.len(),
            request.initial_pinners@.len() <= encrypted_slices@.len(),
            initial_pinners@.len() == index,
            forall|j: int|
                0 <= j < index ==> initial_pinners@[j]@ == (TaskResultInitialPinnerDataView {
                    peer_id: request.initial_pinners@[j].peer_id@,
                    encrypted_key_slice: encrypted_slices@[j]@,
                }),
        decreases request.initial_pinners@.len() - index,
    {
        initial_pinners.push(
            TaskResultInitialPinnerData {
                peer_id: request.initial_pinners[index].peer_id.clone(),
                encrypted_key_slice: copy_bytes(&encrypted_slices[index]),
            },
        );
        index = index + 1;
    }
    let response = TaskExecutionResponse {
        task_id: request.task_id.clone(),
        initial_pinners,
        p2_public_key,
        multi_sig_account,
    };
    assert(response@.initial_pinners =~= spec_task_execution_response(
        request@,
        p2_public_key@,
        views(encrypted_slices@),
        multi_sig_account@,
    )->Ok_0.initial_pinners);
    Ok(response)
}

/// What the executor keeps and does when its work is done.
pub open spec fn spec_complete_task_execution(
    item: ExecutorStoreItemView,
    request: TaskExecutionRequestView,
    p2_public_key: Seq<u8>,
    encrypted_slices: Seq<Seq<u8>>,
    multi_sig_account: Seq<u8>,
    peer_id: Seq<char>,
    reply_to: Seq<char>,
) -> Result<StepView<ExecutorStoreItemView>, Error> {
    match spec_task_execution_response(request, p2_public_key, encrypted_slices, multi_sig_account) {
        Err(e) => Err(e),
        Ok(response) => Ok(
            StepView {
                item: Some(ExecutorStoreItemView { state: StoreItemState::Executed, ..item }),
                actions: seq![
                    ActionView::SendMessage {
                        peer_id,
                        task_id: item.task_info.task_id,
                        msg: GeneralMsgView { msg: Some(MsgView::TaskExecutionResponse(response)) },
                    },
                    ActionView::Reply {
                        reply_to,
                        body: "response task execution request successfully"@,
                    },
                ],
            },
        ),
    }
}

/// Answers the delegator once the second key is generated, split and
/// wrapped and the account is derived. The answer goes to the delegator
/// `peer_id`, the request is acknowledged, and the item's state becomes
/// [`StoreItemState::Executed`].
pub fn complete_task_execution(
    item: ExecutorStoreItem,
    request: &TaskExecutionRequest,
    p2_public_key: Vec<u8>,
    encrypted_slices: &Vec<Vec<u8>>,
    multi_sig_account: Vec<u8>,
    peer_id: &str,
    reply_to: &str,
) -> (r: Result<Step<ExecutorStoreItem>, Error>)
    ensures
        agrees(
            r,
            spec_complete_task_execution(
                item@,
                request@,
                p2_public_key@,
                views(encrypted_slices@),
                multi_sig_account@,
                peer_id@,
                reply_to@,
            ),
        ),
{
    let ghost before = item@;
    let mut item = item;
    let response = match generate_task_execution_response(
        request,
        p2_public_key,
        encrypted_slices,
        multi_sig_account,
    ) {
        Ok(response) => response,
        Err(e) => {
            return Err(e);
        },
    };
    let mut actions: Vec<Action> = Vec::new();
    actions.push(
        send_message(peer_id, item.task_info.task_id.as_str(), Msg::TaskExecutionResponse(response)),
    );
    actions.push(reply(reply_to, "response task execution request successfully"));
    item.state = StoreItemState::Executed;
    let step = Step { item: Some(item), actions };
    assert(step@.actions =~= seq![
        ActionView::SendMessage {
            peer_id: peer_id@,
            task_id: before.task_info.task_id,
            msg: GeneralMsgView { msg: Some(MsgView::TaskExecutionResponse(response@)) },
        },
        ActionView::Reply {
            reply_to: reply_to@,
            body: "response task execution request successfully"@,
        },
    ]);
    Ok(step)
}

} // verus!
