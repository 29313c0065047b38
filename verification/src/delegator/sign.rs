//! The delegator's part in signing.
//!
//! The delegator accepts the task from the ledger, looks up the deployments
//! that hold the slices of the account's second key, recruits an executor
//! and the pinners of the deployments, collects the pinners' slices, hands
//! them to the executor once there are `k` of them, and takes the
//! executor's combined signature.

use vstd::prelude::*;
use vstd::string::*;
use crate::action::{
    agrees, rejected, reply, send_message, Action, ActionView, P2pReplyType, Step, StepView,
};
use crate::actor_delegate_proto::{
    GetDelegatesRequestView, GetDeploymentIds, GetDeploymentIdsView, SignTransactionResponse,
    SignTransactionResponseView,
};
use crate::actor_pinner_proto::{FindPinnersRequest, FindPinnersRequestView, FindingMode};
use crate::common::execution_info::{ExecutionInfo, ExecutionInfoView};
use crate::common::task_info::{spec_validate, validate_execution_info, TaskInfo, TaskInfoView};
use crate::common::utils::{from_hash_map, invite_candidate_executors, spec_properties};
use crate::delegator::sign::ra::{
    generate_pinner_ra_properties, spec_pinner_ra_properties, spec_remote_attestation_executor,
};
use crate::delegator::sign::store_item::{
    found_slices, item_wf, option_view_of, result_wf, DelegatorSignStoreItem,
    DelegatorSignStoreItemView, KeySliceInfo, KeySliceInfoView, StoreItemState,
};
use crate::encoding::{base64_text, encodable};
use crate::error::Error;
use crate::p2p_proto::{
    GeneralMsgView, Msg, MsgView, SignCandidateRequest, SignCandidateRequestView,
    TaskCommitSignResultRequest, TaskCommitSignResultRequestView,
    TaskSignGetPinnerKeySliceResponse, TaskSignGetPinnerKeySliceResponseView,
    TaskSignWithKeySlicesRequest, TaskSignWithKeySlicesRequestView, TaskSignWithKeySlicesResponse,
    TaskSignWithKeySlicesResponseView,
};
use crate::table::Table;
use crate::text::{copy_bytes, text, views};
use crate::MY_ACTOR_NAME;

pub mod observers;
pub mod ra;
pub mod store_item;

pub use observers::{is_sign_tag, operation_after_verify_handler};

verus! {

/// Begins a signing task that is addressed to this node: asks the ledger
/// for the deployments that hold the slices of the account's second key.
pub fn get_deployment_ids(multi_sig_account: Vec<u8>) -> (action: Action)
    ensures
        action@ == ActionView::GetDeploymentIds(
            GetDeploymentIdsView { multi_sig_account: multi_sig_account@ },
        ),
{
    Action::GetDeploymentIds(GetDeploymentIds { multi_sig_account })
}

/// What the delegator keeps and does when it sets up the item of a signing
/// task. Parameters that are not those of a task set up nothing.
pub open spec fn spec_set_up_task(
    item: DelegatorSignStoreItemView,
    nonce: Seq<u8>,
    exec_info: ExecutionInfoView,
    deployment_ids: Seq<Seq<char>>,
) -> Result<StepView<DelegatorSignStoreItemView>, Error> {
    match spec_validate(exec_info.n, exec_info.k) {
        Some(e) => Err(e),
        None => Ok(
            StepView {
                item: Some(
                    DelegatorSignStoreItemView {
                        nonce,
                        task_info: TaskInfoView { task_id: item.task_info.task_id, exec_info },
                        state: StoreItemState::Initialized,
                        ..item.init_deployment_resources(deployment_ids)
                    },
                ),
                actions: seq![
                    ActionView::GetDelegates(
                        GetDelegatesRequestView { start: 0, limit: exec_info.n as u32 },
                    ),
                ],
            },
        ),
    }
}

/// What the delegator keeps and does when a signing task is set up.
pub open spec fn spec_process_sign_with_key_slices_event(
    res: SignTransactionResponseView,
    nonce: Seq<u8>,
    exec_info: ExecutionInfoView,
    deployment_ids: Seq<Seq<char>>,
) -> Result<StepView<DelegatorSignStoreItemView>, Error> {
    spec_set_up_task(
        DelegatorSignStoreItemView::fresh(
            base64_text(res.task_id),
            res.multi_sig_account,
            res.p1_signature,
            res.data_adhoc.transaction_data,
        ),
        nonce,
        exec_info,
        deployment_ids,
    )
}

/// A signing task that is set up has valid parameters: `1 <= k < n`.
pub proof fn lemma_set_up_task_is_valid(
    item: DelegatorSignStoreItemView,
    nonce: Seq<u8>,
    exec_info: ExecutionInfoView,
    deployment_ids: Seq<Seq<char>>,
)
    ensures
        spec_set_up_task(item, nonce, exec_info, deployment_ids) is Ok <==> exec_info.valid(),
        spec_set_up_task(item, nonce, exec_info, deployment_ids) is Ok ==> spec_set_up_task(
            item,
            nonce,
            exec_info,
            deployment_ids,
        )->Ok_0.item->0.task_info.exec_info.valid(),
{
}

/// Sets up the item of a signing task: it gets the nonce, the parameters of
/// the account's key, and an empty slot and an empty waiting list for each
/// deployment; its state becomes [`StoreItemState::Initialized`], and the
/// recruitment of an executor begins with the question for the first `n`
/// delegates. Parameters outside `1 <= k < n` are refused, and nothing is
/// set up.
pub fn set_up_task(
    item: DelegatorSignStoreItem,
    nonce: Vec<u8>,
    exec_info: ExecutionInfo,
    deployment_ids: &Vec<String>,
) -> (r: Result<Step<DelegatorSignStoreItem>, Error>)
    requires
        item.wf(),
    ensures
        agrees(r, spec_set_up_task(item@, nonce@, exec_info@, views(deployment_ids@))),
        result_wf(r),
{
    let ghost before = item@;
    match validate_execution_info(&exec_info) {
        Ok(_) => {},
        Err(e) => {
            return Err(e);
        },
    }
    let mut item = item;
    item.nonce = nonce;
    item.task_info.exec_info = exec_info;
    item.init_deployment_resources(deployment_ids);
    item.state = StoreItemState::Initialized;
    let mut actions: Vec<Action> = Vec::new();
    actions.push(invite_candidate_executors(&item.task_info));
    let step = Step { item: Some(item), actions };
    assert(step@.actions =~= spec_set_up_task(
        before,
        nonce@,
        exec_info@,
        views(deployment_ids@),
    )->Ok_0.actions);
    Ok(step)
}

/// Sets up a signing task that the ledger announced and that is addressed
/// to this node. `nonce` is the nonce that proves it, `exec_info` the
/// parameters of the account's key and `deployment_ids` the deployments that
/// hold its slices, both as the ledger gave them. The task's id is the
/// base64 text of the announced id; the item is set up as [`set_up_task`]
/// says.
pub fn process_sign_with_key_slices_event(
    res: SignTransactionResponse,
    nonce: Vec<u8>,
    exec_info: ExecutionInfo,
    deployment_ids: &Vec<String>,
) -> (r: Result<Step<DelegatorSignStoreItem>, Error>)
    requires
        encodable(res.task_id@.len()),
    ensures
        agrees(
            r,
            spec_process_sign_with_key_slices_event(
                res@,
                nonce@,
                exec_info@,
                views(deployment_ids@),
            ),
        ),
        result_wf(r),
{
    set_up_task(DelegatorSignStoreItem::from_sign_event(res), nonce, exec_info, deployment_ids)
}

/// The invitation of a candidate executor to a signing task.
pub fn sign_candidate_request(task_info: &TaskInfo, peer_id: &str, multi_sig_account: &Vec<u8>) -> (action:
    Action)
    ensures
        action@ == (ActionView::SendMessage {
            peer_id: peer_id@,
            task_id: task_info@.task_id,
            msg: GeneralMsgView {
                msg: Some(
                    MsgView::SignCandidateRequest(
                        SignCandidateRequestView {
                            task_id: task_info@.task_id,
                            multi_sig_account: multi_sig_account@,
                        },
                    ),
                ),
            },
        }),
{
    send_message(
        peer_id,
        task_info.task_id.as_str(),
        Msg::SignCandidateRequest(
            SignCandidateRequest {
                task_id: task_info.task_id.clone(),
                multi_sig_account: copy_bytes(multi_sig_account),
            },
        ),
    )
}

/// The search for the pinners of one deployment.
pub open spec fn spec_begin_find_pinners(
    deployment_id: Seq<char>,
    properties: Seq<(Seq<char>, Seq<char>)>,
) -> ActionView {
    ActionView::FindPinners(
        FindPinnersRequestView {
            send_to_actor: MY_ACTOR_NAME@,
            deployment_id,
            properties: spec_properties(properties),
            delay_seconds: 0,
            finding_mode: FindingMode::AsMuchAsPossible,
        },
    )
}

/// Asks the attestation service to find and attest as many pinners of a
/// deployment as it can, at once, and to report them to this actor.
pub fn begin_find_pinners(deployment_id: String, properties: Table<String>) -> (action: Action)
    ensures
        action@ == spec_begin_find_pinners(deployment_id@, properties.pairs()),
{
    Action::FindPinners(
        FindPinnersRequest {
            send_to_actor: text(MY_ACTOR_NAME),
            deployment_id,
            properties: from_hash_map(properties),
            delay_seconds: 0,
            finding_mode: FindingMode::AsMuchAsPossible,
        },
    )
}

/// What the delegator keeps and does once the candidate executors are
/// invited.
pub open spec fn spec_find_deployments(
    stored: Option<DelegatorSignStoreItemView>,
    deployment_ids: Seq<Seq<char>>,
) -> Result<StepView<DelegatorSignStoreItemView>, Error> {
    match stored {
        None => Err(Error::TaskNotFound),
        Some(item) => Ok(
            StepView {
                item: Some(
                    DelegatorSignStoreItemView { state: StoreItemState::FindingDeployments, ..item },
                ),
                actions: Seq::new(
                    deployment_ids.len(),
                    |i: int|
                        spec_begin_find_pinners(
                            deployment_ids[i],
                            spec_pinner_ra_properties(item.task_info.task_id),
                        ),
                ),
            },
        ),
    }
}

/// Continues a signing task once the candidate executors are invited: the
/// pinners of every deployment are looked for, and the item's state becomes
/// [`StoreItemState::FindingDeployments`].
pub fn find_deployments(stored: Option<DelegatorSignStoreItem>, deployment_ids: &Vec<String>) -> (r:
    Result<Step<DelegatorSignStoreItem>, Error>)
    requires
        item_wf(stored),
    ensures
        agrees(r, spec_find_deployments(option_view_of(stored), views(deployment_ids@))),
        result_wf(r),
{
    let mut item = match stored {
        Some(item) => item,
        None => {
            return Err(Error::TaskNotFound);
        },
    };
    let ghost before = item@;
    let mut actions: Vec<Action> = Vec::new();
    let mut i: usize = 0;
    while i < deployment_ids.len()
        invariant
            i <= deployment_ids@.len(),
            item@ == before,
            actions@.len() == i,
            forall|j: int|
                0 <= j < i ==> actions@[j]@ == spec_begin_find_pinners(
                    deployment_ids@[j]@,
                    spec_pinner_ra_properties(before.task_info.task_id),
                ),
        decreases deployment_ids@.len() - i,
    {
        let properties = generate_pinner_ra_properties(item.task_info.task_id.as_str());
        actions.push(begin_find_pinners(deployment_ids[i].clone(), properties));
        i = i + 1;
    }
    item.state = StoreItemState::FindingDeployments;
    let step = Step { item: Some(item), actions };
    assert(step@.actions =~= spec_find_deployments(Some(before), views(deployment_ids@))->Ok_0.actions);
    Ok(step)
}

/// What the delegator keeps and does when a peer applies as executor of a
/// signing task.
pub open spec fn spec_process_executor_sign_with_key_slices_request(
    stored: Option<DelegatorSignStoreItemView>,
    req: TaskSignWithKeySlicesRequestView,
    peer_id: Seq<char>,
    reply_to: Seq<char>,
) -> Result<StepView<DelegatorSignStoreItemView>, Error> {
    match stored {
        None => Err(Error::TaskNotFound),
        Some(item) => if item.executor is Some {
            Ok(
                StepView {
                    item: None,
                    actions: seq![
                        ActionView::Respond {
                            reply_to,
                            peer_id,
                            task_id: req.task_id,
                            message: "executor already exists"@,
                            reply_type: P2pReplyType::Rejected,
                        },
                    ],
                },
            )
        } else {
            Ok(
                StepView {
                    item: None,
                    actions: spec_remote_attestation_executor(req, peer_id, reply_to).push(
                        ActionView::Reply { reply_to, body: "has sent executor ra request"@ },
                    ),
                },
            )
        },
    }
}

/// Handles the application of a candidate executor. Without an item the
/// task is unknown. Once there is an executor, further applicants are
/// rejected. Otherwise the applicant's attestation is asked for and the
/// applicant is told so. The item stays as it is.
pub fn process_executor_sign_with_key_slices_request(
    stored: Option<DelegatorSignStoreItem>,
    req: TaskSignWithKeySlicesRequest,
    peer_id: &str,
    reply_to: &str,
) -> (r: Result<Step<DelegatorSignStoreItem>, Error>)
    requires
        encodable(req.rsa_pub_key@.len()),
    ensures
        agrees(
            r,
            spec_process_executor_sign_with_key_slices_request(
                option_view_of(stored),
                req@,
                peer_id@,
                reply_to@,
            ),
        ),
        result_wf(r),
{
    let item = match stored {
        Some(item) => item,
        None => {
            return Err(Error::TaskNotFound);
        },
    };
    if item.executor.is_some() {
        return Ok(
            Step::only(
                rejected(reply_to, peer_id, req.task_id.as_str(), text("executor already exists")),
            ),
        );
    }
    let mut actions = ra::remote_attestation_executor(req, text(peer_id), text(reply_to));
    let ghost first = views(actions@);
    actions.push(reply(reply_to, "has sent executor ra request"));
    let step = Step { item: None, actions };
    assert(step@.actions =~= first.push(
        ActionView::Reply { reply_to: reply_to@, body: "has sent executor ra request"@ },
    ));
    Ok(step)
}

/// What the delegator keeps and does when the executor hands in the
/// combined signature.
pub open spec fn spec_process_commit_sign_result_request(
    stored: Option<DelegatorSignStoreItemView>,
    req: TaskCommitSignResultRequestView,
    reply_to: Seq<char>,
) -> Result<StepView<DelegatorSignStoreItemView>, Error> {
    match stored {
        None => Err(Error::TaskNotFound),
        Some(item) => Ok(
            StepView {
                item: Some(
                    DelegatorSignStoreItemView { state: StoreItemState::CommitResult, ..item },
                ),
                actions: seq![
                    ActionView::CommitWitness {
                        task_id: item.task_info.task_id,
                        multi_sig_account: item.multi_sig_account,
                        witness: req.witness,
                        task_type: item.task_info.exec_info.task_type,
                    },
                    ActionView::Reply { reply_to, body: "commit signature successfully"@ },
                ],
            },
        ),
    }
}

/// Handles the executor's combined signature. Without an item the task is
/// unknown. Otherwise the witness is handed on for verification against the
/// account, commitment to the ledger and broadcast to the task's network,
/// the item's state becomes [`StoreItemState::CommitResult`], and the
/// executor is acknowledged.
pub fn process_commit_sign_result_request(
    stored: Option<DelegatorSignStoreItem>,
    req: TaskCommitSignResultRequest,
    _peer_id: &str,
    reply_to: &str,
) -> (r: Result<Step<DelegatorSignStoreItem>, Error>)
    requires
        item_wf(stored),
    ensures
        agrees(
            r,
            spec_process_commit_sign_result_request(option_view_of(stored), req@, reply_to@),
        ),
        result_wf(r),
{
    let mut item = match stored {
        Some(item) => item,
        None => {
            return Err(Error::TaskNotFound);
        },
    };
    let mut actions: Vec<Action> = Vec::new();
    actions.push(
        Action::CommitWitness {
            task_id: item.task_info.task_id.clone(),
            multi_sig_account: copy_bytes(&item.multi_sig_account),
            witness: req.witness,
            task_type: item.task_info.exec_info.task_type.clone(),
        },
    );
    actions.push(reply(reply_to, "commit signature successfully"));
    item.state = StoreItemState::CommitResult;
    let step = Step { item: Some(item), actions };
    assert(step@.actions =~= spec_process_commit_sign_result_request(
        option_view_of(stored),
        req@,
        reply_to@,
    )->Ok_0.actions);
    Ok(step)
}

/// The message that hands the executor what it needs to sign.
pub open spec fn spec_dispatch(item: DelegatorSignStoreItemView) -> ActionView {
    ActionView::SendMessage {
        peer_id: item.executor->0.peer_id,
        task_id: item.task_info.task_id,
        msg: GeneralMsgView {
            msg: Some(
                MsgView::TaskSignWithKeySlicesResponse(
                    TaskSignWithKeySlicesResponseView {
                        task_id: item.task_info.task_id,
                        adhoc_data: item.transaction_data,
                        p1_signature: item.p1_signature,
                        key_type: item.task_info.exec_info.task_type,
                        encrypted_key_slices: found_slices(item.key_slices),
                    },
                ),
            ),
        },
    }
}

/// What [`try_send_to_executor`] keeps and does.
pub open spec fn spec_try_send_to_executor(item: DelegatorSignStoreItemView) -> StepView<
    DelegatorSignStoreItemView,
> {
    if !item.ready_send_to_executor() {
        StepView { item: Some(item), actions: Seq::empty() }
    } else {
        StepView {
            item: Some(DelegatorSignStoreItemView { state: StoreItemState::SentToExecutor, ..item }),
            actions: seq![spec_dispatch(item)],
        }
    }
}

/// Dispatches the task to the executor as soon as it is ready: at least `k`
/// slices are found, and there is an executor. Until then the item stays as
/// it is and nothing is sent. Once ready, the executor is sent every slice
/// found so far, the data to sign, the first signature and the key type, and
/// the item's state becomes [`StoreItemState::SentToExecutor`].
pub fn try_send_to_executor(item: DelegatorSignStoreItem) -> (step: Step<DelegatorSignStoreItem>)
    requires
        item.wf(),
    ensures
        step@ == spec_try_send_to_executor(item@),
        item_wf(step.item),
{
    let ghost before = item@;
    let mut item = item;
    if !item.ready_send_to_executor() {
        let step = Step { item: Some(item), actions: Vec::new() };
        assert(step@.actions =~= Seq::empty());
        return step;
    }
    let encrypted_key_slices = item.get_encrypted_key_slices();
    let mut actions: Vec<Action> = Vec::new();
    match &item.executor {
        Some(executor) => {
            actions.push(
                send_message(
                    executor.peer_id.as_str(),
                    item.task_info.task_id.as_str(),
                    Msg::TaskSignWithKeySlicesResponse(
                        TaskSignWithKeySlicesResponse {
                            task_id: item.task_info.task_id.clone(),
                            adhoc_data: copy_bytes(&item.transaction_data),
                            p1_signature: copy_bytes(&item.p1_signature),
                            key_type: item.task_info.exec_info.task_type.clone(),
                            encrypted_key_slices,
                        },
                    ),
                ),
            );
        },
        None => {},
    }
    item.state = StoreItemState::SentToExecutor;
    let step = Step { item: Some(item), actions };
    assert(step@.actions =~= seq![spec_dispatch(before)]);
    step
}

/// The text that refuses a second slice of a deployment.
pub open spec fn spec_slice_exists_message(deployment_id: Seq<char>) -> Seq<char> {
    "pinner of "@ + deployment_id + " already exists"@
}

/// The text that acknowledges the slice of a deployment.
pub open spec fn spec_slice_accepted_message(deployment_id: Seq<char>) -> Seq<char> {
    "become pinner of "@ + deployment_id + " successfully"@
}

/// What the delegator keeps and does when a pinner hands over a slice.
pub open spec fn spec_process_pinner_key_slice_response(
    stored: Option<DelegatorSignStoreItemView>,
    res: TaskSignGetPinnerKeySliceResponseView,
    peer_id: Seq<char>,
    reply_to: Seq<char>,
) -> Result<StepView<DelegatorSignStoreItemView>, Error> {
    match stored {
        None => Err(Error::TaskNotFound),
        Some(item) => if item.has_found_key_slice(res.deployment_id) {
            Ok(
                StepView {
                    item: None,
                    actions: seq![
                        ActionView::Respond {
                            reply_to,
                            peer_id,
                            task_id: res.task_id,
                            message: spec_slice_exists_message(res.deployment_id),
                            reply_type: P2pReplyType::Rejected,
                        },
                    ],
                },
            )
        } else {
            match item.insert_key_slice_info(
                res.deployment_id,
                KeySliceInfoView { peer_id, encrypted_key_slice: res.encrypted_key_slice },
            ) {
                Err(e) => Err(e),
                Ok(filled) => {
                    let sent = spec_try_send_to_executor(filled);
                    Ok(
                        StepView {
                            item: sent.item,
                            actions: seq![
                                ActionView::Reply {
                                    reply_to,
                                    body: spec_slice_accepted_message(res.deployment_id),
                                },
                            ] + sent.actions,
                        },
                    )
                },
            }
        },
    }
}

/// A second slice of a deployment is rejected, and what is stored stays as
/// it is.
pub proof fn lemma_duplicate_slice_is_rejected(
    item: DelegatorSignStoreItemView,
    res: TaskSignGetPinnerKeySliceResponseView,
    peer_id: Seq<char>,
    reply_to: Seq<char>,
)
    requires
        item.has_found_key_slice(res.deployment_id),
    ensures
        spec_process_pinner_key_slice_response(Some(item), res, peer_id, reply_to) is Ok,
        spec_process_pinner_key_slice_response(Some(item), res, peer_id, reply_to)->Ok_0.item
            is None,
        spec_process_pinner_key_slice_response(Some(item), res, peer_id, reply_to)->Ok_0.actions
            == seq![
            ActionView::Respond {
                reply_to,
                peer_id,
                task_id: res.task_id,
                message: spec_slice_exists_message(res.deployment_id),
                reply_type: P2pReplyType::Rejected,
            },
        ],
{
}

/// Handles the slice that a pinner hands over. Without an item the task is
/// unknown. A second slice of a deployment is rejected and changes nothing;
/// a slice of a deployment that is none of the task's is an error.
/// Otherwise the slice is recorded and acknowledged, and the task goes to
/// the executor if it is ready: see [`try_send_to_executor`].
pub fn process_pinner_key_slice_response(
    stored: Option<DelegatorSignStoreItem>,
    res: TaskSignGetPinnerKeySliceResponse,
    peer_id: &str,
    reply_to: &str,
) -> (r: Result<Step<DelegatorSignStoreItem>, Error>)
    requires
        item_wf(stored),
    ensures
        agrees(
            r,
            spec_process_pinner_key_slice_response(option_view_of(stored), res@, peer_id@, reply_to@),
        ),
        result_wf(r),
{
    let mut item = match stored {
        Some(item) => item,
        None => {
            return Err(Error::TaskNotFound);
        },
    };
    if item.has_found_key_slice(res.deployment_id.as_str()) {
        let mut message = String::from_str("pinner of ");
        message.append(res.deployment_id.as_str());
        message.append(" already exists");
        return Ok(Step::only(rejected(reply_to, peer_id, res.task_id.as_str(), message)));
    }
    match item.insert_key_slice_info(
        res.deployment_id.as_str(),
        KeySliceInfo {
            peer_id: text(peer_id),
            encrypted_key_slice: copy_bytes(&res.encrypted_key_slice),
        },
    ) {
        Ok(_) => {},
        Err(e) => {
            return Err(e);
        },
    }
    let mut body = String::from_str("become pinner of ");
    body.append(res.deployment_id.as_str());
    body.append(" successfully");
    let mut actions: Vec<Action> = Vec::new();
    actions.push(Action::Reply { reply_to: text(reply_to), body });
    let ghost first = views(actions@);
    assert(first =~= seq![
        ActionView::Reply {
            reply_to: reply_to@,
            body: spec_slice_accepted_message(res@.deployment_id),
        },
    ]);
    let sent = try_send_to_executor(item);
    let ghost rest = views(sent.actions@);
    let mut more = sent.actions;
    actions.append(&mut more);
    let step = Step { item: sent.item, actions };
    assert(step@.actions =~= first + rest);
    Ok(step)
}

} // verus!
