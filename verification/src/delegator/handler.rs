//! The delegator's entry points, one for each message and event that
//! reaches it.

use vstd::prelude::*;
use crate::action::{agrees, Action, Step};
use crate::actor_delegate_proto::{KeyGenerationResponse, SignTransactionResponse};
use crate::common::execution_info::ExecutionInfo;
use crate::delegator::key_gen;
use crate::delegator::key_gen::ra::{
    spec_remote_attestation, VALUE_RA_TARGET_EXECUTOR, VALUE_RA_TARGET_INITIAL_PINNER,
};
use crate::delegator::key_gen::store_item::DelegatorKeyGenStoreItem;
use crate::delegator::sign;
use crate::delegator::sign::store_item::DelegatorSignStoreItem;
use crate::encoding::encodable;
use crate::error::Error;
use crate::p2p_proto::{
    TaskCommitSignResultRequest, TaskExecutionResponse, TaskKeyGenerationApplyRequest,
    TaskPinnerKeySliceResponse, TaskSignGetPinnerKeySliceResponse, TaskSignWithKeySlicesRequest,
};
use crate::text::{text, views};

verus! {

/// An initial pinner answered with its receipt: see
/// [`key_gen::process_task_pinner_key_slice_response`].
pub fn task_pinner_key_slice_response_handler(
    stored: Option<DelegatorKeyGenStoreItem>,
    res: TaskPinnerKeySliceResponse,
    peer_id: &str,
    reply_to: &str,
) -> (r: Result<Step<DelegatorKeyGenStoreItem>, Error>)
    requires
        key_gen::store_item::item_wf(stored),
    ensures
        agrees(
            r,
            key_gen::spec_process_task_pinner_key_slice_response(
                key_gen::option_view_of(stored),
                res@,
                peer_id@,
                reply_to@,
            ),
        ),
        key_gen::store_item::result_wf(r),
{
    key_gen::process_task_pinner_key_slice_response(stored, res, peer_id, reply_to)
}

/// A peer applied as executor of a signing task: see
/// [`sign::process_executor_sign_with_key_slices_request`].
pub fn task_sign_with_key_slices_request_handler(
    stored: Option<DelegatorSignStoreItem>,
    res: TaskSignWithKeySlicesRequest,
    peer_id: &str,
    reply_to: &str,
) -> (r: Result<Step<DelegatorSignStoreItem>, Error>)
    requires
        encodable(res.rsa_pub_key@.len()),
    ensures
        agrees(
            r,
            sign::spec_process_executor_sign_with_key_slices_request(
                sign::store_item::option_view_of(stored),
                res@,
                peer_id@,
                reply_to@,
            ),
        ),
        sign::store_item::result_wf(r),
{
    sign::process_executor_sign_with_key_slices_request(stored, res, peer_id, reply_to)
}

/// A pinner handed over a slice: see
/// [`sign::process_pinner_key_slice_response`].
pub fn task_sign_get_pinner_key_slice_response_handler(
    stored: Option<DelegatorSignStoreItem>,
    res: TaskSignGetPinnerKeySliceResponse,
    peer_id: &str,
    reply_to: &str,
) -> (r: Result<Step<DelegatorSignStoreItem>, Error>)
    requires
        sign::store_item::item_wf(stored),
    ensures
        agrees(
            r,
            sign::spec_process_pinner_key_slice_response(
                sign::store_item::option_view_of(stored),
                res@,
                peer_id@,
                reply_to@,
            ),
        ),
        sign::store_item::result_wf(r),
{
    sign::process_pinner_key_slice_response(stored, res, peer_id, reply_to)
}

/// The executor handed in the combined signature: see
/// [`sign::process_commit_sign_result_request`].
pub fn task_commit_sign_result_request_handler(
    stored: Option<DelegatorSignStoreItem>,
    req: TaskCommitSignResultRequest,
    peer_id: &str,
    reply_to: &str,
) -> (r: Result<Step<DelegatorSignStoreItem>, Error>)
    requires
        sign::store_item::item_wf(stored),
    ensures
        agrees(
            r,
            sign::spec_process_commit_sign_result_request(
                sign::store_item::option_view_of(stored),
                req@,
                reply_to@,
            ),
        ),
        sign::store_item::result_wf(r),
{
    sign::process_commit_sign_result_request(stored, req, peer_id, reply_to)
}

/// The executor answered with the wrapped key slices: see
/// [`key_gen::process_task_execution_response`].
pub fn task_execution_response_handler(
    stored: Option<DelegatorKeyGenStoreItem>,
    res: TaskExecutionResponse,
    peer_id: &str,
    reply_to: &str,
) -> (step: Step<DelegatorKeyGenStoreItem>)
    requires
        key_gen::store_item::item_wf(stored),
    ensures
        step@ == key_gen::spec_process_task_execution_response(
            key_gen::option_view_of(stored),
            res@,
            peer_id@,
            reply_to@,
        ),
        key_gen::store_item::item_wf(step.item),
{
    key_gen::process_task_execution_response(stored, res, peer_id, reply_to)
}

/// A candidate applied for a role in a key-generation task. The applicant
/// is acknowledged and its attestation asked for, in the role it applied
/// for: the executor's if `apply_executor`, an initial pinner's otherwise.
pub fn task_key_generation_apply_request_handler(
    request: TaskKeyGenerationApplyRequest,
    peer_id: &str,
    reply_to: &str,
) -> (actions: Vec<Action>)
    requires
        encodable(request.rsa_pub_key@.len()),
    ensures
        views(actions@) == (if request.apply_executor {
            spec_remote_attestation(
                request@,
                peer_id@,
                reply_to@,
                "key generation to ra executor sent"@,
                VALUE_RA_TARGET_EXECUTOR@,
            )
        } else {
            spec_remote_attestation(
                request@,
                peer_id@,
                reply_to@,
                "key generation to ra initial pinner sent"@,
                VALUE_RA_TARGET_INITIAL_PINNER@,
            )
        }),
{
    if request.apply_executor {
        key_gen::remote_attestation_executor(request, text(peer_id), text(reply_to))
    } else {
        key_gen::remote_attestation_initial_pinner(request, text(peer_id), text(reply_to))
    }
}

/// The ledger announced a key-generation task that is addressed to this
/// node: see [`key_gen::process_key_generation_event`].
pub fn process_key_generation_event(res: KeyGenerationResponse, nonce: Vec<u8>) -> (r: Result<
    Step<DelegatorKeyGenStoreItem>,
    Error,
>)
    requires
        encodable(res.task_id@.len()),
    ensures
        agrees(r, key_gen::spec_process_key_generation_event(res@, nonce@)),
        key_gen::store_item::result_wf(r),
{
    key_gen::process_key_generation_event(res, nonce)
}

/// The ledger announced a signing task that is addressed to this node, and
/// has told the account's parameters and deployments: see
/// [`sign::process_sign_with_key_slices_event`].
pub fn process_sign_with_key_slices_event(
    req: SignTransactionResponse,
    nonce: Vec<u8>,
    exec_info: ExecutionInfo,
    deployment_ids: &Vec<String>,
) -> (r: Result<Step<DelegatorSignStoreItem>, Error>)
    requires
        encodable(req.task_id@.len()),
    ensures
        agrees(
            r,
            sign::spec_process_sign_with_key_slices_event(
                req@,
                nonce@,
                exec_info@,
                views(deployment_ids@),
            ),
        ),
        sign::store_item::result_wf(r),
{
    sign::process_sign_with_key_slices_event(req, nonce, exec_info, deployment_ids)
}

} // verus!
