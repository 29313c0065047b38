//! What this node does with the events that the ledger emits.

use vstd::prelude::*;
use crate::action::{agrees, Action, ActionView, Step, StepView};
use crate::actor_delegate_proto::{
    AssetGeneratedResponse, GetDelegatesRequestView, GetDeploymentIdsView,
    KeyGenerationResponse, KeyGenerationResponseView, SignTransactionResponse,
    SignTransactionResponseView,
};
use crate::actor_pinner_proto::UpdateConflictListRequestView;
use crate::delegator::admission::{
    spec_admitted, try_to_be_delegator, OpenedNonce, OpenedNonceView,
};
use crate::delegator::key_gen::store_item::{
    result_wf, DelegatorKeyGenStoreItem, DelegatorKeyGenStoreItemView, StoreItemState,
};
use crate::delegator::key_gen::spec_process_key_generation_event;
use crate::delegator::process_key_generation_event;
use crate::delegator::sign::get_deployment_ids;
use crate::encoding::{base64_text, encodable, encode};
use crate::error::Error;
use crate::initial_pinner::handler::{
    spec_trying_commit_data_upload, trying_commit_data_upload, update_conflict_list,
};
use crate::initial_pinner::store_item::InitialPinnerStoreItem;
use crate::text::{copy_bytes, option_view, views};

verus! {

/// What this node keeps and does when the ledger announces a key-generation
/// task.
pub open spec fn spec_key_generation_request(
    ready: bool,
    event: KeyGenerationResponseView,
    opened: Option<OpenedNonceView>,
) -> Result<StepView<DelegatorKeyGenStoreItemView>, Error> {
    if !ready {
        Ok(StepView::idle())
    } else {
        match spec_admitted(opened, event.data_adhoc.delegator_tea_nonce_hash) {
            None => Ok(StepView::idle()),
            Some(nonce) => spec_process_key_generation_event(event, nonce),
        }
    }
}

/// A node that is not ready, that could not open the event's nonce, or
/// whose opened nonce has another digest than the announced one, keeps
/// nothing and does nothing: no item, no question for delegates, no
/// invitation.
pub proof fn lemma_unaddressed_node_keeps_nothing(
    ready: bool,
    event: KeyGenerationResponseView,
    opened: Option<OpenedNonceView>,
)
    requires
        !ready || opened is None || opened->0.digest != event.data_adhoc.delegator_tea_nonce_hash,
    ensures
        spec_key_generation_request(ready, event, opened) == Ok::<
            StepView<DelegatorKeyGenStoreItemView>,
            Error,
        >(StepView::idle()),
{
}

/// On the ready node that opened the nonce to the announced digest, a task
/// with valid counts is accepted: its item holds the opened nonce and is in
/// state `InvitedCandidates`, and the first `n` delegates are asked for.
pub proof fn lemma_addressed_node_accepts(
    event: KeyGenerationResponseView,
    opened: OpenedNonceView,
)
    requires
        opened.digest == event.data_adhoc.delegator_tea_nonce_hash,
        1 <= event.data_adhoc.k < event.data_adhoc.n <= 255,
    ensures
        spec_key_generation_request(true, event, Some(opened)) is Ok,
        spec_key_generation_request(true, event, Some(opened))->Ok_0.item is Some,
        spec_key_generation_request(true, event, Some(opened))->Ok_0.item->0.nonce == opened.nonce,
        spec_key_generation_request(true, event, Some(opened))->Ok_0.item->0.state
            == StoreItemState::InvitedCandidates,
        spec_key_generation_request(true, event, Some(opened))->Ok_0.item->0.task_info.task_id
            == base64_text(event.task_id),
        spec_key_generation_request(true, event, Some(opened))->Ok_0.actions == seq![
            ActionView::GetDelegates(
                GetDelegatesRequestView { start: 0, limit: event.data_adhoc.n },
            ),
        ],
{
}

/// Handles the ledger's announcement of a key-generation task. `ready` says
/// whether this node is ready for work; `opened` is what the node made of
/// the event's encrypted nonce, if anything. A node that is not ready, or
/// that is not the delegator the event is addressed to, drops the event
/// silently: it keeps nothing and does nothing. The delegator accepts the
/// task.
pub fn key_generation_request_handler(
    ready: bool,
    event: KeyGenerationResponse,
    opened: Option<OpenedNonce>,
) -> (r: Result<Step<DelegatorKeyGenStoreItem>, Error>)
    requires
        ready && spec_admitted(option_view(opened), event.data_adhoc.delegator_tea_nonce_hash@)
            is Some ==> encodable(event.task_id@.len()),
    ensures
        agrees(r, spec_key_generation_request(ready, event@, option_view(opened))),
        result_wf(r),
{
    if !ready {
        return Ok(Step::idle());
    }
    match try_to_be_delegator(opened, &event.data_adhoc.delegator_tea_nonce_hash) {
        Some(nonce) => process_key_generation_event(event, nonce),
        None => Ok(Step::idle()),
    }
}

/// With what the delegator of a signing task begins: the nonce that admits
/// it, and the question for the account's deployments.
pub open spec fn spec_sign_with_key_slices(
    ready: bool,
    event: SignTransactionResponseView,
    opened: Option<OpenedNonceView>,
) -> Option<(Seq<u8>, ActionView)> {
    if !ready {
        None
    } else {
        match spec_admitted(opened, event.data_adhoc.delegator_tea_nonce_hash) {
            None => None,
            Some(nonce) => Some(
                (
                    nonce,
                    ActionView::GetDeploymentIds(
                        GetDeploymentIdsView { multi_sig_account: event.multi_sig_account },
                    ),
                ),
            ),
        }
    }
}

/// Handles the ledger's announcement of a signing task. A node that is not
/// ready, or that is not the delegator the event is addressed to, drops the
/// event silently. The delegator gets the nonce that admits it and asks the
/// ledger for the account's deployments; the answer goes to
/// `delegator::process_sign_with_key_slices_event`.
pub fn sign_with_key_slices_handler(
    ready: bool,
    event: &SignTransactionResponse,
    opened: Option<OpenedNonce>,
) -> (r: Option<(Vec<u8>, Action)>)
    ensures
        match r {
            Some(begun) => spec_sign_with_key_slices(ready, event@, option_view(opened)) == Some(
                (begun.0@, begun.1@),
            ),
            None => spec_sign_with_key_slices(ready, event@, option_view(opened)) is None,
        },
{
    if !ready {
        return None;
    }
    match try_to_be_delegator(opened, &event.data_adhoc.delegator_tea_nonce_hash) {
        Some(nonce) => Some((nonce, get_deployment_ids(copy_bytes(&event.multi_sig_account)))),
        None => None,
    }
}

/// The id under which the roles know the task of a registered account: the
/// base64 text of the id that the ledger uses.
pub fn asset_task_id(res: &AssetGeneratedResponse) -> (task_id: String)
    requires
        encodable(res.task_id@.len()),
    ensures
        task_id@ == base64_text(res.task_id@),
{
    encode(&res.task_id)
}

/// Handles the ledger's announcement that an account was registered.
/// `stored` is this node's initial-pinner item of the account's task, if
/// there is one; `current` and `cid_code` are the deployment id and the data
/// id that this node remembers for the account, if any. The attestation
/// service is told which deployments belong to the account, whatever else
/// happens; then the node's own upload is confirmed, if it made one.
pub fn asset_generated_event_handler(
    res: AssetGeneratedResponse,
    stored: &Option<InitialPinnerStoreItem>,
    current: Option<String>,
    cid_code: Option<String>,
) -> (r: (Action, Result<Vec<Action>, Error>))
    ensures
        r.0@ == ActionView::UpdateConflictList(
            UpdateConflictListRequestView {
                key: res@.multi_sig_account,
                deployment_ids: res@.asset_info.p2_deployment_ids,
                current_items: match current {
                    Some(id) => seq![id@],
                    None => Seq::empty(),
                },
                max_allowed: 1,
            },
        ),
        match r.1 {
            Ok(actions) => spec_trying_commit_data_upload(
                option_view(*stored),
                option_view(cid_code),
                option_view(current),
            ) == Ok::<Seq<ActionView>, Error>(views(actions@)),
            Err(e) => spec_trying_commit_data_upload(
                option_view(*stored),
                option_view(cid_code),
                option_view(current),
            ) == Err::<Seq<ActionView>, Error>(e),
        },
{
    let remembered = match &current {
        Some(id) => Some(id.clone()),
        None => None,
    };
    let conflict_list = update_conflict_list(
        &res.multi_sig_account,
        res.asset_info.p2_deployment_ids,
        remembered,
    );
    let commit = trying_commit_data_upload(stored, cid_code, current);
    (conflict_list, commit)
}

} // verus!
