//! What the delegator does when the executor or a pinner of a signing task
//! has passed attestation.

use vstd::prelude::*;
use vstd::utf8::encode_utf8;
use crate::action::{agrees, send_message, Action, ActionView, Step, StepView};
use crate::actor_pinner_proto::{ChallengeStoreItem, ChallengeStoreItemView};
use crate::common::utils::{find_property, first_property};
use crate::delegator::executor_info::{ExecutorInfo, ExecutorInfoView};
use crate::delegator::sign::ra::{
    is_executor_ra_response, is_pinner_ra_response, PROPERTY_DELEGATOR_RA_TARGET_ROLE,
    PROPERTY_RSA_PUB_KEY, PROPERTY_TASK_ID, VALUE_RA_TARGET_EXECUTOR, VALUE_RA_TARGET_PINNER,
};
use crate::delegator::sign::store_item::{
    item_wf, option_view_of, result_wf, DelegatorSignStoreItem, DelegatorSignStoreItemView,
};
use crate::delegator::sign::{spec_try_send_to_executor, try_send_to_executor};
use crate::encoding::{base64_bytes, decodable, decode};
use crate::error::Error;
use crate::p2p_proto::{
    GeneralMsgView, Msg, MsgView, TaskSignGetPinnerKeySliceRequest,
    TaskSignGetPinnerKeySliceRequestView,
};
use crate::text::{copy_bytes, text, views};

verus! {

/// The property that names the deployment of an attested pinner. The
/// attestation service sets it.
pub const PROPERTY_KEY_DEPLOYMENT_ID: &'static str = "deployment_id";

/// The request that asks a pinner for the slice of a deployment, wrapped
/// with the executor's key.
pub open spec fn spec_get_pinner_key_slice(
    task_id: Seq<char>,
    peer_id: Seq<char>,
    deployment_id: Seq<char>,
    rsa_pub_key: Seq<u8>,
) -> ActionView {
    ActionView::SendMessage {
        peer_id,
        task_id,
        msg: GeneralMsgView {
            msg: Some(
                MsgView::TaskSignGetPinnerKeySliceRequest(
                    TaskSignGetPinnerKeySliceRequestView { task_id, rsa_pub_key, deployment_id },
                ),
            ),
        },
    }
}

/// Asks the pinner `peer_id` for the slice of a deployment, wrapped with
/// the executor's key.
pub fn send_get_pinner_key_slice_request(
    task_id: &str,
    peer_id: &str,
    deployment_id: &str,
    executor: &ExecutorInfo,
) -> (action: Action)
    ensures
        action@ == spec_get_pinner_key_slice(
            task_id@,
            peer_id@,
            deployment_id@,
            executor@.rsa_pub_key,
        ),
{
    send_message(
        peer_id,
        task_id,
        Msg::TaskSignGetPinnerKeySliceRequest(
            TaskSignGetPinnerKeySliceRequest {
                task_id: text(task_id),
                rsa_pub_key: copy_bytes(&executor.rsa_pub_key),
                deployment_id: text(deployment_id),
            },
        ),
    )
}

/// The requests to the pinners that waited for one deployment, in order of
/// their arrival.
pub open spec fn spec_fetch_deployment(
    task_id: Seq<char>,
    rsa_pub_key: Seq<u8>,
    deployment_id: Seq<char>,
    peers: Seq<Seq<char>>,
) -> Seq<ActionView> {
    Seq::new(
        peers.len(),
        |i: int| spec_get_pinner_key_slice(task_id, peers[i], deployment_id, rsa_pub_key),
    )
}

/// The requests to every pinner that waited, deployment by deployment.
pub open spec fn spec_fetch_all(
    task_id: Seq<char>,
    rsa_pub_key: Seq<u8>,
    candidates: Seq<(Seq<char>, Seq<Seq<char>>)>,
) -> Seq<ActionView>
    decreases candidates.len(),
{
    if candidates.len() == 0 {
        Seq::empty()
    } else {
        spec_fetch_all(task_id, rsa_pub_key, candidates.drop_last()) + spec_fetch_deployment(
            task_id,
            rsa_pub_key,
            candidates.last().0,
            candidates.last().1,
        )
    }
}

/// What the delegator keeps and does when a candidate executor has passed
/// attestation.
pub open spec fn spec_on_executor_ra_success(
    stored: Option<DelegatorSignStoreItemView>,
    peer_id: Seq<char>,
    rsa_pub_key: Seq<u8>,
) -> Result<StepView<DelegatorSignStoreItemView>, Error> {
    match stored {
        None => Err(Error::TaskNotFound),
        Some(item) => if item.executor is Some {
            Ok(StepView::idle())
        } else {
            let chosen = DelegatorSignStoreItemView {
                executor: Some(ExecutorInfoView { peer_id, rsa_pub_key }),
                deployment_candidates: Seq::empty(),
                ..item
            };
            if chosen.ready_send_to_executor() {
                Ok(spec_try_send_to_executor(chosen))
            } else {
                Ok(
                    StepView {
                        item: Some(chosen),
                        actions: spec_fetch_all(
                            item.task_info.task_id,
                            rsa_pub_key,
                            item.deployment_candidates,
                        ),
                    },
                )
            }
        },
    }
}

/// Admits the attested executor of a signing task. Without an item the
/// task is unknown. Once there is an executor, further ones are ignored.
/// Otherwise the peer becomes the executor and the waiting lists are
/// emptied. If the task is ready it goes to the executor at once, see
/// [`try_send_to_executor`]; if not, every pinner that waited is asked for
/// its slice, wrapped with the executor's key.
pub fn on_executor_ra_success(
    stored: Option<DelegatorSignStoreItem>,
    peer_id: &str,
    rsa_pub_key: Vec<u8>,
) -> (r: Result<Step<DelegatorSignStoreItem>, Error>)
    requires
        item_wf(stored),
    ensures
        agrees(r, spec_on_executor_ra_success(option_view_of(stored), peer_id@, rsa_pub_key@)),
        result_wf(r),
{
    let mut store_item = match stored {
        Some(item) => item,
        None => {
            return Err(Error::TaskNotFound);
        },
    };
    if store_item.executor.is_some() {
        return Ok(Step::idle());
    }
    let ghost before = store_item@;
    let executor = ExecutorInfo { peer_id: text(peer_id), rsa_pub_key };
    store_item.executor = Some(executor.duplicate());
    let candidates = store_item.pop_all_candidates();
    if store_item.ready_send_to_executor() {
        return Ok(try_send_to_executor(store_item));
    }
    let ghost waiting = before.deployment_candidates;
    let mut actions: Vec<Action> = Vec::new();
    let mut i: usize = 0;
    assert(waiting.take(0) =~= Seq::empty());
    assert(views(actions@) =~= spec_fetch_all(
        before.task_info.task_id,
        rsa_pub_key@,
        waiting.take(0),
    ));
    while i < candidates.len()
        invariant
            i <= candidates.entries@.len(),
            waiting == candidates.pairs(),
            executor@.rsa_pub_key == rsa_pub_key@,
            store_item@.task_info.task_id == before.task_info.task_id,
            views(actions@) == spec_fetch_all(
                before.task_info.task_id,
                rsa_pub_key@,
                waiting.take(i as int),
            ),
        decreases candidates.entries@.len() - i,
    {
        let deployment_id = candidates.key_at(i);
        let peers = candidates.value_at(i);
        let ghost done = views(actions@);
        let mut j: usize = 0;
        while j < peers.len()
            invariant
                j <= peers@.len(),
                i < candidates.entries@.len(),
                waiting == candidates.pairs(),
                executor@.rsa_pub_key == rsa_pub_key@,
                store_item@.task_info.task_id == before.task_info.task_id,
                deployment_id@ == waiting[i as int].0,
                peers.deep_view() == waiting[i as int].1,
                actions@.len() == done.len() + j,
                forall|a: int| 0 <= a < done.len() ==> actions@[a]@ == done[a],
                forall|b: int|
                    0 <= b < j ==> actions@[done.len() + b]@ == spec_get_pinner_key_slice(
                        before.task_info.task_id,
                        waiting[i as int].1[b],
                        waiting[i as int].0,
                        rsa_pub_key@,
                    ),
            decreases peers@.len() - j,
        {
            assert(peers.deep_view()[j as int] == peers@[j as int]@);
            actions.push(
                send_get_pinner_key_slice_request(
                    store_item.task_info.task_id.as_str(),
                    peers[j].as_str(),
                    deployment_id.as_str(),
                    &executor,
                ),
            );
            j = j + 1;
        }
        proof {
            let next = waiting.take(i + 1);
            assert(next.drop_last() =~= waiting.take(i as int));
            assert(next.last() == waiting[i as int]);
            assert(peers.deep_view().len() == peers@.len());
            assert(views(actions@) =~= done + spec_fetch_deployment(
                before.task_info.task_id,
                rsa_pub_key@,
                waiting[i as int].0,
                waiting[i as int].1,
            ));
        }
        i = i + 1;
    }
    assert(waiting.take(candidates.entries@.len() as int) =~= waiting);
    Ok(Step { item: Some(store_item), actions })
}

/// What the delegator keeps and does when a pinner of a deployment has
/// passed attestation.
pub open spec fn spec_on_pinner_ra_success(
    stored: Option<DelegatorSignStoreItemView>,
    peer_id: Seq<char>,
    deployment_id: Seq<char>,
) -> Result<StepView<DelegatorSignStoreItemView>, Error> {
    match stored {
        None => Err(Error::TaskNotFound),
        Some(item) => if item.has_found_key_slice(deployment_id) {
            Ok(StepView::idle())
        } else if item.executor is None {
            match item.insert_deployment(deployment_id, peer_id) {
                Ok(waiting) => Ok(StepView { item: Some(waiting), actions: Seq::empty() }),
                Err(e) => Err(e),
            }
        } else {
            Ok(
                StepView {
                    item: None,
                    actions: seq![
                        spec_get_pinner_key_slice(
                            item.task_info.task_id,
                            peer_id,
                            deployment_id,
                            item.executor->0.rsa_pub_key,
                        ),
                    ],
                },
            )
        },
    }
}

/// Admits an attested pinner of a deployment. Without an item the task is
/// unknown. A pinner of a deployment whose slice is found already is
/// ignored. While there is no executor the pinner joins the waiting list of
/// its deployment, which must be one of the task's. Once there is an
/// executor the pinner is asked for its slice at once, and the item stays as
/// it is.
pub fn on_pinner_ra_success(
    stored: Option<DelegatorSignStoreItem>,
    peer_id: &str,
    deployment_id: &str,
) -> (r: Result<Step<DelegatorSignStoreItem>, Error>)
    requires
        item_wf(stored),
    ensures
        agrees(r, spec_on_pinner_ra_success(option_view_of(stored), peer_id@, deployment_id@)),
        result_wf(r),
{
    let mut store_item = match stored {
        Some(item) => item,
        None => {
            return Err(Error::TaskNotFound);
        },
    };
    if store_item.has_found_key_slice(deployment_id) {
        return Ok(Step::idle());
    }
    if store_item.executor.is_none() {
        match store_item.insert_deployment(deployment_id, peer_id) {
            Ok(_) => {},
            Err(e) => {
                return Err(e);
            },
        }
        let step = Step { item: Some(store_item), actions: Vec::new() };
        assert(step@.actions =~= Seq::empty());
        return Ok(step);
    }
    match &store_item.executor {
        Some(executor) => Ok(
            Step::only(
                send_get_pinner_key_slice_request(
                    store_item.task_info.task_id.as_str(),
                    peer_id,
                    deployment_id,
                    executor,
                ),
            ),
        ),
        None => Ok(Step::idle()),
    }
}

/// Once a signing task has an executor, a further attested executor
/// changes nothing and causes nothing.
pub proof fn lemma_second_executor_is_ignored(
    item: DelegatorSignStoreItemView,
    peer_id: Seq<char>,
    rsa_pub_key: Seq<u8>,
)
    requires
        item.executor is Some,
    ensures
        spec_on_executor_ra_success(Some(item), peer_id, rsa_pub_key) == Ok::<
            StepView<DelegatorSignStoreItemView>,
            Error,
        >(StepView::idle()),
{
}

/// An attested pinner of a deployment whose slice is found changes nothing
/// and causes nothing.
pub proof fn lemma_pinner_of_found_slice_is_ignored(
    item: DelegatorSignStoreItemView,
    peer_id: Seq<char>,
    deployment_id: Seq<char>,
)
    requires
        item.has_found_key_slice(deployment_id),
    ensures
        spec_on_pinner_ra_success(Some(item), peer_id, deployment_id) == Ok::<
            StepView<DelegatorSignStoreItemView>,
            Error,
        >(StepView::idle()),
{
}

/// What the delegator keeps and does when the attestation service reports a
/// peer of a signing task. `rsa_pub_key` is what the base64 decoder made of
/// the peer's key property.
pub open spec fn spec_operation_after_verify(
    stored: Option<DelegatorSignStoreItemView>,
    peer_id: Seq<char>,
    item: ChallengeStoreItemView,
    rsa_pub_key: Option<Seq<u8>>,
) -> Result<StepView<DelegatorSignStoreItemView>, Error> {
    if first_property(item.properties, PROPERTY_TASK_ID@) is None {
        Err(Error::MissingTaskId)
    } else if first_property(item.properties, PROPERTY_DELEGATOR_RA_TARGET_ROLE@) == Some(
        VALUE_RA_TARGET_EXECUTOR@,
    ) {
        if first_property(item.properties, PROPERTY_RSA_PUB_KEY@) is None {
            Err(Error::MissingRsaPublicKey)
        } else if rsa_pub_key is None {
            Err(Error::InvalidEncoding)
        } else {
            spec_on_executor_ra_success(stored, peer_id, rsa_pub_key->0)
        }
    } else if first_property(item.properties, PROPERTY_DELEGATOR_RA_TARGET_ROLE@) == Some(
        VALUE_RA_TARGET_PINNER@,
    ) {
        match first_property(item.properties, PROPERTY_KEY_DEPLOYMENT_ID@) {
            None => Err(Error::MissingDeploymentId),
            Some(deployment_id) => spec_on_pinner_ra_success(stored, peer_id, deployment_id),
        }
    } else {
        Ok(StepView::idle())
    }
}

/// What the base64 decoder makes of the key property of an attestation
/// result, where the result has one.
pub open spec fn spec_ra_rsa_pub_key(item: ChallengeStoreItemView) -> Option<Seq<u8>> {
    match first_property(item.properties, PROPERTY_RSA_PUB_KEY@) {
        Some(value) => base64_bytes(value),
        None => None,
    }
}

/// Whether the key property of an attestation result, if it has one, is
/// short enough for the base64 decoder.
pub open spec fn ra_key_decodable(item: ChallengeStoreItemView) -> bool {
    match first_property(item.properties, PROPERTY_RSA_PUB_KEY@) {
        Some(value) => decodable(encode_utf8(value).len()),
        None => true,
    }
}

/// The task that an attestation result belongs to: the value of its first
/// task-id property.
pub open spec fn spec_ra_task_id(item: ChallengeStoreItemView) -> Result<Seq<char>, Error> {
    match first_property(item.properties, PROPERTY_TASK_ID@) {
        Some(task_id) => Ok(task_id),
        None => Err(Error::MissingTaskId),
    }
}

/// Reads the task id off an attestation result, so that the task's item can
/// be fetched. A result without a task id is refused.
pub fn ra_task_id(item: &ChallengeStoreItem) -> (r: Result<String, Error>)
    ensures
        match r {
            Ok(task_id) => spec_ra_task_id(item@) == Ok::<Seq<char>, Error>(task_id@),
            Err(e) => spec_ra_task_id(item@) == Err::<Seq<char>, Error>(e),
        },
{
    match find_property(&item.properties, PROPERTY_TASK_ID) {
        Some(task_id) => Ok(task_id.clone()),
        None => Err(Error::MissingTaskId),
    }
}

/// Handles the report that the peer `peer_id` has passed attestation for a
/// signing task. `stored` is the delegator's item of the task that the
/// report names, if there is one. The report must name the task. An
/// executor's report must carry its RSA public key as base64 text, see
/// [`on_executor_ra_success`]; a pinner's report must name its deployment,
/// see [`on_pinner_ra_success`]. A report for neither role is ignored.
pub fn operation_after_verify_handler(
    stored: Option<DelegatorSignStoreItem>,
    peer_id: String,
    _ephemeral_id: Vec<u8>,
    item: &ChallengeStoreItem,
) -> (r: Result<Step<DelegatorSignStoreItem>, Error>)
    requires
        item_wf(stored),
        ra_key_decodable(item@),
    ensures
        agrees(
            r,
            spec_operation_after_verify(
                option_view_of(stored),
                peer_id@,
                item@,
                spec_ra_rsa_pub_key(item@),
            ),
        ),
        result_wf(r),
{
    if find_property(&item.properties, PROPERTY_TASK_ID).is_none() {
        return Err(Error::MissingTaskId);
    }
    if is_executor_ra_response(item) {
        let rsa_pub_key = match find_property(&item.properties, PROPERTY_RSA_PUB_KEY) {
            Some(value) => match decode(value.as_str()) {
                Ok(key) => key,
                Err(e) => {
                    return Err(e);
                },
            },
            None => {
                return Err(Error::MissingRsaPublicKey);
            },
        };
        on_executor_ra_success(stored, peer_id.as_str(), rsa_pub_key)
    } else if is_pinner_ra_response(item) {
        match find_property(&item.properties, PROPERTY_KEY_DEPLOYMENT_ID) {
            Some(deployment_id) => on_pinner_ra_success(
                stored,
                peer_id.as_str(),
                deployment_id.as_str(),
            ),
            None => Err(Error::MissingDeploymentId),
        }
    } else {
        Ok(Step::idle())
    }
}

} // verus!
