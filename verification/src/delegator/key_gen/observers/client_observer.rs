//! What the delegator does when a candidate of a key-generation task has
//! passed attestation.

use vstd::prelude::*;
use vstd::utf8::encode_utf8;
use crate::action::{agrees, Step, StepView};
use crate::actor_pinner_proto::{ChallengeStoreItem, ChallengeStoreItemView};
use crate::common::utils::{find_property, first_property};
use crate::delegator::executor_info::{ExecutorInfo, ExecutorInfoView};
use crate::delegator::key_gen::initial_pinner_info::{InitialPinnerInfo, InitialPinnerInfoView};
use crate::delegator::key_gen::ra::{
    is_executor_ra_response, is_initial_pinner_ra_response, PROPERTY_DELEGATOR_RA_TARGET_ROLE,
    PROPERTY_RSA_PUB_KEY, PROPERTY_TASK_ID, VALUE_RA_TARGET_EXECUTOR,
    VALUE_RA_TARGET_INITIAL_PINNER,
};
use crate::delegator::key_gen::store_item::{
    item_wf, result_wf, DelegatorKeyGenStoreItem, DelegatorKeyGenStoreItemView, StoreItemState,
};
use crate::delegator::key_gen::{
    option_view_of, spec_try_send_to_executor, try_send_to_executor, TaskCandidates,
};
use crate::encoding::{base64_bytes, decodable, decode};
use crate::error::Error;
use crate::text::text;

verus! {

/// The task that an attestation result belongs to: the value of its first
/// task-id property.
pub open spec fn spec_ra_task_id(item: ChallengeStoreItemView) -> Result<Seq<char>, Error> {
    match first_property(item.properties, PROPERTY_TASK_ID@) {
        Some(task_id) => Ok(task_id),
        None => Err(Error::MissingTaskId),
    }
}

/// Reads the task id off an attestation result, so that the task's item can
/// be fetched. A result without a task id is refused.
pub fn ra_task_id(item: &ChallengeStoreItem) -> (r: Result<String, Error>)
    ensures
        match r {
            Ok(task_id) => spec_ra_task_id(item@) == Ok::<Seq<char>, Error>(task_id@),
            Err(e) => spec_ra_task_id(item@) == Err::<Seq<char>, Error>(e),
        },
{
    match find_property(&item.properties, PROPERTY_TASK_ID) {
        Some(task_id) => Ok(task_id.clone()),
        None => Err(Error::MissingTaskId),
    }
}

/// What the delegator keeps and does when a candidate executor has passed
/// attestation.
pub open spec fn spec_on_executor_ra_success(
    stored: Option<DelegatorKeyGenStoreItemView>,
    peer_id: Seq<char>,
    rsa_pub_key: Seq<u8>,
) -> Result<StepView<DelegatorKeyGenStoreItemView>, Error> {
    match stored {
        None => Err(Error::TaskNotFound),
        Some(item) => if item.state != StoreItemState::InvitedCandidates {
            Ok(StepView::idle())
        } else {
            spec_try_send_to_executor(item.with_executor(ExecutorInfoView { peer_id, rsa_pub_key }))
        },
    }
}

/// What the delegator keeps and does when a candidate initial pinner has
/// passed attestation.
pub open spec fn spec_on_initial_pinner_ra_success(
    stored: Option<DelegatorKeyGenStoreItemView>,
    peer_id: Seq<char>,
    rsa_pub_key: Seq<u8>,
) -> Result<StepView<DelegatorKeyGenStoreItemView>, Error> {
    match stored {
        None => Err(Error::TaskNotFound),
        Some(item) => if item.state != StoreItemState::InvitedCandidates {
            Ok(StepView::idle())
        } else {
            spec_try_send_to_executor(
                item.with_initial_pinner(InitialPinnerInfoView { peer_id, rsa_pub_key }),
            )
        },
    }
}

/// A candidate that is attested after the election changes nothing and
/// causes nothing, whatever its role.
pub proof fn lemma_late_candidate_is_ignored(
    item: DelegatorKeyGenStoreItemView,
    peer_id: Seq<char>,
    rsa_pub_key: Seq<u8>,
)
    requires
        item.state != StoreItemState::InvitedCandidates,
    ensures
        spec_on_executor_ra_success(Some(item), peer_id, rsa_pub_key) == Ok::<
            StepView<DelegatorKeyGenStoreItemView>,
            Error,
        >(StepView::idle()),
        spec_on_initial_pinner_ra_success(Some(item), peer_id, rsa_pub_key) == Ok::<
            StepView<DelegatorKeyGenStoreItemView>,
            Error,
        >(StepView::idle()),
{
}

/// What the delegator keeps and does when the attestation service reports a
/// candidate of a key-generation task. `rsa_pub_key` is what the base64
/// decoder made of the candidate's key property.
pub open spec fn spec_operation_after_verify(
    stored: Option<DelegatorKeyGenStoreItemView>,
    peer_id: Seq<char>,
    item: ChallengeStoreItemView,
    rsa_pub_key: Option<Seq<u8>>,
) -> Result<StepView<DelegatorKeyGenStoreItemView>, Error> {
    if first_property(item.properties, PROPERTY_TASK_ID@) is None {
        Err(Error::MissingTaskId)
    } else if first_property(item.properties, PROPERTY_RSA_PUB_KEY@) is None {
        Err(Error::MissingRsaPublicKey)
    } else if rsa_pub_key is None {
        Err(Error::InvalidEncoding)
    } else if first_property(item.properties, PROPERTY_DELEGATOR_RA_TARGET_ROLE@) == Some(
        VALUE_RA_TARGET_EXECUTOR@,
    ) {
        spec_on_executor_ra_success(stored, peer_id, rsa_pub_key->0)
    } else if first_property(item.properties, PROPERTY_DELEGATOR_RA_TARGET_ROLE@) == Some(
        VALUE_RA_TARGET_INITIAL_PINNER@,
    ) {
        spec_on_initial_pinner_ra_success(stored, peer_id, rsa_pub_key->0)
    } else {
        Ok(StepView::idle())
    }
}

/// What the base64 decoder makes of the key property of an attestation
/// result, where the result has one.
pub open spec fn spec_ra_rsa_pub_key(item: ChallengeStoreItemView) -> Option<Seq<u8>> {
    match first_property(item.properties, PROPERTY_RSA_PUB_KEY@) {
        Some(value) => base64_bytes(value),
        None => None,
    }
}

/// Whether the key property of an attestation result, if it has one, is
/// short enough for the base64 decoder.
pub open spec fn ra_key_decodable(item: ChallengeStoreItemView) -> bool {
    match first_property(item.properties, PROPERTY_RSA_PUB_KEY@) {
        Some(value) => decodable(encode_utf8(value).len()),
        None => true,
    }
}

/// Handles the report that the peer `peer_id` has passed attestation for a
/// key-generation task. `stored` is the delegator's item of the task that
/// the report names, if there is one. The report must name the task and
/// carry the candidate's RSA public key as base64 text; the candidate then
/// joins the pool of its role, see [`on_executor_ra_success`] and
/// [`on_initial_pinner_ra_success`]. A report for neither role is ignored.
pub fn operation_after_verify_handler(
    stored: Option<DelegatorKeyGenStoreItem>,
    peer_id: String,
    _ephemeral_id: Vec<u8>,
    item: &ChallengeStoreItem,
) -> (r: Result<Step<DelegatorKeyGenStoreItem>, Error>)
    requires
        item_wf(stored),
        ra_key_decodable(item@),
    ensures
        agrees(
            r,
            spec_operation_after_verify(
                option_view_of(stored),
                peer_id@,
                item@,
                spec_ra_rsa_pub_key(item@),
            ),
        ),
        result_wf(r),
{
    if find_property(&item.properties, PROPERTY_TASK_ID).is_none() {
        return Err(Error::MissingTaskId);
    }
    let rsa_pub_key = match find_property(&item.properties, PROPERTY_RSA_PUB_KEY) {
        Some(value) => match decode(value.as_str()) {
            Ok(key) => key,
            Err(e) => {
                return Err(e);
            },
        },
        None => {
            return Err(Error::MissingRsaPublicKey);
        },
    };
    if is_executor_ra_response(item) {
        on_executor_ra_success(stored, peer_id.as_str(), rsa_pub_key)
    } else if is_initial_pinner_ra_response(item) {
        on_initial_pinner_ra_success(stored, peer_id.as_str(), rsa_pub_key)
    } else {
        Ok(Step::idle())
    }
}

/// Admits an attested candidate executor. Without an item the task is
/// unknown. In any state but [`StoreItemState::InvitedCandidates`] the
/// candidate comes too late and is ignored. Otherwise it joins the pool of
/// candidate executors, and the election takes place if the pools are ready:
/// see [`try_send_to_executor`].
pub fn on_executor_ra_success(
    stored: Option<DelegatorKeyGenStoreItem>,
    peer_id: &str,
    rsa_pub_key: Vec<u8>,
) -> (r: Result<Step<DelegatorKeyGenStoreItem>, Error>)
    requires
        item_wf(stored),
    ensures
        agrees(r, spec_on_executor_ra_success(option_view_of(stored), peer_id@, rsa_pub_key@)),
        result_wf(r),
{
    let mut store_item = match stored {
        Some(item) => item,
        None => {
            return Err(Error::TaskNotFound);
        },
    };
    if store_item.state != StoreItemState::InvitedCandidates {
        return Ok(Step::idle());
    }
    store_item.insert_executor(ExecutorInfo { peer_id: text(peer_id), rsa_pub_key });
    try_send_to_executor(store_item)
}

/// Admits an attested candidate initial pinner: as
/// [`on_executor_ra_success`], for the pool of candidate initial pinners.
pub fn on_initial_pinner_ra_success(
    stored: Option<DelegatorKeyGenStoreItem>,
    peer_id: &str,
    rsa_pub_key: Vec<u8>,
) -> (r: Result<Step<DelegatorKeyGenStoreItem>, Error>)
    requires
        item_wf(stored),
    ensures
        agrees(
            r,
            spec_on_initial_pinner_ra_success(option_view_of(stored), peer_id@, rsa_pub_key@),
        ),
        result_wf(r),
{
    let mut store_item = match stored {
        Some(item) => item,
        None => {
            return Err(Error::TaskNotFound);
        },
    };
    if store_item.state != StoreItemState::InvitedCandidates {
        return Ok(Step::idle());
    }
    store_item.insert_initial_pinner(InitialPinnerInfo { peer_id: text(peer_id), rsa_pub_key });
    try_send_to_executor(store_item)
}

} // verus!
