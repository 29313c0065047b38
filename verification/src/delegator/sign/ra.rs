//! The attestation of the executor and the pinners of a signing task.

use vstd::prelude::*;
use crate::action::{reply, Action, ActionView};
use crate::actor_pinner_proto::{ChallengeStoreItem, PeerApproveRaRequestView};
use crate::common::utils::{
    find_property, first_property, lemma_first_property, put_property, send_ra_request,
    spec_properties,
};
use crate::delegator::sign::observers::{tag_for_sign, PROPERTY_SIGN_FLAG};
use crate::encoding::{base64_text, encodable, encode};
use crate::p2p_proto::{TaskSignWithKeySlicesRequest, TaskSignWithKeySlicesRequestView};
use crate::table::Table;
use crate::text::{same_text, text, views};
use crate::{BINDING_NAME, MY_ACTOR_NAME};

verus! {

/// The property that names the task.
pub const PROPERTY_TASK_ID: &'static str = "task_id";

/// The property that holds the executor's RSA public key, as base64 text.
pub const PROPERTY_RSA_PUB_KEY: &'static str = "rsa_pub_key";

/// The property that names the role of the attested peer.
pub const PROPERTY_DELEGATOR_RA_TARGET_ROLE: &'static str = "delegator_sign_ra_target_role";

/// The role of an executor.
pub const VALUE_RA_TARGET_EXECUTOR: &'static str = "executor";

/// The role of a pinner.
pub const VALUE_RA_TARGET_PINNER: &'static str = "pinner";

/// The properties of the attestation request for a candidate executor: the
/// task, the candidate's key, its role and the mark of signing.
pub open spec fn spec_executor_ra_properties(task_id: Seq<char>, rsa_text: Seq<char>) -> Seq<
    (Seq<char>, Seq<char>),
> {
    seq![
        (PROPERTY_TASK_ID@, task_id),
        (PROPERTY_RSA_PUB_KEY@, rsa_text),
        (PROPERTY_DELEGATOR_RA_TARGET_ROLE@, VALUE_RA_TARGET_EXECUTOR@),
        (PROPERTY_SIGN_FLAG@, BINDING_NAME@),
    ]
}

/// The properties with which the pinners of a deployment are looked for:
/// the task, the pinner's role and the mark of signing.
pub open spec fn spec_pinner_ra_properties(task_id: Seq<char>) -> Seq<(Seq<char>, Seq<char>)> {
    seq![
        (PROPERTY_TASK_ID@, task_id),
        (PROPERTY_DELEGATOR_RA_TARGET_ROLE@, VALUE_RA_TARGET_PINNER@),
        (PROPERTY_SIGN_FLAG@, BINDING_NAME@),
    ]
}

/// What the delegator does with the application of a candidate executor
/// whose key has the base64 text `rsa_text`: it acknowledges it, then asks
/// for the attestation of the applicant.
pub open spec fn spec_attest_executor(
    task_id: Seq<char>,
    rsa_text: Seq<char>,
    peer_id: Seq<char>,
    reply_to: Seq<char>,
) -> Seq<ActionView> {
    seq![
        ActionView::Reply { reply_to, body: "sign to ra executor sent"@ },
        ActionView::RequestPeerApproveRa(
            PeerApproveRaRequestView {
                send_to_actor: MY_ACTOR_NAME@,
                peer_id,
                properties: spec_properties(spec_executor_ra_properties(task_id, rsa_text)),
            },
        ),
    ]
}

/// What the delegator does with the application of a candidate executor: it
/// acknowledges it, then asks for the attestation of the applicant.
pub open spec fn spec_remote_attestation_executor(
    request: TaskSignWithKeySlicesRequestView,
    peer_id: Seq<char>,
    reply_to: Seq<char>,
) -> Seq<ActionView> {
    spec_attest_executor(request.task_id, base64_text(request.rsa_pub_key), peer_id, reply_to)
}

/// The four property names differ from each other.
proof fn lemma_property_names_differ()
    ensures
        PROPERTY_TASK_ID@ != PROPERTY_RSA_PUB_KEY@,
        PROPERTY_TASK_ID@ != PROPERTY_DELEGATOR_RA_TARGET_ROLE@,
        PROPERTY_TASK_ID@ != PROPERTY_SIGN_FLAG@,
        PROPERTY_RSA_PUB_KEY@ != PROPERTY_DELEGATOR_RA_TARGET_ROLE@,
        PROPERTY_RSA_PUB_KEY@ != PROPERTY_SIGN_FLAG@,
        PROPERTY_DELEGATOR_RA_TARGET_ROLE@ != PROPERTY_SIGN_FLAG@,
{
    reveal_strlit("task_id");
    reveal_strlit("rsa_pub_key");
    reveal_strlit("delegator_sign_ra_target_role");
    reveal_strlit("task_delegator_sign_flag");
    assert(PROPERTY_TASK_ID@.len() == 7);
    assert(PROPERTY_RSA_PUB_KEY@.len() == 11);
    assert(PROPERTY_DELEGATOR_RA_TARGET_ROLE@.len() == 29);
    assert(PROPERTY_SIGN_FLAG@.len() == 24);
}

/// What the delegator puts into the attestation request for an executor,
/// it reads back from the attestation result: the task, the key's text, the
/// executor's role and the mark of signing.
pub proof fn lemma_executor_properties_are_read_back(task_id: Seq<char>, rsa_text: Seq<char>)
    ensures
        first_property(
            spec_properties(spec_executor_ra_properties(task_id, rsa_text)),
            PROPERTY_TASK_ID@,
        ) == Some(task_id),
        first_property(
            spec_properties(spec_executor_ra_properties(task_id, rsa_text)),
            PROPERTY_RSA_PUB_KEY@,
        ) == Some(rsa_text),
        first_property(
            spec_properties(spec_executor_ra_properties(task_id, rsa_text)),
            PROPERTY_DELEGATOR_RA_TARGET_ROLE@,
        ) == Some(VALUE_RA_TARGET_EXECUTOR@),
        first_property(
            spec_properties(spec_executor_ra_properties(task_id, rsa_text)),
            PROPERTY_SIGN_FLAG@,
        ) == Some(BINDING_NAME@),
{
    lemma_property_names_differ();
    let properties = spec_properties(spec_executor_ra_properties(task_id, rsa_text));
    lemma_first_property(properties, PROPERTY_TASK_ID@, 0);
    lemma_first_property(properties, PROPERTY_RSA_PUB_KEY@, 1);
    lemma_first_property(properties, PROPERTY_DELEGATOR_RA_TARGET_ROLE@, 2);
    lemma_first_property(properties, PROPERTY_SIGN_FLAG@, 3);
}

/// What the delegator puts into the search for pinners, it reads back from
/// the attestation result of a pinner: the task, the pinner's role and the
/// mark of signing.
pub proof fn lemma_pinner_properties_are_read_back(task_id: Seq<char>)
    ensures
        first_property(spec_properties(spec_pinner_ra_properties(task_id)), PROPERTY_TASK_ID@)
            == Some(task_id),
        first_property(
            spec_properties(spec_pinner_ra_properties(task_id)),
            PROPERTY_DELEGATOR_RA_TARGET_ROLE@,
        ) == Some(VALUE_RA_TARGET_PINNER@),
        first_property(spec_properties(spec_pinner_ra_properties(task_id)), PROPERTY_SIGN_FLAG@)
            == Some(BINDING_NAME@),
{
    lemma_property_names_differ();
    let properties = spec_properties(spec_pinner_ra_properties(task_id));
    lemma_first_property(properties, PROPERTY_TASK_ID@, 0);
    lemma_first_property(properties, PROPERTY_DELEGATOR_RA_TARGET_ROLE@, 1);
    lemma_first_property(properties, PROPERTY_SIGN_FLAG@, 2);
}

/// The two roles of a signing task have different names.
pub proof fn lemma_roles_differ()
    ensures
        VALUE_RA_TARGET_EXECUTOR@ != VALUE_RA_TARGET_PINNER@,
{
    reveal_strlit("executor");
    reveal_strlit("pinner");
    assert(VALUE_RA_TARGET_EXECUTOR@.len() == 8);
    assert(VALUE_RA_TARGET_PINNER@.len() == 6);
}

/// Acknowledges the application of a candidate executor, then asks for the
/// attestation of the applicant `peer_id`, with four properties: the task,
/// the applicant's key as the text `rsa_text`, the executor's role and the
/// mark of signing.
pub fn attest_executor(task_id: String, rsa_text: String, peer_id: String, reply_to: String) -> (actions:
    Vec<Action>)
    ensures
        views(actions@) == spec_attest_executor(task_id@, rsa_text@, peer_id@, reply_to@),
{
    let mut properties: Table<String> = Table::new();
    put_property(&mut properties, PROPERTY_TASK_ID, task_id);
    put_property(&mut properties, PROPERTY_RSA_PUB_KEY, rsa_text);
    put_property(
        &mut properties,
        PROPERTY_DELEGATOR_RA_TARGET_ROLE,
        text(VALUE_RA_TARGET_EXECUTOR),
    );
    tag_for_sign(&mut properties);
    proof {
        lemma_property_names_differ();
        let expected = spec_executor_ra_properties(task_id@, rsa_text@);
        let none = Seq::<(Seq<char>, Seq<char>)>::empty();
        let one = none.push(expected[0]);
        let two = one.push(expected[1]);
        let three = two.push(expected[2]);
        assert(three.push(expected[3]) =~= expected);
        assert(properties.pairs() == expected);
    }
    let mut actions: Vec<Action> = Vec::new();
    actions.push(reply(reply_to.as_str(), "sign to ra executor sent"));
    actions.push(send_ra_request(peer_id, properties));
    assert(views(actions@) =~= spec_attest_executor(task_id@, rsa_text@, peer_id@, reply_to@));
    actions
}

/// Handles the application of a candidate executor: acknowledges it and
/// asks for the applicant's attestation, with the task, the applicant's key
/// as base64 text, the executor's role and the mark of signing as
/// properties: see [`attest_executor`].
pub fn remote_attestation_executor(
    request: TaskSignWithKeySlicesRequest,
    peer_id: String,
    reply_to: String,
) -> (actions: Vec<Action>)
    requires
        encodable(request.rsa_pub_key@.len()),
    ensures
        views(actions@) == spec_remote_attestation_executor(request@, peer_id@, reply_to@),
{
    let rsa_text = encode(&request.rsa_pub_key);
    attest_executor(request.task_id, rsa_text, peer_id, reply_to)
}

/// The properties with which the pinners of the task's deployments are
/// looked for.
pub fn generate_pinner_ra_properties(task_id: &str) -> (properties: Table<String>)
    ensures
        properties.pairs() == spec_pinner_ra_properties(task_id@),
        properties.wf(),
{
    let mut properties: Table<String> = Table::new();
    put_property(&mut properties, PROPERTY_TASK_ID, text(task_id));
    put_property(&mut properties, PROPERTY_DELEGATOR_RA_TARGET_ROLE, text(VALUE_RA_TARGET_PINNER));
    tag_for_sign(&mut properties);
    proof {
        lemma_property_names_differ();
        let expected = spec_pinner_ra_properties(task_id@);
        let none = Seq::<(Seq<char>, Seq<char>)>::empty();
        let one = none.push(expected[0]);
        let two = one.push(expected[1]);
        assert(two.push(expected[2]) =~= expected);
        assert(properties.pairs() == expected);
    }
    properties
}

/// Whether an attestation result is that of a candidate executor: its first
/// role property names the executor's role.
pub fn is_executor_ra_response(item: &ChallengeStoreItem) -> (r: bool)
    ensures
        r == (first_property(item@.properties, PROPERTY_DELEGATOR_RA_TARGET_ROLE@) == Some(
            VALUE_RA_TARGET_EXECUTOR@,
        )),
{
    match find_property(&item.properties, PROPERTY_DELEGATOR_RA_TARGET_ROLE) {
        Some(value) => same_text(value.as_str(), VALUE_RA_TARGET_EXECUTOR),
        None => false,
    }
}

/// Whether an attestation result is that of a pinner: its first role
/// property names the pinner's role.
pub fn is_pinner_ra_response(item: &ChallengeStoreItem) -> (r: bool)
    ensures
        r == (first_property(item@.properties, PROPERTY_DELEGATOR_RA_TARGET_ROLE@) == Some(
            VALUE_RA_TARGET_PINNER@,
        )),
{
    match find_property(&item.properties, PROPERTY_DELEGATOR_RA_TARGET_ROLE) {
        Some(value) => same_text(value.as_str(), VALUE_RA_TARGET_PINNER),
        None => false,
    }
}

} // verus!
