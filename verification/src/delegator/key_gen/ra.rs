//! The attestation of candidates for a key-generation task.

use vstd::prelude::*;
use crate::action::{reply, Action, ActionView};
use crate::actor_pinner_proto::{ChallengeStoreItem, PeerApproveRaRequestView};
use crate::common::utils::{
    find_property, first_property, lemma_first_property, put_property, send_ra_request,
    spec_properties,
};
use crate::delegator::key_gen::observers::{tag_for_key_gen, PROPERTY_KEY_GEN_FLAG};
use crate::encoding::{base64_text, encodable, encode};
use crate::p2p_proto::{TaskKeyGenerationApplyRequest, TaskKeyGenerationApplyRequestView};
use crate::table::Table;
use crate::text::{same_text, text, views};
use crate::{BINDING_NAME, MY_ACTOR_NAME};

verus! {

/// The property that names the task.
pub const PROPERTY_TASK_ID: &'static str = "task_id";

/// The property that holds the candidate's RSA public key, as base64 text.
pub const PROPERTY_RSA_PUB_KEY: &'static str = "rsa_pub_key";

/// The property that names the role the candidate applied for.
pub const PROPERTY_DELEGATOR_RA_TARGET_ROLE: &'static str = "delegator_ra_target_role";

/// The role of an executor.
pub const VALUE_RA_TARGET_EXECUTOR: &'static str = "executor";

/// The role of an initial pinner.
pub const VALUE_RA_TARGET_INITIAL_PINNER: &'static str = "initial_pinner";

/// The properties of the attestation request for a candidate: the task, the
/// candidate's key, its role and the mark of key generation.
pub open spec fn spec_ra_properties(task_id: Seq<char>, rsa_text: Seq<char>, role: Seq<char>) -> Seq<
    (Seq<char>, Seq<char>),
> {
    seq![
        (PROPERTY_TASK_ID@, task_id),
        (PROPERTY_RSA_PUB_KEY@, rsa_text),
        (PROPERTY_DELEGATOR_RA_TARGET_ROLE@, role),
        (PROPERTY_KEY_GEN_FLAG@, BINDING_NAME@),
    ]
}

/// What the delegator does with an application whose key has the base64
/// text `rsa_text`: it acknowledges it, then asks for the attestation of the
/// applicant.
pub open spec fn spec_attest_candidate(
    task_id: Seq<char>,
    rsa_text: Seq<char>,
    peer_id: Seq<char>,
    reply_to: Seq<char>,
    acknowledgement: Seq<char>,
    role: Seq<char>,
) -> Seq<ActionView> {
    seq![
        ActionView::Reply { reply_to, body: acknowledgement },
        ActionView::RequestPeerApproveRa(
            PeerApproveRaRequestView {
                send_to_actor: MY_ACTOR_NAME@,
                peer_id,
                properties: spec_properties(spec_ra_properties(task_id, rsa_text, role)),
            },
        ),
    ]
}

/// What the delegator does with an application: it acknowledges it, then
/// asks for the attestation of the applicant.
pub open spec fn spec_remote_attestation(
    request: TaskKeyGenerationApplyRequestView,
    peer_id: Seq<char>,
    reply_to: Seq<char>,
    acknowledgement: Seq<char>,
    role: Seq<char>,
) -> Seq<ActionView> {
    spec_attest_candidate(
        request.task_id,
        base64_text(request.rsa_pub_key),
        peer_id,
        reply_to,
        acknowledgement,
        role,
    )
}

/// The four property names differ from each other.
proof fn lemma_property_names_differ()
    ensures
        PROPERTY_TASK_ID@ != PROPERTY_RSA_PUB_KEY@,
        PROPERTY_TASK_ID@ != PROPERTY_DELEGATOR_RA_TARGET_ROLE@,
        PROPERTY_TASK_ID@ != PROPERTY_KEY_GEN_FLAG@,
        PROPERTY_RSA_PUB_KEY@ != PROPERTY_DELEGATOR_RA_TARGET_ROLE@,
        PROPERTY_RSA_PUB_KEY@ != PROPERTY_KEY_GEN_FLAG@,
        PROPERTY_DELEGATOR_RA_TARGET_ROLE@ != PROPERTY_KEY_GEN_FLAG@,
{
    reveal_strlit("task_id");
    reveal_strlit("rsa_pub_key");
    reveal_strlit("delegator_ra_target_role");
    reveal_strlit("task_delegator_key_gen_flag");
    assert(PROPERTY_TASK_ID@.len() == 7);
    assert(PROPERTY_RSA_PUB_KEY@.len() == 11);
    assert(PROPERTY_DELEGATOR_RA_TARGET_ROLE@.len() == 24);
    assert(PROPERTY_KEY_GEN_FLAG@.len() == 27);
}

/// What the delegator puts into an attestation request, it reads back from
/// the attestation result: the task, the key's text, the role and the mark
/// of key generation.
pub proof fn lemma_ra_properties_are_read_back(
    task_id: Seq<char>,
    rsa_text: Seq<char>,
    role: Seq<char>,
)
    ensures
        first_property(
            spec_properties(spec_ra_properties(task_id, rsa_text, role)),
            PROPERTY_TASK_ID@,
        ) == Some(task_id),
        first_property(
            spec_properties(spec_ra_properties(task_id, rsa_text, role)),
            PROPERTY_RSA_PUB_KEY@,
        ) == Some(rsa_text),
        first_property(
            spec_properties(spec_ra_properties(task_id, rsa_text, role)),
            PROPERTY_DELEGATOR_RA_TARGET_ROLE@,
        ) == Some(role),
        first_property(
            spec_properties(spec_ra_properties(task_id, rsa_text, role)),
            PROPERTY_KEY_GEN_FLAG@,
        ) == Some(BINDING_NAME@),
{
    lemma_property_names_differ();
    let properties = spec_properties(spec_ra_properties(task_id, rsa_text, role));
    lemma_first_property(properties, PROPERTY_TASK_ID@, 0);
    lemma_first_property(properties, PROPERTY_RSA_PUB_KEY@, 1);
    lemma_first_property(properties, PROPERTY_DELEGATOR_RA_TARGET_ROLE@, 2);
    lemma_first_property(properties, PROPERTY_KEY_GEN_FLAG@, 3);
}

/// The two roles of a key-generation task have different names.
pub proof fn lemma_roles_differ()
    ensures
        VALUE_RA_TARGET_EXECUTOR@ != VALUE_RA_TARGET_INITIAL_PINNER@,
{
    reveal_strlit("executor");
    reveal_strlit("initial_pinner");
    assert(VALUE_RA_TARGET_EXECUTOR@.len() == 8);
    assert(VALUE_RA_TARGET_INITIAL_PINNER@.len() == 14);
}

/// Acknowledges an application with the text `acknowledgement`, then asks
/// for the attestation of the applicant `peer_id`, with four properties: the
/// task, the applicant's key as the text `rsa_text`, the role it applied for
/// and the mark of key generation.
pub fn attest_candidate(
    task_id: String,
    rsa_text: String,
    peer_id: String,
    reply_to: String,
    acknowledgement: &str,
    role: &str,
) -> (actions: Vec<Action>)
    ensures
        views(actions@) == spec_attest_candidate(
            task_id@,
            rsa_text@,
            peer_id@,
            reply_to@,
            acknowledgement@,
            role@,
        ),
{
    let mut properties: Table<String> = Table::new();
    put_property(&mut properties, PROPERTY_TASK_ID, task_id);
    put_property(&mut properties, PROPERTY_RSA_PUB_KEY, rsa_text);
    put_property(&mut properties, PROPERTY_DELEGATOR_RA_TARGET_ROLE, text(role));
    tag_for_key_gen(&mut properties);
    proof {
        lemma_property_names_differ();
        let expected = spec_ra_properties(task_id@, rsa_text@, role@);
        let none = Seq::<(Seq<char>, Seq<char>)>::empty();
        let one = none.push(expected[0]);
        let two = one.push(expected[1]);
        let three = two.push(expected[2]);
        assert(three.push(expected[3]) =~= expected);
        assert(properties.pairs() == expected);
    }
    let mut actions: Vec<Action> = Vec::new();
    actions.push(reply(reply_to.as_str(), acknowledgement));
    actions.push(send_ra_request(peer_id, properties));
    assert(views(actions@) =~= spec_attest_candidate(
        task_id@,
        rsa_text@,
        peer_id@,
        reply_to@,
        acknowledgement@,
        role@,
    ));
    actions
}

/// Handles the application of a candidate executor: acknowledges it and
/// asks for the applicant's attestation, with the task, the applicant's key
/// as base64 text, the executor's role and the mark of key generation as
/// properties.
pub fn remote_attestation_executor(
    request: TaskKeyGenerationApplyRequest,
    peer_id: String,
    reply_to: String,
) -> (actions: Vec<Action>)
    requires
        encodable(request.rsa_pub_key@.len()),
    ensures
        views(actions@) == spec_remote_attestation(
            request@,
            peer_id@,
            reply_to@,
            "key generation to ra executor sent"@,
            VALUE_RA_TARGET_EXECUTOR@,
        ),
{
    let rsa_text = encode(&request.rsa_pub_key);
    attest_candidate(request.task_id, rsa_text, peer_id, reply_to, "key generation to ra executor sent", VALUE_RA_TARGET_EXECUTOR)
}

/// Handles the application of a candidate initial pinner: as
/// [`remote_attestation_executor`], with the initial pinner's role.
pub fn remote_attestation_initial_pinner(
    request: TaskKeyGenerationApplyRequest,
    peer_id: String,
    reply_to: String,
) -> (actions: Vec<Action>)
    requires
        encodable(request.rsa_pub_key@.len()),
    ensures
        views(actions@) == spec_remote_attestation(
            request@,
            peer_id@,
            reply_to@,
            "key generation to ra initial pinner sent"@,
            VALUE_RA_TARGET_INITIAL_PINNER@,
        ),
{
    let rsa_text = encode(&request.rsa_pub_key);
    attest_candidate(request.task_id, rsa_text, peer_id, reply_to, "key generation to ra initial pinner sent", VALUE_RA_TARGET_INITIAL_PINNER)
}

/// Whether an attestation result is that of a candidate executor: its first
/// role property names the executor's role.
pub fn is_executor_ra_response(item: &ChallengeStoreItem) -> (r: bool)
    ensures
        r == (first_property(item@.properties, PROPERTY_DELEGATOR_RA_TARGET_ROLE@) == Some(
            VALUE_RA_TARGET_EXECUTOR@,
        )),
{
    match find_property(&item.properties, PROPERTY_DELEGATOR_RA_TARGET_ROLE) {
        Some(value) => same_text(value.as_str(), VALUE_RA_TARGET_EXECUTOR),
        None => false,
    }
}

/// Whether an attestation result is that of a candidate initial pinner: its
/// first role property names the initial pinner's role.
pub fn is_initial_pinner_ra_response(item: &ChallengeStoreItem) -> (r: bool)
    ensures
        r == (first_property(item@.properties, PROPERTY_DELEGATOR_RA_TARGET_ROLE@) == Some(
            VALUE_RA_TARGET_INITIAL_PINNER@,
        )),
{
    match find_property(&item.properties, PROPERTY_DELEGATOR_RA_TARGET_ROLE) {
        Some(value) => same_text(value.as_str(), VALUE_RA_TARGET_INITIAL_PINNER),
        None => false,
    }
}

} // verus!
