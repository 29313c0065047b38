//! The invitation of candidates and their application.

use vstd::prelude::*;
use vstd::string::*;
use vstd::utf8::encode_utf8;
use crate::action::{Action, ActionView};
use crate::common::task_info::TaskInfo;
use crate::error::Error;
use crate::p2p_proto::{
    GeneralMsg, GeneralMsgView, KeyGenerationCandidateRequest, KeyGenerationCandidateRequestView,
    Msg, MsgView, TaskKeyGenerationApplyRequest, TaskKeyGenerationApplyRequestView,
};
use crate::text::{copy_bytes, join3, same_text, text, views};

verus! {

/// First part of the storage key of the RSA private key that a candidate
/// mints for a key-generation task.
pub const PREFIX_KEY_GEN_RSA_KEY: &'static str = "key_gen_rsa_key";

/// For how many seconds a minted RSA private key is kept.
pub const RSA_KEY_EXPIRES_S: i32 = 6000;

/// The four bytes of `x`, least significant first.
pub open spec fn u32_le(x: u32) -> Seq<u8> {
    seq![
        (x % 256) as u8,
        (x / 256 % 256) as u8,
        (x / 65536 % 256) as u8,
        (x / 16777216) as u8,
    ]
}

/// The bytes that the delegator signs when it invites a candidate: the UTF-8
/// bytes of the task id, `n` and `k` as four little-endian bytes each, the
/// UTF-8 bytes of the key type, the delegator's ephemeral id, and one byte
/// that is 1 for an executor invitation and 0 otherwise.
pub open spec fn candidate_signature_bytes(
    task_id: Seq<char>,
    n: u32,
    k: u32,
    key_type: Seq<char>,
    delegator_ephemeral_id: Seq<u8>,
    executor: bool,
) -> Seq<u8> {
    encode_utf8(task_id) + u32_le(n) + u32_le(k) + encode_utf8(key_type) + delegator_ephemeral_id
        + seq![if executor { 1u8 } else { 0u8 }]
}

/// The storage key of a task's key-generation RSA private key.
pub open spec fn spec_rsa_encrypt_key(task_id: Seq<char>) -> Seq<char> {
    PREFIX_KEY_GEN_RSA_KEY@ + "_"@ + task_id
}

fn push_u32_le(buf: &mut Vec<u8>, x: u32)
    ensures
        final(buf)@ == old(buf)@ + u32_le(x),
{
    buf.push((x % 256) as u8);
    buf.push((x / 256 % 256) as u8);
    buf.push((x / 65536 % 256) as u8);
    buf.push((x / 16777216) as u8);
    assert(buf@ =~= old(buf)@ + u32_le(x));
}

/// Lays out the bytes that a candidate request's signature covers.
pub fn to_candidate_signature_bytes(
    task_id: &str,
    n: u32,
    k: u32,
    key_type: &str,
    delegator_ephemeral_id: &[u8],
    executor: bool,
) -> (buf: Vec<u8>)
    ensures
        buf@ == candidate_signature_bytes(
            task_id@,
            n,
            k,
            key_type@,
            delegator_ephemeral_id@,
            executor,
        ),
{
    let mut buf = task_id.as_bytes_vec();
    push_u32_le(&mut buf, n);
    push_u32_le(&mut buf, k);
    buf.extend_from_slice(key_type.as_bytes());
    buf.extend_from_slice(delegator_ephemeral_id);
    buf.push(if executor { 1u8 } else { 0u8 });
    assert(buf@ =~= candidate_signature_bytes(
        task_id@,
        n,
        k,
        key_type@,
        delegator_ephemeral_id@,
        executor,
    ));
    buf
}

/// The bytes that the delegator of `task_info` signs to invite a candidate.
pub fn candidate_signature_input(
    task_info: &TaskInfo,
    delegator_ephemeral_id: &[u8],
    executor: bool,
) -> (buf: Vec<u8>)
    ensures
        buf@ == candidate_signature_bytes(
            task_info@.task_id,
            task_info@.exec_info.n as u32,
            task_info@.exec_info.k as u32,
            task_info@.exec_info.task_type,
            delegator_ephemeral_id@,
            executor,
        ),
{
    to_candidate_signature_bytes(
        task_info.task_id.as_str(),
        task_info.exec_info.n as u32,
        task_info.exec_info.k as u32,
        task_info.exec_info.task_type.as_str(),
        delegator_ephemeral_id,
        executor,
    )
}

/// The bytes that the signature of a received candidate request must cover.
pub fn candidate_request_signature_input(req: &KeyGenerationCandidateRequest) -> (buf: Vec<u8>)
    ensures
        buf@ == candidate_signature_bytes(
            req@.task_id,
            req@.n,
            req@.k,
            req@.key_type,
            req@.delegator_ephemeral_id,
            req@.executor,
        ),
{
    to_candidate_signature_bytes(
        req.task_id.as_str(),
        req.n,
        req.k,
        req.key_type.as_str(),
        req.delegator_ephemeral_id.as_slice(),
        req.executor,
    )
}

/// The invitation that [`send_key_candidate_request`] sends.
pub open spec fn spec_key_candidate_request(
    peer_id: Seq<char>,
    task_id: Seq<char>,
    n: u8,
    k: u8,
    key_type: Seq<char>,
    executor: bool,
    delegator_ephemeral_id: Seq<u8>,
    signature: Seq<u8>,
) -> ActionView {
    ActionView::SendMessage {
        peer_id,
        task_id,
        msg: GeneralMsgView {
            msg: Some(
                MsgView::KeyGenerationCandidateRequest(
                    KeyGenerationCandidateRequestView {
                        task_id,
                        n: n as u32,
                        k: k as u32,
                        key_type,
                        delegator_ephemeral_id,
                        executor,
                        signature,
                    },
                ),
            ),
        },
    }
}

/// Invites `peer_id` to apply for a role in the task: as executor if
/// `executor`, as initial pinner otherwise. `signature` is the delegator's
/// signature over [`candidate_signature_input`].
pub fn send_key_candidate_request(
    peer_id: &str,
    task_info: TaskInfo,
    executor: bool,
    delegator_ephemeral_id: Vec<u8>,
    signature: Vec<u8>,
) -> (action: Action)
    ensures
        action@ == spec_key_candidate_request(
            peer_id@,
            task_info@.task_id,
            task_info@.exec_info.n,
            task_info@.exec_info.k,
            task_info@.exec_info.task_type,
            executor,
            delegator_ephemeral_id@,
            signature@,
        ),
{
    let task_id = task_info.task_id.clone();
    let req = KeyGenerationCandidateRequest {
        task_id,
        n: task_info.exec_info.n as u32,
        k: task_info.exec_info.k as u32,
        key_type: task_info.exec_info.task_type,
        delegator_ephemeral_id,
        executor,
        signature,
    };
    Action::SendMessage {
        peer_id: text(peer_id),
        task_id: task_info.task_id,
        msg: GeneralMsg { msg: Some(Msg::KeyGenerationCandidateRequest(req)) },
    }
}

/// First check of a received candidate request. `signature_valid` says
/// whether the request's signature verifies over
/// [`candidate_request_signature_input`] under the delegator's ephemeral id.
/// A request that fails is refused; one that passes leads to the lookup of
/// the delegator's profile, whose answer goes to [`check_delegator_profile`].
pub fn verify_to_candidate_signature(
    req: &KeyGenerationCandidateRequest,
    signature_valid: bool,
) -> (r: Result<Action, Error>)
    ensures
        match r {
            Ok(action) => signature_valid && action@ == (ActionView::LookupNodeProfile {
                ephemeral_id: req@.delegator_ephemeral_id,
            }),
            Err(e) => !signature_valid && e == Error::InvalidSignature,
        },
{
    if !signature_valid {
        return Err(Error::InvalidSignature);
    }
    Ok(Action::LookupNodeProfile { ephemeral_id: copy_bytes(&req.delegator_ephemeral_id) })
}

/// Second check of a received candidate request: the peer that sent it must
/// be the peer that the delegator's ephemeral id resolves to.
pub fn check_delegator_profile(peer_id: &str, profile_peer_id: &str) -> (r: Result<(), Error>)
    ensures
        r == (if peer_id@ == profile_peer_id@ {
            Ok::<(), Error>(())
        } else {
            Err::<(), Error>(Error::DelegatorMismatch)
        }),
{
    if !same_text(peer_id, profile_peer_id) {
        return Err(Error::DelegatorMismatch);
    }
    Ok(())
}

/// The actions of [`send_key_generation_request`].
pub open spec fn spec_key_generation_request(
    peer_id: Seq<char>,
    task_id: Seq<char>,
    apply_executor: bool,
    rsa_pub_key: Seq<u8>,
) -> Seq<ActionView> {
    seq![
        ActionView::StashRsaPrivateKey { key: spec_rsa_encrypt_key(task_id), expires_s: 6000 },
        ActionView::SendMessage {
            peer_id,
            task_id,
            msg: GeneralMsgView {
                msg: Some(
                    MsgView::TaskKeyGenerationApplyRequest(
                        TaskKeyGenerationApplyRequestView {
                            task_id,
                            rsa_pub_key,
                            cap_desc: None,
                            apply_executor,
                        },
                    ),
                ),
            },
        },
    ]
}

/// Applies for a role in a task. `rsa_pub_key` is the public half of an RSA
/// key pair minted for the task; the private half is stashed under the
/// task's key, then the application goes to the delegator `peer_id`.
pub fn send_key_generation_request(
    peer_id: &str,
    task_info: &TaskInfo,
    apply_executor: bool,
    rsa_pub_key: Vec<u8>,
) -> (actions: Vec<Action>)
    ensures
        views(actions@) == spec_key_generation_request(
            peer_id@,
            task_info@.task_id,
            apply_executor,
            rsa_pub_key@,
        ),
{
    let req = TaskKeyGenerationApplyRequest {
        task_id: task_info.task_id.clone(),
        rsa_pub_key,
        cap_desc: None,
        apply_executor,
    };
    let mut actions: Vec<Action> = Vec::new();
    actions.push(
        Action::StashRsaPrivateKey {
            key: get_rsa_encrypt_key(task_info.task_id.as_str()),
            expires_s: RSA_KEY_EXPIRES_S,
        },
    );
    actions.push(
        Action::SendMessage {
            peer_id: text(peer_id),
            task_id: task_info.task_id.clone(),
            msg: GeneralMsg { msg: Some(Msg::TaskKeyGenerationApplyRequest(req)) },
        },
    );
    assert(views(actions@) =~= spec_key_generation_request(
        peer_id@,
        task_info@.task_id,
        apply_executor,
        rsa_pub_key@,
    ));
    actions
}

/// Takes the RSA private key that was stashed for a task out of what the
/// store returned. A stash lives for [`RSA_KEY_EXPIRES_S`] seconds; once it is
/// gone, what was wrapped for the key cannot be recovered, and the slice or
/// response that arrived for the task fails.
pub fn decrypt_key_slice(stashed_private_key: Option<String>) -> (r: Result<String, Error>)
    ensures
        match stashed_private_key {
            Some(key) => r == Ok::<String, Error>(key),
            None => r == Err::<String, Error>(Error::MissingRsaPrivateKey),
        },
{
    match stashed_private_key {
        Some(key) => Ok(key),
        None => Err(Error::MissingRsaPrivateKey),
    }
}

/// The key under which the RSA private key of a key-generation task is
/// stashed.
pub fn get_rsa_encrypt_key(task_id: &str) -> (key: String)
    ensures
        key@ == spec_rsa_encrypt_key(task_id@),
{
    join3(PREFIX_KEY_GEN_RSA_KEY, "_", task_id)
}

} // verus!
