//! The executor's part in signing.
//!
//! The executor applies with an RSA key minted for the task. Once it has
//! the wrapped slices it unwraps them, recovers the second private key from
//! them, signs the data with it and combines the first and the second
//! signature into the witness. Unwrapping, recovering, signing and combining
//! are the embedding program's work; what goes into them and what is
//! answered is decided here.

use vstd::prelude::*;
use crate::action::{agrees, reply, send_message, Action, ActionView, Step, StepView};
use crate::common::execution_info::{ExecutionInfo, ExecutionInfoView};
use crate::common::key_generation::RSA_KEY_EXPIRES_S;
use crate::common::task_info::{spec_validate, TaskInfoView};
use crate::error::Error;
use crate::executor::store_item::{ExecutorStoreItem, ExecutorStoreItemView, StoreItemState};
use crate::p2p_proto::{
    GeneralMsgView, Msg, MsgView, SignCandidateRequest, SignCandidateRequestView,
    TaskCommitSignResultRequest, TaskCommitSignResultRequestView, TaskSignWithKeySlicesRequest,
    TaskSignWithKeySlicesRequestView, TaskSignWithKeySlicesResponse,
    };
use crate::text::{copy_bytes, join3, option_view, text, views};

verus! {

/// First part of the storage key of the RSA private key that a candidate
/// executor mints for a signing task.
pub const PREFIX_SIGN_RSA_KEY: &'static str = "sign_rsa_key";

/// The storage key of a task's signing RSA private key.
pub open spec fn spec_rsa_encrypt_key(task_id: Seq<char>) -> Seq<char> {
    PREFIX_SIGN_RSA_KEY@ + "_"@ + task_id
}

/// The key under which the RSA private key of a signing task is stashed.
pub fn get_rsa_encrypt_key(task_id: &str) -> (key: String)
    ensures
        key@ == spec_rsa_encrypt_key(task_id@),
{
    join3(PREFIX_SIGN_RSA_KEY, "_", task_id)
}

/// The actions of [`send_sign_request`].
pub open spec fn spec_sign_request(peer_id: Seq<char>, task_id: Seq<char>, rsa_pub_key: Seq<u8>) -> Seq<
    ActionView,
> {
    seq![
        ActionView::StashRsaPrivateKey { key: spec_rsa_encrypt_key(task_id), expires_s: 6000 },
        ActionView::SendMessage {
            peer_id,
            task_id,
            msg: GeneralMsgView {
                msg: Some(
                    MsgView::TaskSignWithKeySlicesRequest(
                        TaskSignWithKeySlicesRequestView { task_id, rsa_pub_key, cap_desc: None },
                    ),
                ),
            },
        },
    ]
}

/// Applies as executor of a signing task. `rsa_pub_key` is the public half
/// of an RSA key pair minted for the task; the private half is stashed
/// under the task's key, then the application goes to the delegator
/// `peer_id`.
pub fn send_sign_request(peer_id: &str, task_id: &str, rsa_pub_key: Vec<u8>) -> (actions: Vec<
    Action,
>)
    ensures
        views(actions@) == spec_sign_request(peer_id@, task_id@, rsa_pub_key@),
{
    let mut actions: Vec<Action> = Vec::new();
    actions.push(
        Action::StashRsaPrivateKey {
            key: get_rsa_encrypt_key(task_id),
            expires_s: RSA_KEY_EXPIRES_S,
        },
    );
    actions.push(
        send_message(
            peer_id,
            task_id,
            Msg::TaskSignWithKeySlicesRequest(
                TaskSignWithKeySlicesRequest { task_id: text(task_id), rsa_pub_key, cap_desc: None },
            ),
        ),
    );
    assert(views(actions@) =~= spec_sign_request(peer_id@, task_id@, rsa_pub_key@));
    actions
}

/// What a node keeps and does when it accepts the invitation to be the
/// executor of a signing task. Parameters that are not those of a task are
/// refused.
pub open spec fn spec_process_sign_with_key_slices(
    peer_id: Seq<char>,
    req: SignCandidateRequestView,
    exec_info: ExecutionInfoView,
    rsa_pub_key: Seq<u8>,
) -> Result<StepView<ExecutorStoreItemView>, Error> {
    match spec_validate(exec_info.n, exec_info.k) {
        Some(e) => Err(e),
        None => Ok(
            StepView {
                item: Some(
                    ExecutorStoreItemView {
                        task_info: TaskInfoView { task_id: req.task_id, exec_info },
                        state: StoreItemState::Requested,
                    },
                ),
                actions: spec_sign_request(peer_id, req.task_id, rsa_pub_key),
            },
        ),
    }
}

/// Accepts the invitation to be the executor of a signing task. `exec_info`
/// are the parameters of the account's key as the ledger gave them, and
/// `rsa_pub_key` is the public half of an RSA key pair minted for the task.
/// Parameters outside `1 <= k < n` are refused. Otherwise the application
/// goes to the delegator `peer_id`, and the item is kept in state
/// [`StoreItemState::Requested`].
pub fn process_sign_with_key_slices_handler(
    peer_id: &str,
    req: SignCandidateRequest,
    exec_info: ExecutionInfo,
    rsa_pub_key: Vec<u8>,
) -> (r: Result<Step<ExecutorStoreItem>, Error>)
    ensures
        agrees(r, spec_process_sign_with_key_slices(peer_id@, req@, exec_info@, rsa_pub_key@)),
{
    let mut store_item = match ExecutorStoreItem::from_sign_candidate_request(req, exec_info) {
        Ok(item) => item,
        Err(e) => {
            return Err(e);
        },
    };
    if !willing_to_run(&store_item) {
        return Ok(Step::idle());
    }
    match check_capabilities(&store_item) {
        Ok(_) => {},
        Err(_) => {
            return Ok(Step::idle());
        },
    }
    let actions = send_sign_request(peer_id, store_item.task_info.task_id.as_str(), rsa_pub_key);
    store_item.state = StoreItemState::Requested;
    Ok(Step { item: Some(store_item), actions })
}

/// Whether this node is willing to run the task. It always is.
pub fn willing_to_run(_item: &ExecutorStoreItem) -> (r: bool)
    ensures
        r,
{
    true
}

/// Whether this node is able to run the task. It always is.
pub fn check_capabilities(_item: &ExecutorStoreItem) -> (r: Result<(), Error>)
    ensures
        r is Ok,
{
    Ok(())
}

/// What the executor keeps when the slices arrive.
pub open spec fn spec_task_sign_with_key_slices_response(stored: Option<ExecutorStoreItemView>) -> Result<
    StepView<ExecutorStoreItemView>,
    Error,
> {
    match stored {
        None => Err(Error::TaskNotFound),
        Some(item) => Ok(
            StepView {
                item: Some(ExecutorStoreItemView { state: StoreItemState::Responded, ..item }),
                actions: Seq::empty(),
            },
        ),
    }
}

/// Receives the wrapped slices, the data to sign and the first signature.
/// Without an item the task is unknown. Otherwise the item's state becomes
/// [`StoreItemState::Responded`]; [`recovery_plan`] lays out how the second
/// private key is recovered and what it signs, and [`witness_request`] what
/// the witness is combined from. The witness goes to [`complete_sign`].
pub fn task_sign_with_key_slices_response_handler(
    stored: Option<ExecutorStoreItem>,
    _request: &TaskSignWithKeySlicesResponse,
    _peer_id: &str,
    _reply_to: &str,
) -> (r: Result<Step<ExecutorStoreItem>, Error>)
    ensures
        agrees(r, spec_task_sign_with_key_slices_response(option_view(stored))),
{
    match stored {
        Some(mut item) => {
            item.state = StoreItemState::Responded;
            let step = Step { item: Some(item), actions: Vec::new() };
            assert(step@.actions =~= Seq::empty());
            Ok(step)
        },
        None => Err(Error::TaskNotFound),
    }
}

/// What the second private key is recovered from, and what it then signs.
#[derive(Debug, Clone, PartialEq)]
pub struct RecoveryPlan {
    /// The storage key of the RSA private key that opens the slices.
    pub rsa_key: String,
    /// The wrapped slices, in the order of the delegator's message.
    pub encrypted_key_slices: Vec<Vec<u8>>,
    /// The number of slices that recover the key.
    pub k: u8,
    /// The kind of key that signs.
    pub key_type: String,
    /// The data to sign.
    pub data: Vec<u8>,
}

/// What a [`RecoveryPlan`] holds, as plain values.
pub struct RecoveryPlanView {
    pub rsa_key: Seq<char>,
    pub encrypted_key_slices: Seq<Seq<u8>>,
    pub k: u8,
    pub key_type: Seq<char>,
    pub data: Seq<u8>,
}

impl View for RecoveryPlan {
    type V = RecoveryPlanView;

    open spec fn view(&self) -> RecoveryPlanView {
        RecoveryPlanView {
            rsa_key: self.rsa_key@,
            encrypted_key_slices: views(self.encrypted_key_slices@),
            k: self.k,
            key_type: self.key_type@,
            data: self.data@,
        }
    }
}

/// Lays out the recovery and the signing: every slice of the delegator's
/// message is opened with the RSA private key stashed under the task's
/// [`get_rsa_encrypt_key`], the second private key is recovered with the
/// item's threshold `k`, and it signs the message's data as a key of the
/// message's type.
pub fn recovery_plan(item: &ExecutorStoreItem, request: &TaskSignWithKeySlicesResponse) -> (plan:
    RecoveryPlan)
    ensures
        plan@ == (RecoveryPlanView {
            rsa_key: spec_rsa_encrypt_key(request@.task_id),
            encrypted_key_slices: request@.encrypted_key_slices,
            k: item@.task_info.exec_info.k,
            key_type: request@.key_type,
            data: request@.adhoc_data,
        }),
{
    let mut encrypted_key_slices: Vec<Vec<u8>> = Vec::new();
    let mut i: usize = 0;
    while i < request.encrypted_key_slices.len()
        invariant
            i <= request.encrypted_key_slices@.len(),
            encrypted_key_slices@.len() == i,
            forall|j: int|
                0 <= j < i ==> encrypted_key_slices@[j]@ == request.encrypted_key_slices@[j]@,
        decreases request.encrypted_key_slices@.len() - i,
    {
        encrypted_key_slices.push(copy_bytes(&request.encrypted_key_slices[i]));
        i = i + 1;
    }
    assert(views(encrypted_key_slices@) =~= request@.encrypted_key_slices);
    RecoveryPlan {
        rsa_key: get_rsa_encrypt_key(request.task_id.as_str()),
        encrypted_key_slices,
        k: item.task_info.exec_info.k,
        key_type: request.key_type.clone(),
        data: copy_bytes(&request.adhoc_data),
    }
}

/// What a witness is combined from.
#[derive(Debug, Clone, PartialEq)]
pub struct WitnessRequest {
    /// The number of signatures that the account asks for.
    pub k: u8,
    /// The public keys of the account.
    pub public_keys: Vec<Vec<u8>>,
    /// The signatures: the first, then the second.
    pub signatures: Vec<Vec<u8>>,
    /// The kind of the account.
    pub key_type: String,
}

/// What a [`WitnessRequest`] holds, as plain values.
pub struct WitnessRequestView {
    pub k: u8,
    pub public_keys: Seq<Seq<u8>>,
    pub signatures: Seq<Seq<u8>>,
    pub key_type: Seq<char>,
}

impl View for WitnessRequest {
    type V = WitnessRequestView;

    open spec fn view(&self) -> WitnessRequestView {
        WitnessRequestView {
            k: self.k,
            public_keys: views(self.public_keys@),
            signatures: views(self.signatures@),
            key_type: self.key_type@,
        }
    }
}

/// Lays out what the witness of a signing task is combined from: the
/// item's threshold, the account's public keys, the first signature as the
/// delegator sent it followed by the second signature, and the key type of
/// the delegator's message.
pub fn witness_request(
    item: &ExecutorStoreItem,
    request: &TaskSignWithKeySlicesResponse,
    public_keys: Vec<Vec<u8>>,
    p2_signature: Vec<u8>,
) -> (r: WitnessRequest)
    ensures
        r@ == (WitnessRequestView {
            k: item@.task_info.exec_info.k,
            public_keys: views(public_keys@),
            signatures: seq![request@.p1_signature, p2_signature@],
            key_type: request@.key_type,
        }),
{
    let mut signatures: Vec<Vec<u8>> = Vec::new();
    signatures.push(copy_bytes(&request.p1_signature));
    signatures.push(p2_signature);
    assert(views(signatures@) =~= seq![request@.p1_signature, p2_signature@]);
    WitnessRequest {
        k: item.task_info.exec_info.k,
        public_keys,
        signatures,
        key_type: request.key_type.clone(),
    }
}

/// What the executor keeps and does when the witness is combined.
pub open spec fn spec_complete_sign(
    item: ExecutorStoreItemView,
    witness: Seq<u8>,
    peer_id: Seq<char>,
    reply_to: Seq<char>,
) -> StepView<ExecutorStoreItemView> {
    StepView {
        item: Some(ExecutorStoreItemView { state: StoreItemState::Executed, ..item }),
        actions: seq![
            ActionView::SendMessage {
                peer_id,
                task_id: item.task_info.task_id,
                msg: GeneralMsgView {
                    msg: Some(
                        MsgView::TaskCommitSignResultRequest(
                            TaskCommitSignResultRequestView {
                                task_id: item.task_info.task_id,
                                witness,
                            },
                        ),
                    ),
                },
            },
            ActionView::Reply { reply_to, body: "signed successfully"@ },
        ],
    }
}

/// Hands the witness to the delegator `peer_id`, acknowledges the
/// delegator's message, and sets the item's state to
/// [`StoreItemState::Executed`].
pub fn complete_sign(item: ExecutorStoreItem, witness: Vec<u8>, peer_id: &str, reply_to: &str) -> (step:
    Step<ExecutorStoreItem>)
    ensures
        step@ == spec_complete_sign(item@, witness@, peer_id@, reply_to@),
{
    let ghost before = item@;
    let mut item = item;
    let mut actions: Vec<Action> = Vec::new();
    actions.push(
        send_message(
            peer_id,
            item.task_info.task_id.as_str(),
            Msg::TaskCommitSignResultRequest(
                TaskCommitSignResultRequest { task_id: item.task_info.task_id.clone(), witness },
            ),
        ),
    );
    actions.push(reply(reply_to, "signed successfully"));
    item.state = StoreItemState::Executed;
    let step = Step { item: Some(item), actions };
    assert(step@.actions =~= spec_complete_sign(before, witness@, peer_id@, reply_to@).actions);
    step
}

} // verus!
