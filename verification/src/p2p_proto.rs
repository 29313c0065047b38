//! Messages that the nodes of a task exchange with each other.

use vstd::prelude::*;
use crate::text::{option_view, views};

verus! {

/// Invites a peer to apply for a role in a key-generation task. The
/// signature is the delegator's, over the bytes that
/// `to_candidate_signature_bytes` lays out.
#[derive(Debug, Clone, PartialEq)]
pub struct KeyGenerationCandidateRequest {
    pub task_id: String,
    pub n: u32,
    pub k: u32,
    pub key_type: String,
    pub delegator_ephemeral_id: Vec<u8>,
    pub executor: bool,
    pub signature: Vec<u8>,
}

/// What a [`KeyGenerationCandidateRequest`] holds, as plain values.
pub struct KeyGenerationCandidateRequestView {
    pub task_id: Seq<char>,
    pub n: u32,
    pub k: u32,
    pub key_type: Seq<char>,
    pub delegator_ephemeral_id: Seq<u8>,
    pub executor: bool,
    pub signature: Seq<u8>,
}

impl View for KeyGenerationCandidateRequest {
    type V = KeyGenerationCandidateRequestView;

    open spec fn view(&self) -> KeyGenerationCandidateRequestView {
        KeyGenerationCandidateRequestView {
            task_id: self.task_id@,
            n: self.n,
            k: self.k,
            key_type: self.key_type@,
            delegator_ephemeral_id: self.delegator_ephemeral_id@,
            executor: self.executor,
            signature: self.signature@,
        }
    }
}
/// A candidate's application, carrying the RSA public key that it minted for
/// the task.
#[derive(Debug, Clone, PartialEq)]
pub struct TaskKeyGenerationApplyRequest {
    pub task_id: String,
    pub rsa_pub_key: Vec<u8>,
    pub cap_desc: Option<String>,
    pub apply_executor: bool,
}

/// What a [`TaskKeyGenerationApplyRequest`] holds, as plain values.
pub struct TaskKeyGenerationApplyRequestView {
    pub task_id: Seq<char>,
    pub rsa_pub_key: Seq<u8>,
    pub cap_desc: Option<Seq<char>>,
    pub apply_executor: bool,
}

impl View for TaskKeyGenerationApplyRequest {
    type V = TaskKeyGenerationApplyRequestView;

    open spec fn view(&self) -> TaskKeyGenerationApplyRequestView {
        TaskKeyGenerationApplyRequestView {
            task_id: self.task_id@,
            rsa_pub_key: self.rsa_pub_key@,
            cap_desc: option_view(self.cap_desc),
            apply_executor: self.apply_executor,
        }
    }
}
/// An elected initial pinner and its transport key, as told to the executor.
#[derive(Debug, Clone, PartialEq)]
pub struct TaskExecutionInitialPinnerData {
    pub peer_id: String,
    pub rsa_pub_key: Vec<u8>,
}

/// What a [`TaskExecutionInitialPinnerData`] holds, as plain values.
pub struct TaskExecutionInitialPinnerDataView {
    pub peer_id: Seq<char>,
    pub rsa_pub_key: Seq<u8>,
}

impl View for TaskExecutionInitialPinnerData {
    type V = TaskExecutionInitialPinnerDataView;

    open spec fn view(&self) -> TaskExecutionInitialPinnerDataView {
        TaskExecutionInitialPinnerDataView {
            peer_id: self.peer_id@,
            rsa_pub_key: self.rsa_pub_key@,
        }
    }
}
/// Asks the elected executor to generate the second key and split it.
#[derive(Debug, Clone, PartialEq)]
pub struct TaskExecutionRequest {
    pub task_id: String,
    pub initial_pinners: Vec<TaskExecutionInitialPinnerData>,
    pub minimum_recovery_number: u32,
    pub key_type: String,
    pub p1_public_key: Vec<u8>,
}

/// What a [`TaskExecutionRequest`] holds, as plain values.
pub struct TaskExecutionRequestView {
    pub task_id: Seq<char>,
    pub initial_pinners: Seq<TaskExecutionInitialPinnerDataView>,
    pub minimum_recovery_number: u32,
    pub key_type: Seq<char>,
    pub p1_public_key: Seq<u8>,
}

impl View for TaskExecutionRequest {
    type V = TaskExecutionRequestView;

    open spec fn view(&self) -> TaskExecutionRequestView {
        TaskExecutionRequestView {
            task_id: self.task_id@,
            initial_pinners: views(self.initial_pinners@),
            minimum_recovery_number: self.minimum_recovery_number,
            key_type: self.key_type@,
            p1_public_key: self.p1_public_key@,
        }
    }
}
/// An initial pinner and the key slice wrapped for it.
#[derive(Debug, Clone, PartialEq)]
pub struct TaskResultInitialPinnerData {
    pub peer_id: String,
    pub encrypted_key_slice: Vec<u8>,
}

/// What a [`TaskResultInitialPinnerData`] holds, as plain values.
pub struct TaskResultInitialPinnerDataView {
    pub peer_id: Seq<char>,
    pub encrypted_key_slice: Seq<u8>,
}

impl View for TaskResultInitialPinnerData {
    type V = TaskResultInitialPinnerDataView;

    open spec fn view(&self) -> TaskResultInitialPinnerDataView {
        TaskResultInitialPinnerDataView {
            peer_id: self.peer_id@,
            encrypted_key_slice: self.encrypted_key_slice@,
        }
    }
}
/// The executor's result: one wrapped slice per initial pinner, the second
/// public key and the account derived from both public keys.
#[derive(Debug, Clone, PartialEq)]
pub struct TaskExecutionResponse {
    pub task_id: String,
    pub initial_pinners: Vec<TaskResultInitialPinnerData>,
    pub p2_public_key: Vec<u8>,
    pub multi_sig_account: Vec<u8>,
}

/// What a [`TaskExecutionResponse`] holds, as plain values.
pub struct TaskExecutionResponseView {
    pub task_id: Seq<char>,
    pub initial_pinners: Seq<TaskResultInitialPinnerDataView>,
    pub p2_public_key: Seq<u8>,
    pub multi_sig_account: Seq<u8>,
}

impl View for TaskExecutionResponse {
    type V = TaskExecutionResponseView;

    open spec fn view(&self) -> TaskExecutionResponseView {
        TaskExecutionResponseView {
            task_id: self.task_id@,
            initial_pinners: views(self.initial_pinners@),
            p2_public_key: self.p2_public_key@,
            multi_sig_account: self.multi_sig_account@,
        }
    }
}
/// Hands an initial pinner its wrapped key slice.
#[derive(Debug, Clone, PartialEq)]
pub struct TaskPinnerKeySliceRequest {
    pub task_id: String,
    pub public_key: Vec<u8>,
    pub encrypted_key_slice: Vec<u8>,
    pub multi_sig_account: Vec<u8>,
}

/// What a [`TaskPinnerKeySliceRequest`] holds, as plain values.
pub struct TaskPinnerKeySliceRequestView {
    pub task_id: Seq<char>,
    pub public_key: Seq<u8>,
    pub encrypted_key_slice: Seq<u8>,
    pub multi_sig_account: Seq<u8>,
}

impl View for TaskPinnerKeySliceRequest {
    type V = TaskPinnerKeySliceRequestView;

    open spec fn view(&self) -> TaskPinnerKeySliceRequestView {
        TaskPinnerKeySliceRequestView {
            task_id: self.task_id@,
            public_key: self.public_key@,
            encrypted_key_slice: self.encrypted_key_slice@,
            multi_sig_account: self.multi_sig_account@,
        }
    }
}
/// An initial pinner's receipt for a stored slice.
#[derive(Debug, Clone, PartialEq)]
pub struct TaskPinnerKeySliceResponse {
    pub task_id: String,
    pub deployment_id: String,
}

/// What a [`TaskPinnerKeySliceResponse`] holds, as plain values.
pub struct TaskPinnerKeySliceResponseView {
    pub task_id: Seq<char>,
    pub deployment_id: Seq<char>,
}

impl View for TaskPinnerKeySliceResponse {
    type V = TaskPinnerKeySliceResponseView;

    open spec fn view(&self) -> TaskPinnerKeySliceResponseView {
        TaskPinnerKeySliceResponseView {
            task_id: self.task_id@,
            deployment_id: self.deployment_id@,
        }
    }
}
/// Invites a peer to apply as executor of a signing task.
#[derive(Debug, Clone, PartialEq)]
pub struct SignCandidateRequest {
    pub task_id: String,
    pub multi_sig_account: Vec<u8>,
}

/// What a [`SignCandidateRequest`] holds, as plain values.
pub struct SignCandidateRequestView {
    pub task_id: Seq<char>,
    pub multi_sig_account: Seq<u8>,
}

impl View for SignCandidateRequest {
    type V = SignCandidateRequestView;

    open spec fn view(&self) -> SignCandidateRequestView {
        SignCandidateRequestView {
            task_id: self.task_id@,
            multi_sig_account: self.multi_sig_account@,
        }
    }
}
/// A candidate executor's application to a signing task.
#[derive(Debug, Clone, PartialEq)]
pub struct TaskSignWithKeySlicesRequest {
    pub task_id: String,
    pub rsa_pub_key: Vec<u8>,
    pub cap_desc: Option<String>,
}

/// What a [`TaskSignWithKeySlicesRequest`] holds, as plain values.
pub struct TaskSignWithKeySlicesRequestView {
    pub task_id: Seq<char>,
    pub rsa_pub_key: Seq<u8>,
    pub cap_desc: Option<Seq<char>>,
}

impl View for TaskSignWithKeySlicesRequest {
    type V = TaskSignWithKeySlicesRequestView;

    open spec fn view(&self) -> TaskSignWithKeySlicesRequestView {
        TaskSignWithKeySlicesRequestView {
            task_id: self.task_id@,
            rsa_pub_key: self.rsa_pub_key@,
            cap_desc: option_view(self.cap_desc),
        }
    }
}
/// Everything the executor needs to sign: the wrapped slices, the data to
/// sign and the first signature.
#[derive(Debug, Clone, PartialEq)]
pub struct TaskSignWithKeySlicesResponse {
    pub task_id: String,
    pub adhoc_data: Vec<u8>,
    pub p1_signature: Vec<u8>,
    pub key_type: String,
    pub encrypted_key_slices: Vec<Vec<u8>>,
}

/// What a [`TaskSignWithKeySlicesResponse`] holds, as plain values.
pub struct TaskSignWithKeySlicesResponseView {
    pub task_id: Seq<char>,
    pub adhoc_data: Seq<u8>,
    pub p1_signature: Seq<u8>,
    pub key_type: Seq<char>,
    pub encrypted_key_slices: Seq<Seq<u8>>,
}

impl View for TaskSignWithKeySlicesResponse {
    type V = TaskSignWithKeySlicesResponseView;

    open spec fn view(&self) -> TaskSignWithKeySlicesResponseView {
        TaskSignWithKeySlicesResponseView {
            task_id: self.task_id@,
            adhoc_data: self.adhoc_data@,
            p1_signature: self.p1_signature@,
            key_type: self.key_type@,
            encrypted_key_slices: views(self.encrypted_key_slices@),
        }
    }
}
/// Asks a pinner for the slice of one deployment, wrapped for the executor.
#[derive(Debug, Clone, PartialEq)]
pub struct TaskSignGetPinnerKeySliceRequest {
    pub task_id: String,
    pub rsa_pub_key: Vec<u8>,
    pub deployment_id: String,
}

/// What a [`TaskSignGetPinnerKeySliceRequest`] holds, as plain values.
pub struct TaskSignGetPinnerKeySliceRequestView {
    pub task_id: Seq<char>,
    pub rsa_pub_key: Seq<u8>,
    pub deployment_id: Seq<char>,
}

impl View for TaskSignGetPinnerKeySliceRequest {
    type V = TaskSignGetPinnerKeySliceRequestView;

    open spec fn view(&self) -> TaskSignGetPinnerKeySliceRequestView {
        TaskSignGetPinnerKeySliceRequestView {
            task_id: self.task_id@,
            rsa_pub_key: self.rsa_pub_key@,
            deployment_id: self.deployment_id@,
        }
    }
}
/// A pinner's slice of one deployment, wrapped for the executor.
#[derive(Debug, Clone, PartialEq)]
pub struct TaskSignGetPinnerKeySliceResponse {
    pub task_id: String,
    pub encrypted_key_slice: Vec<u8>,
    pub deployment_id: String,
}

/// What a [`TaskSignGetPinnerKeySliceResponse`] holds, as plain values.
pub struct TaskSignGetPinnerKeySliceResponseView {
    pub task_id: Seq<char>,
    pub encrypted_key_slice: Seq<u8>,
    pub deployment_id: Seq<char>,
}

impl View for TaskSignGetPinnerKeySliceResponse {
    type V = TaskSignGetPinnerKeySliceResponseView;

    open spec fn view(&self) -> TaskSignGetPinnerKeySliceResponseView {
        TaskSignGetPinnerKeySliceResponseView {
            task_id: self.task_id@,
            encrypted_key_slice: self.encrypted_key_slice@,
            deployment_id: self.deployment_id@,
        }
    }
}
/// The executor's combined signature.
#[derive(Debug, Clone, PartialEq)]
pub struct TaskCommitSignResultRequest {
    pub task_id: String,
    pub witness: Vec<u8>,
}

/// What a [`TaskCommitSignResultRequest`] holds, as plain values.
pub struct TaskCommitSignResultRequestView {
    pub task_id: Seq<char>,
    pub witness: Seq<u8>,
}

impl View for TaskCommitSignResultRequest {
    type V = TaskCommitSignResultRequestView;

    open spec fn view(&self) -> TaskCommitSignResultRequestView {
        TaskCommitSignResultRequestView {
            task_id: self.task_id@,
            witness: self.witness@,
        }
    }
}
/// The kinds of message that travel between peers.
#[derive(Debug, Clone, PartialEq)]
pub enum Msg {
    KeyGenerationCandidateRequest(KeyGenerationCandidateRequest),
    TaskKeyGenerationApplyRequest(TaskKeyGenerationApplyRequest),
    TaskExecutionRequest(TaskExecutionRequest),
    TaskExecutionResponse(TaskExecutionResponse),
    TaskPinnerKeySliceRequest(TaskPinnerKeySliceRequest),
    TaskPinnerKeySliceResponse(TaskPinnerKeySliceResponse),
    SignCandidateRequest(SignCandidateRequest),
    TaskSignWithKeySlicesRequest(TaskSignWithKeySlicesRequest),
    TaskSignWithKeySlicesResponse(TaskSignWithKeySlicesResponse),
    TaskSignGetPinnerKeySliceRequest(TaskSignGetPinnerKeySliceRequest),
    TaskSignGetPinnerKeySliceResponse(TaskSignGetPinnerKeySliceResponse),
    TaskCommitSignResultRequest(TaskCommitSignResultRequest),
}

/// What a [`Msg`] holds, as plain values.
pub enum MsgView {
    KeyGenerationCandidateRequest(KeyGenerationCandidateRequestView),
    TaskKeyGenerationApplyRequest(TaskKeyGenerationApplyRequestView),
    TaskExecutionRequest(TaskExecutionRequestView),
    TaskExecutionResponse(TaskExecutionResponseView),
    TaskPinnerKeySliceRequest(TaskPinnerKeySliceRequestView),
    TaskPinnerKeySliceResponse(TaskPinnerKeySliceResponseView),
    SignCandidateRequest(SignCandidateRequestView),
    TaskSignWithKeySlicesRequest(TaskSignWithKeySlicesRequestView),
    TaskSignWithKeySlicesResponse(TaskSignWithKeySlicesResponseView),
    TaskSignGetPinnerKeySliceRequest(TaskSignGetPinnerKeySliceRequestView),
    TaskSignGetPinnerKeySliceResponse(TaskSignGetPinnerKeySliceResponseView),
    TaskCommitSignResultRequest(TaskCommitSignResultRequestView),
}

impl View for Msg {
    type V = MsgView;

    open spec fn view(&self) -> MsgView {
        match *self {
            Msg::KeyGenerationCandidateRequest(x) => MsgView::KeyGenerationCandidateRequest(x@),
            Msg::TaskKeyGenerationApplyRequest(x) => MsgView::TaskKeyGenerationApplyRequest(x@),
            Msg::TaskExecutionRequest(x) => MsgView::TaskExecutionRequest(x@),
            Msg::TaskExecutionResponse(x) => MsgView::TaskExecutionResponse(x@),
            Msg::TaskPinnerKeySliceRequest(x) => MsgView::TaskPinnerKeySliceRequest(x@),
            Msg::TaskPinnerKeySliceResponse(x) => MsgView::TaskPinnerKeySliceResponse(x@),
            Msg::SignCandidateRequest(x) => MsgView::SignCandidateRequest(x@),
            Msg::TaskSignWithKeySlicesRequest(x) => MsgView::TaskSignWithKeySlicesRequest(x@),
            Msg::TaskSignWithKeySlicesResponse(x) => MsgView::TaskSignWithKeySlicesResponse(x@),
            Msg::TaskSignGetPinnerKeySliceRequest(x) => MsgView::TaskSignGetPinnerKeySliceRequest(x@),
            Msg::TaskSignGetPinnerKeySliceResponse(x) => MsgView::TaskSignGetPinnerKeySliceResponse(x@),
            Msg::TaskCommitSignResultRequest(x) => MsgView::TaskCommitSignResultRequest(x@),
        }
    }
}
/// The envelope of every peer-to-peer message. An envelope without a message,
/// or with one of a kind unknown to this node, is answered and dropped.
#[derive(Debug, Clone, PartialEq)]
pub struct GeneralMsg {
    pub msg: Option<Msg>,
}

/// What a [`GeneralMsg`] holds, as plain values.
pub struct GeneralMsgView {
    pub msg: Option<MsgView>,
}

impl View for GeneralMsg {
    type V = GeneralMsgView;

    open spec fn view(&self) -> GeneralMsgView {
        GeneralMsgView {
            msg: option_view(self.msg),
        }
    }
}
} // verus!
