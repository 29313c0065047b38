//! What a step of the protocol asks the embedding program to do.

use vstd::prelude::*;
use crate::actor_delegate_proto::{
    GetDelegatesRequest, GetDelegatesRequestView, GetDeploymentIds, GetDeploymentIdsView,
    UpdateKeyGenerationResult, UpdateKeyGenerationResultView,
};
use crate::actor_pinner_proto::{
    CommitDataUploadRequest, CommitDataUploadRequestView, DataUploadCompletedProcessRequest,
    DataUploadCompletedProcessRequestView, FindPinnersRequest, FindPinnersRequestView,
    PeerApproveRaRequest, PeerApproveRaRequestView, ServerCheckStrategyResult,
    ServerCheckStrategyResultView, UpdateConflictListRequest, UpdateConflictListRequestView,
};
use vstd::string::*;
use crate::error::Error;
use crate::p2p_proto::{GeneralMsg, GeneralMsgView, Msg};
use crate::text::{option_view, text, views};

verus! {

/// How a reply to a peer is marked.
#[derive(Debug, Clone, Copy, PartialEq, Eq, Structural)]
pub enum P2pReplyType {
    /// The request was carried out.
    Success,
    /// The request was refused.
    Rejected,
    /// The request failed.
    Error,
}

/// One outbound operation. A step returns its actions in the order in which
/// they are to be performed.
#[derive(Debug, Clone, PartialEq)]
pub enum Action {
    /// Send `msg` to the peer `peer_id`, on behalf of the task `task_id`.
    SendMessage {
        peer_id: String,
        task_id: String,
        msg: GeneralMsg,
    },
    /// Post `body` on the reply subject `reply_to`.
    Reply {
        reply_to: String,
        body: String,
    },
    /// Answer the peer `peer_id` on `reply_to` with a marked message.
    Respond {
        reply_to: String,
        peer_id: String,
        task_id: String,
        message: String,
        reply_type: P2pReplyType,
    },
    /// Answer the attestation service's question whether this node accepts
    /// an attestation exchange.
    AnswerServerCheck {
        reply_to: String,
        result: ServerCheckStrategyResult,
    },
    /// Ask the attestation service to attest a peer.
    RequestPeerApproveRa(PeerApproveRaRequest),
    /// Ask the attestation service for the pinners of a deployment.
    FindPinners(FindPinnersRequest),
    /// Ask the ledger for delegates.
    GetDelegates(GetDelegatesRequest),
    /// Ask the ledger for the deployments of an account.
    GetDeploymentIds(GetDeploymentIds),
    /// Resolve a long-lived node id to the node's profile.
    LookupNodeProfileByTeaId {
        tea_id: Vec<u8>,
    },
    /// Resolve an ephemeral id to the profile of the node that uses it.
    LookupNodeProfile {
        ephemeral_id: Vec<u8>,
    },
    /// Commit the result of a key-generation task to the ledger.
    UpdateGenerateKeyResult(UpdateKeyGenerationResult),
    /// Close the connection to a peer.
    CloseP2p {
        peer_id: String,
    },
    /// Verify the combined signature of a signing task against the task's
    /// account, commit it to the ledger and broadcast the signed transaction
    /// to the network that `task_type` names.
    CommitWitness {
        task_id: String,
        multi_sig_account: Vec<u8>,
        witness: Vec<u8>,
        task_type: String,
    },
    /// Keep the private half of the RSA key pair that was minted for this step
    /// under `key`, for `expires_s` seconds.
    StashRsaPrivateKey {
        key: String,
        expires_s: i32,
    },
    /// Keep `value` under `key` for `expires_s` seconds.
    Remember {
        key: String,
        value: String,
        expires_s: i32,
    },
    /// Ask the attestation service for the public key of an upload session.
    RegisterUploadRsaKey {
        session_id: String,
    },
    /// Report a finished upload within an upload session.
    DataUploadCompleted {
        session_id: String,
        request: DataUploadCompletedProcessRequest,
    },
    /// Confirm an upload.
    CommitDataUpload(CommitDataUploadRequest),
    /// Tell the attestation service which deployments belong to one account.
    UpdateConflictList(UpdateConflictListRequest),
}

/// What a [`Action`] holds, as plain values.
pub enum ActionView {
    SendMessage {
        peer_id: Seq<char>,
        task_id: Seq<char>,
        msg: GeneralMsgView,
    },
    Reply {
        reply_to: Seq<char>,
        body: Seq<char>,
    },
    Respond {
        reply_to: Seq<char>,
        peer_id: Seq<char>,
        task_id: Seq<char>,
        message: Seq<char>,
        reply_type: P2pReplyType,
    },
    AnswerServerCheck {
        reply_to: Seq<char>,
        result: ServerCheckStrategyResultView,
    },
    RequestPeerApproveRa(PeerApproveRaRequestView),
    FindPinners(FindPinnersRequestView),
    GetDelegates(GetDelegatesRequestView),
    GetDeploymentIds(GetDeploymentIdsView),
    LookupNodeProfileByTeaId {
        tea_id: Seq<u8>,
    },
    LookupNodeProfile {
        ephemeral_id: Seq<u8>,
    },
    UpdateGenerateKeyResult(UpdateKeyGenerationResultView),
    CloseP2p {
        peer_id: Seq<char>,
    },
    CommitWitness {
        task_id: Seq<char>,
        multi_sig_account: Seq<u8>,
        witness: Seq<u8>,
        task_type: Seq<char>,
    },
    StashRsaPrivateKey {
        key: Seq<char>,
        expires_s: i32,
    },
    Remember {
        key: Seq<char>,
        value: Seq<char>,
        expires_s: i32,
    },
    RegisterUploadRsaKey {
        session_id: Seq<char>,
    },
    DataUploadCompleted {
        session_id: Seq<char>,
        request: DataUploadCompletedProcessRequestView,
    },
    CommitDataUpload(CommitDataUploadRequestView),
    UpdateConflictList(UpdateConflictListRequestView),
}

impl View for Action {
    type V = ActionView;

    open spec fn view(&self) -> ActionView {
        match *self {
            Action::SendMessage { peer_id, task_id, msg } => ActionView::SendMessage {
                peer_id: peer_id@,
                task_id: task_id@,
                msg: msg@,
            },
            Action::Reply { reply_to, body } => ActionView::Reply {
                reply_to: reply_to@,
                body: body@,
            },
            Action::Respond { reply_to, peer_id, task_id, message, reply_type } => ActionView::Respond {
                reply_to: reply_to@,
                peer_id: peer_id@,
                task_id: task_id@,
                message: message@,
                reply_type: reply_type,
            },
            Action::AnswerServerCheck { reply_to, result } => ActionView::AnswerServerCheck {
                reply_to: reply_to@,
                result: result@,
            },
            Action::RequestPeerApproveRa(x) => ActionView::RequestPeerApproveRa(x@),
            Action::FindPinners(x) => ActionView::FindPinners(x@),
            Action::GetDelegates(x) => ActionView::GetDelegates(x@),
            Action::GetDeploymentIds(x) => ActionView::GetDeploymentIds(x@),
            Action::LookupNodeProfileByTeaId { tea_id } => ActionView::LookupNodeProfileByTeaId {
                tea_id: tea_id@,
            },
            Action::LookupNodeProfile { ephemeral_id } => ActionView::LookupNodeProfile {
                ephemeral_id: ephemeral_id@,
            },
            Action::UpdateGenerateKeyResult(x) => ActionView::UpdateGenerateKeyResult(x@),
            Action::CloseP2p { peer_id } => ActionView::CloseP2p {
                peer_id: peer_id@,
            },
            Action::CommitWitness { task_id, multi_sig_account, witness, task_type } => ActionView::CommitWitness {
                task_id: task_id@,
                multi_sig_account: multi_sig_account@,
                witness: witness@,
                task_type: task_type@,
            },
            Action::StashRsaPrivateKey { key, expires_s } => ActionView::StashRsaPrivateKey {
                key: key@,
                expires_s: expires_s,
            },
            Action::Remember { key, value, expires_s } => ActionView::Remember {
                key: key@,
                value: value@,
                expires_s: expires_s,
            },
            Action::RegisterUploadRsaKey { session_id } => ActionView::RegisterUploadRsaKey {
                session_id: session_id@,
            },
            Action::DataUploadCompleted { session_id, request } => ActionView::DataUploadCompleted {
                session_id: session_id@,
                request: request@,
            },
            Action::CommitDataUpload(x) => ActionView::CommitDataUpload(x@),
            Action::UpdateConflictList(x) => ActionView::UpdateConflictList(x@),
        }
    }
}

/// The outcome of a step: the item to persist, if any, and the actions to
/// perform afterwards, in order. A step without an item leaves what is
/// stored as it is.
#[derive(Debug, Clone, PartialEq)]
pub struct Step<T> {
    pub item: Option<T>,
    pub actions: Vec<Action>,
}

/// What a [`Step`] holds, as plain values.
pub struct StepView<V> {
    pub item: Option<V>,
    pub actions: Seq<ActionView>,
}

impl<T: View> View for Step<T> {
    type V = StepView<T::V>;

    open spec fn view(&self) -> StepView<T::V> {
        StepView { item: option_view(self.item), actions: views(self.actions@) }
    }
}

impl<V> StepView<V> {
    /// The step that does nothing.
    pub open spec fn idle() -> Self {
        StepView { item: None, actions: Seq::empty() }
    }
}

impl<T: View> Step<T> {
    /// The step that persists nothing and performs nothing.
    pub fn idle() -> (r: Self)
        ensures
            r@ == StepView::<T::V>::idle(),
    {
        let r = Step { item: None, actions: Vec::new() };
        assert(r@.actions =~= Seq::empty());
        r
    }

    /// The step that persists nothing and performs one action.
    pub fn only(action: Action) -> (r: Self)
        ensures
            r@ == (StepView::<T::V> { item: None, actions: seq![action@] }),
    {
        let mut actions: Vec<Action> = Vec::new();
        actions.push(action);
        let r = Step { item: None, actions };
        assert(r@.actions =~= seq![action@]);
        r
    }
}

/// Whether the outcome `r` of a handler is the `expected` one: the same
/// error, or a step that holds the expected item and actions.
pub open spec fn agrees<T: View>(
    r: Result<Step<T>, Error>,
    expected: Result<StepView<T::V>, Error>,
) -> bool {
    match r {
        Ok(step) => expected == Ok::<StepView<T::V>, Error>(step@),
        Err(e) => expected == Err::<StepView<T::V>, Error>(e),
    }
}

/// The text that tells a peer that no item of the given kind is stored for
/// the task.
pub open spec fn spec_missing_item_message(kind: Seq<char>, task_id: Seq<char>) -> Seq<char> {
    "failed to get "@ + kind + " with task_id "@ + task_id + ", details: can not find task "@
        + task_id
}

/// The answer to a peer whose message names a task for which no item of the
/// given kind is stored.
pub open spec fn spec_missing_item(
    kind: Seq<char>,
    task_id: Seq<char>,
    peer_id: Seq<char>,
    reply_to: Seq<char>,
) -> ActionView {
    ActionView::Respond {
        reply_to,
        peer_id,
        task_id,
        message: spec_missing_item_message(kind, task_id),
        reply_type: P2pReplyType::Error,
    }
}

/// Answers a peer whose message names a task for which no item of the given
/// kind is stored: an error reply that says so.
pub fn missing_item(kind: &str, task_id: &str, peer_id: &str, reply_to: &str) -> (action: Action)
    ensures
        action@ == spec_missing_item(kind@, task_id@, peer_id@, reply_to@),
{
    let mut message = String::from_str("failed to get ");
    message.append(kind);
    message.append(" with task_id ");
    message.append(task_id);
    message.append(", details: can not find task ");
    message.append(task_id);
    Action::Respond {
        reply_to: text(reply_to),
        peer_id: text(peer_id),
        task_id: text(task_id),
        message,
        reply_type: P2pReplyType::Error,
    }
}

/// Posts `body` on the reply subject `reply_to`.
pub fn reply(reply_to: &str, body: &str) -> (action: Action)
    ensures
        action@ == (ActionView::Reply { reply_to: reply_to@, body: body@ }),
{
    Action::Reply { reply_to: text(reply_to), body: text(body) }
}

/// Refuses a peer's request with a reason.
pub fn rejected(reply_to: &str, peer_id: &str, task_id: &str, message: String) -> (action: Action)
    ensures
        action@ == (ActionView::Respond {
            reply_to: reply_to@,
            peer_id: peer_id@,
            task_id: task_id@,
            message: message@,
            reply_type: P2pReplyType::Rejected,
        }),
{
    Action::Respond {
        reply_to: text(reply_to),
        peer_id: text(peer_id),
        task_id: text(task_id),
        message,
        reply_type: P2pReplyType::Rejected,
    }
}

/// Sends `msg` to `peer_id` on behalf of the task `task_id`.
pub fn send_message(peer_id: &str, task_id: &str, msg: Msg) -> (action: Action)
    ensures
        action@ == (ActionView::SendMessage {
            peer_id: peer_id@,
            task_id: task_id@,
            msg: GeneralMsgView { msg: Some(msg@) },
        }),
{
    Action::SendMessage {
        peer_id: text(peer_id),
        task_id: text(task_id),
        msg: GeneralMsg { msg: Some(msg) },
    }
}

} // verus!
