//! Coordination core of a threshold key-generation and threshold-signing
//! network.
//!
//! A node plays up to four roles: delegator, executor, initial pinner and
//! pinner. Every handler in this crate is a pure step of one role's state
//! machine: it takes the stored task item (if any) and the inbound event, and
//! returns the item to persist together with the outbound [`action::Action`]s
//! to perform, in order. Transport, storage, attestation and the cryptographic
//! primitives are performed by the embedding program, which feeds their
//! results back in as plain values.

use vstd::prelude::*;
use crate::action::{reply, Action, ActionView};
use crate::actor_pinner_proto::{
    ChallengeStoreItemView, ClientOperationAfterVerify, ClientOperationAfterVerifyView,
    ServerCheckStrategy, ServerCheckStrategyResult, ServerCheckStrategyResultView,
    ServerCheckStrategyView,
};
use crate::common::utils::first_property;
use crate::delegator::key_gen::observers::PROPERTY_KEY_GEN_FLAG;
use crate::delegator::sign::observers::PROPERTY_SIGN_FLAG;
use crate::error::Error;
use crate::p2p_proto::{GeneralMsg, GeneralMsgView, Msg, MsgView};
use crate::text::{same_text, text, views};

pub mod action;
pub mod actor_delegate_proto;
pub mod actor_pinner_proto;
pub mod common;
pub mod delegator;
pub mod encoding;
pub mod error;
pub mod executor;
pub mod initial_pinner;
pub mod p2p_proto;
pub mod pinner;
pub mod portal;
pub mod table;
pub mod text;

verus! {

/// Name of the key-value binding that holds every task item of this node.
pub const BINDING_NAME: &'static str = "tea_gluon";

/// Name under which this actor is addressed.
pub const MY_ACTOR_NAME: &'static str = "gluon";

/// Name of the attestation actor.
pub const PINNER_ACTOR_NAME: &'static str = "pinner";

/// What a message is, by the subject it arrived on.
#[derive(Debug, Clone, PartialEq)]
pub enum Route {
    /// A peer-to-peer message from the peer `from_peer_id`.
    P2pMessage { from_peer_id: String },
    /// The attestation service reports an attested peer.
    PinnerClientOperationAfterVerify,
    /// The attestation service asks whether an exchange is accepted.
    PinnerServerCheckStrategy,
    /// The ledger announces a key-generation task.
    KeyGenerationRequested,
    /// The ledger announces a signing task.
    SignWithKeySlicesRequested,
    /// The answer to the call that was made under `uuid`.
    ActionResult { uuid: String },
    /// The time for collecting the candidates of the key-generation task
    /// `task_id` is over.
    CandidateTimeout { task_id: String },
    /// Nothing this node handles.
    Ignored,
}

/// What a [`Route`] holds, as plain values.
pub enum RouteView {
    P2pMessage { from_peer_id: Seq<char> },
    PinnerClientOperationAfterVerify,
    PinnerServerCheckStrategy,
    KeyGenerationRequested,
    SignWithKeySlicesRequested,
    ActionResult { uuid: Seq<char> },
    CandidateTimeout { task_id: Seq<char> },
    Ignored,
}

impl View for Route {
    type V = RouteView;

    open spec fn view(&self) -> RouteView {
        match *self {
            Route::P2pMessage { from_peer_id } => RouteView::P2pMessage {
                from_peer_id: from_peer_id@,
            },
            Route::PinnerClientOperationAfterVerify => RouteView::PinnerClientOperationAfterVerify,
            Route::PinnerServerCheckStrategy => RouteView::PinnerServerCheckStrategy,
            Route::KeyGenerationRequested => RouteView::KeyGenerationRequested,
            Route::SignWithKeySlicesRequested => RouteView::SignWithKeySlicesRequested,
            Route::ActionResult { uuid } => RouteView::ActionResult { uuid: uuid@ },
            Route::CandidateTimeout { task_id } => RouteView::CandidateTimeout {
                task_id: task_id@,
            },
            Route::Ignored => RouteView::Ignored,
        }
    }
}

/// Whether `parts` begins with the three given parts and has one more.
pub open spec fn heads(parts: Seq<Seq<char>>, a: Seq<char>, b: Seq<char>, c: Seq<char>) -> bool {
    parts.len() == 4 && parts[0] == a && parts[1] == b && parts[2] == c
}

/// The route of a subject, given as its dot-separated parts.
pub open spec fn spec_handle_message(parts: Seq<Seq<char>>) -> RouteView {
    if heads(parts, "ipfs"@, "p2p"@, "listen"@) {
        RouteView::P2pMessage { from_peer_id: parts[3] }
    } else if heads(parts, "actor"@, "pinner"@, "event"@) && parts[3]
        == "client_operation_after_verify"@ {
        RouteView::PinnerClientOperationAfterVerify
    } else if heads(parts, "actor"@, "pinner"@, "event"@) && parts[3] == "server_check_strategy"@ {
        RouteView::PinnerServerCheckStrategy
    } else if heads(parts, "layer1"@, "event"@, "tea"@) && parts[3] == "KeyGenerationRequested"@ {
        RouteView::KeyGenerationRequested
    } else if heads(parts, "layer1"@, "event"@, "tea"@) && parts[3]
        == "SignWithKeySlicesRequested"@ {
        RouteView::SignWithKeySlicesRequested
    } else if heads(parts, "actor"@, "gluon"@, "inbox"@) {
        RouteView::ActionResult { uuid: parts[3] }
    } else if heads(parts, "actor"@, "gluon"@, "timeout"@) {
        RouteView::CandidateTimeout { task_id: parts[3] }
    } else if parts.len() == 3 && parts[0] == "reply"@ {
        RouteView::ActionResult { uuid: parts[2] }
    } else {
        RouteView::Ignored
    }
}

fn has_heads(parts: &Vec<String>, a: &str, b: &str, c: &str) -> (r: bool)
    ensures
        r == heads(views(parts@), a@, b@, c@),
{
    parts.len() == 4 && same_text(parts[0].as_str(), a) && same_text(parts[1].as_str(), b)
        && same_text(parts[2].as_str(), c)
}

/// Routes a message by its subject, given as the subject's dot-separated
/// parts.
pub fn handle_message(channel_parts: &Vec<String>) -> (route: Route)
    ensures
        route@ == spec_handle_message(views(channel_parts@)),
{
    if has_heads(channel_parts, "ipfs", "p2p", "listen") {
        Route::P2pMessage { from_peer_id: channel_parts[3].clone() }
    } else if has_heads(channel_parts, "actor", "pinner", "event") && same_text(
        channel_parts[3].as_str(),
        "client_operation_after_verify",
    ) {
        Route::PinnerClientOperationAfterVerify
    } else if has_heads(channel_parts, "actor", "pinner", "event") && same_text(
        channel_parts[3].as_str(),
        "server_check_strategy",
    ) {
        Route::PinnerServerCheckStrategy
    } else if has_heads(channel_parts, "layer1", "event", "tea") && same_text(
        channel_parts[3].as_str(),
        "KeyGenerationRequested",
    ) {
        Route::KeyGenerationRequested
    } else if has_heads(channel_parts, "layer1", "event", "tea") && same_text(
        channel_parts[3].as_str(),
        "SignWithKeySlicesRequested",
    ) {
        Route::SignWithKeySlicesRequested
    } else if has_heads(channel_parts, "actor", "gluon", "inbox") {
        Route::ActionResult { uuid: channel_parts[3].clone() }
    } else if has_heads(channel_parts, "actor", "gluon", "timeout") {
        Route::CandidateTimeout { task_id: channel_parts[3].clone() }
    } else if channel_parts.len() == 3 && same_text(channel_parts[0].as_str(), "reply") {
        Route::ActionResult { uuid: channel_parts[2].clone() }
    } else {
        Route::Ignored
    }
}

/// Whether an attestation result carries the mark of key generation.
pub open spec fn key_gen_tagged(item: ChallengeStoreItemView) -> bool {
    first_property(item.properties, PROPERTY_KEY_GEN_FLAG@) == Some(BINDING_NAME@)
}

/// Whether an attestation result carries the mark of signing.
pub open spec fn sign_tagged(item: ChallengeStoreItemView) -> bool {
    first_property(item.properties, PROPERTY_SIGN_FLAG@) == Some(BINDING_NAME@)
}

/// The answer to the attestation service's question whether an exchange is
/// accepted.
pub open spec fn spec_pinner_server_check_strategy(
    res: ServerCheckStrategyView,
    reply_to: Seq<char>,
) -> Result<Seq<ActionView>, Error> {
    match res.item {
        None => Err(Error::MissingChallengeItem),
        Some(item) => if key_gen_tagged(item) || sign_tagged(item) {
            Ok(
                seq![
                    ActionView::AnswerServerCheck {
                        reply_to,
                        result: ServerCheckStrategyResultView { verify: true, message: "passed"@ },
                    },
                ],
            )
        } else {
            Ok(Seq::empty())
        },
    }
}

/// Answers the attestation service's question whether this node accepts an
/// attestation exchange. An exchange that carries the mark of key generation
/// or of signing is accepted; any other is left unanswered. A question
/// without an attestation item is an error.
pub fn pinner_server_check_strategy(res: &ServerCheckStrategy, reply_to: &str) -> (r: Result<
    Vec<Action>,
    Error,
>)
    ensures
        match r {
            Ok(actions) => spec_pinner_server_check_strategy(res@, reply_to@) == Ok::<
                Seq<ActionView>,
                Error,
            >(views(actions@)),
            Err(e) => spec_pinner_server_check_strategy(res@, reply_to@) == Err::<
                Seq<ActionView>,
                Error,
            >(e),
        },
{
    let item = match &res.item {
        Some(item) => item,
        None => {
            return Err(Error::MissingChallengeItem);
        },
    };
    let mut actions: Vec<Action> = Vec::new();
    if delegator::is_key_gen_tag(item) || delegator::is_sign_tag(item) {
        actions.push(
            Action::AnswerServerCheck {
                reply_to: text(reply_to),
                result: ServerCheckStrategyResult { verify: true, message: text("passed") },
            },
        );
        assert(views(actions@) =~= seq![
            ActionView::AnswerServerCheck {
                reply_to: reply_to@,
                result: ServerCheckStrategyResultView { verify: true, message: "passed"@ },
            },
        ]);
    } else {
        assert(views(actions@) =~= Seq::empty());
    }
    Ok(actions)
}

/// The kind of task that an attested peer belongs to.
#[derive(Debug, Clone, Copy, PartialEq, Eq, Structural)]
pub enum AttestedTask {
    /// A key-generation task: the report goes to
    /// `delegator::key_gen_operation_after_verify_handler`.
    KeyGeneration,
    /// A signing task: the report goes to
    /// `delegator::sign_operation_after_verify_handler`.
    Signing,
    /// No task of this node: the report is ignored.
    Other,
}

/// To which kind of task the report of an attested peer belongs.
pub open spec fn spec_pinner_client_operation_after_verify(
    res: ClientOperationAfterVerifyView,
) -> Result<AttestedTask, Error> {
    match res.item {
        None => Err(Error::MissingChallengeItem),
        Some(item) => if key_gen_tagged(item) {
            Ok(AttestedTask::KeyGeneration)
        } else if sign_tagged(item) {
            Ok(AttestedTask::Signing)
        } else {
            Ok(AttestedTask::Other)
        },
    }
}

/// Routes the report of an attested peer by the mark that its attestation
/// carries. A report without an attestation item is an error.
pub fn pinner_client_operation_after_verify(res: &ClientOperationAfterVerify) -> (r: Result<
    AttestedTask,
    Error,
>)
    ensures
        r == spec_pinner_client_operation_after_verify(res@),
{
    let item = match &res.item {
        Some(item) => item,
        None => {
            return Err(Error::MissingChallengeItem);
        },
    };
    if delegator::is_key_gen_tag(item) {
        Ok(AttestedTask::KeyGeneration)
    } else if delegator::is_sign_tag(item) {
        Ok(AttestedTask::Signing)
    } else {
        Ok(AttestedTask::Other)
    }
}

/// The handler of a peer-to-peer message.
#[derive(Debug, Clone, Copy, PartialEq, Eq, Structural)]
pub enum P2pHandler {
    /// `delegator::task_key_generation_apply_request_handler`
    DelegatorKeyGenerationApply,
    /// `executor::task_execution_request_handler`
    ExecutorTaskExecution,
    /// `delegator::task_execution_response_handler`
    DelegatorTaskExecutionResponse,
    /// `initial_pinner::task_pinner_key_slice_request_handler`
    InitialPinnerKeySlice,
    /// `delegator::task_pinner_key_slice_response_handler`
    DelegatorPinnerKeySliceResponse,
    /// `delegator::task_sign_with_key_slices_request_handler`
    DelegatorSignApply,
    /// `executor::task_sign_with_key_slices_response_handler`
    ExecutorSignWithKeySlices,
    /// `pinner::task_sign_with_key_slices_request_handler`
    PinnerKeySlice,
    /// `delegator::task_sign_get_pinner_key_slice_response_handler`
    DelegatorSignKeySliceResponse,
    /// `delegator::task_commit_sign_result_request_handler`
    DelegatorCommitSignResult,
    /// `executor::task_key_generation_candidate_request_handler`
    ExecutorCandidate,
    /// `initial_pinner::task_key_generation_candidate_request_handler`
    InitialPinnerCandidate,
    /// `executor::process_sign_with_key_slices_handler`
    ExecutorSignCandidate,
    /// No handler: the sender is told so.
    Unknown,
}

/// The handler of each kind of peer-to-peer message. An invitation to a
/// key-generation task goes to the role it invites to.
pub open spec fn spec_listen_p2p_message(msg: GeneralMsgView) -> P2pHandler {
    match msg.msg {
        Some(MsgView::TaskKeyGenerationApplyRequest(_)) => P2pHandler::DelegatorKeyGenerationApply,
        Some(MsgView::TaskExecutionRequest(_)) => P2pHandler::ExecutorTaskExecution,
        Some(MsgView::TaskExecutionResponse(_)) => P2pHandler::DelegatorTaskExecutionResponse,
        Some(MsgView::TaskPinnerKeySliceRequest(_)) => P2pHandler::InitialPinnerKeySlice,
        Some(MsgView::TaskPinnerKeySliceResponse(_)) => P2pHandler::DelegatorPinnerKeySliceResponse,
        Some(MsgView::TaskSignWithKeySlicesRequest(_)) => P2pHandler::DelegatorSignApply,
        Some(MsgView::TaskSignWithKeySlicesResponse(_)) => P2pHandler::ExecutorSignWithKeySlices,
        Some(MsgView::TaskSignGetPinnerKeySliceRequest(_)) => P2pHandler::PinnerKeySlice,
        Some(MsgView::TaskSignGetPinnerKeySliceResponse(_)) => P2pHandler::DelegatorSignKeySliceResponse,
        Some(MsgView::TaskCommitSignResultRequest(_)) => P2pHandler::DelegatorCommitSignResult,
        Some(MsgView::KeyGenerationCandidateRequest(req)) => if req.executor {
            P2pHandler::ExecutorCandidate
        } else {
            P2pHandler::InitialPinnerCandidate
        },
        Some(MsgView::SignCandidateRequest(_)) => P2pHandler::ExecutorSignCandidate,
        None => P2pHandler::Unknown,
    }
}

/// Routes a peer-to-peer message to its handler.
pub fn listen_p2p_message(msg: &GeneralMsg) -> (handler: P2pHandler)
    ensures
        handler == spec_listen_p2p_message(msg@),
{
    match &msg.msg {
        Some(Msg::TaskKeyGenerationApplyRequest(_)) => P2pHandler::DelegatorKeyGenerationApply,
        Some(Msg::TaskExecutionRequest(_)) => P2pHandler::ExecutorTaskExecution,
        Some(Msg::TaskExecutionResponse(_)) => P2pHandler::DelegatorTaskExecutionResponse,
        Some(Msg::TaskPinnerKeySliceRequest(_)) => P2pHandler::InitialPinnerKeySlice,
        Some(Msg::TaskPinnerKeySliceResponse(_)) => P2pHandler::DelegatorPinnerKeySliceResponse,
        Some(Msg::TaskSignWithKeySlicesRequest(_)) => P2pHandler::DelegatorSignApply,
        Some(Msg::TaskSignWithKeySlicesResponse(_)) => P2pHandler::ExecutorSignWithKeySlices,
        Some(Msg::TaskSignGetPinnerKeySliceRequest(_)) => P2pHandler::PinnerKeySlice,
        Some(Msg::TaskSignGetPinnerKeySliceResponse(_)) => P2pHandler::DelegatorSignKeySliceResponse,
        Some(Msg::TaskCommitSignResultRequest(_)) => P2pHandler::DelegatorCommitSignResult,
        Some(Msg::KeyGenerationCandidateRequest(req)) => if req.executor {
            P2pHandler::ExecutorCandidate
        } else {
            P2pHandler::InitialPinnerCandidate
        },
        Some(Msg::SignCandidateRequest(_)) => P2pHandler::ExecutorSignCandidate,
        None => P2pHandler::Unknown,
    }
}

/// Tells the sender of a message without a handler that the message is
/// unknown.
pub fn unknown_message(reply_to: &str) -> (action: Action)
    ensures
        action@ == (ActionView::Reply { reply_to: reply_to@, body: "Task actor unknown message"@ }),
{
    reply(reply_to, "Task actor unknown message")
}

} // verus!
