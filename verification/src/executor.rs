//! The executor: the node that generates and splits the second key of a
//! key-generation task, and that recovers it and signs in a signing task.

use vstd::prelude::*;
use crate::action::{Action, ActionView};
use crate::common::key_generation::verify_to_candidate_signature;
use crate::error::Error;
use crate::p2p_proto::{KeyGenerationCandidateRequest, KeyGenerationCandidateRequestView};
use crate::text::views;

pub mod handler;
pub mod key_gen;
pub mod sign;
pub mod store_item;

pub use handler::{
    process_sign_with_key_slices_handler, task_execution_request_handler,
    task_sign_with_key_slices_response_handler, ExecutorStoreItem,
};

verus! {

/// What a node does first with an invitation to a role, whichever the role.
pub open spec fn spec_candidate_request_received(
    already_admitted: bool,
    req: KeyGenerationCandidateRequestView,
    signature_valid: bool,
) -> Result<Seq<ActionView>, Error> {
    if already_admitted {
        Ok(Seq::empty())
    } else if !signature_valid {
        Err(Error::InvalidSignature)
    } else {
        Ok(seq![ActionView::LookupNodeProfile { ephemeral_id: req.delegator_ephemeral_id }])
    }
}

/// Receives the invitation to be the executor of a key-generation task.
/// `already_initial_pinner` says whether this node holds an initial pinner's
/// item for the task: then the invitation is ignored, for a node takes one
/// role per task. `signature_valid` says whether the invitation's signature
/// verifies. An invitation whose signature fails is refused; otherwise the
/// delegator's profile is looked up, and the answer goes to
/// [`key_gen::task_key_generation_candidate_request_handler`].
pub fn task_key_generation_candidate_request_handler(
    peer_id: String,
    req: &KeyGenerationCandidateRequest,
    already_initial_pinner: bool,
    signature_valid: bool,
) -> (r: Result<Vec<Action>, Error>)
    ensures
        match r {
            Ok(actions) => spec_candidate_request_received(
                already_initial_pinner,
                req@,
                signature_valid,
            ) == Ok::<Seq<ActionView>, Error>(views(actions@)),
            Err(e) => spec_candidate_request_received(already_initial_pinner, req@, signature_valid)
                == Err::<Seq<ActionView>, Error>(e),
        },
{
    let mut actions: Vec<Action> = Vec::new();
    if already_initial_pinner {
        assert(views(actions@) =~= Seq::empty());
        return Ok(actions);
    }
    match verify_to_candidate_signature(req, signature_valid) {
        Ok(lookup) => {
            actions.push(lookup);
            assert(views(actions@) =~= seq![
                ActionView::LookupNodeProfile { ephemeral_id: req@.delegator_ephemeral_id },
            ]);
            Ok(actions)
        },
        Err(e) => Err(e),
    }
}

} // verus!
