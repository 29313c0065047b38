//! The initial pinner: the node that receives one wrapped slice of the
//! second key and stores it.

use vstd::prelude::*;
use crate::action::{Action, ActionView};
use crate::common::key_generation::verify_to_candidate_signature;
use crate::error::Error;
use crate::executor::spec_candidate_request_received;
use crate::p2p_proto::KeyGenerationCandidateRequest;
use crate::text::views;

pub mod handler;
pub mod store_item;

pub use handler::{
    task_pinner_key_slice_request_handler, trying_commit_data_upload, update_conflict_list,
    InitialPinnerStoreItem,
};

verus! {

/// Receives the invitation to be an initial pinner of a key-generation
/// task. `already_executor` says whether this node holds an executor's item
/// for the task: then the invitation is ignored, for a node takes one role
/// per task. `signature_valid` says whether the invitation's signature
/// verifies. An invitation whose signature fails is refused; otherwise the
/// delegator's profile is looked up, and the answer goes to
/// [`handler::task_key_generation_candidate_request_handler`].
pub fn task_key_generation_candidate_request_handler(
    peer_id: String,
    req: &KeyGenerationCandidateRequest,
    already_executor: bool,
    signature_valid: bool,
) -> (r: Result<Vec<Action>, Error>)
    ensures
        match r {
            Ok(actions) => spec_candidate_request_received(already_executor, req@, signature_valid)
                == Ok::<Seq<ActionView>, Error>(views(actions@)),
            Err(e) => spec_candidate_request_received(already_executor, req@, signature_valid)
                == Err::<Seq<ActionView>, Error>(e),
        },
{
    let mut actions: Vec<Action> = Vec::new();
    if already_executor {
        assert(views(actions@) =~= Seq::empty());
        return Ok(actions);
    }
    match verify_to_candidate_signature(req, signature_valid) {
        Ok(lookup) => {
            actions.push(lookup);
            assert(views(actions@) =~= seq![
                ActionView::LookupNodeProfile { ephemeral_id: req@.delegator_ephemeral_id },
            ]);
            Ok(actions)
        },
        Err(e) => Err(e),
    }
}

} // verus!
