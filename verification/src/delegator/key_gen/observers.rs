//! How attestation requests and results of key-generation tasks are told
//! from others.

use vstd::prelude::*;
use crate::actor_pinner_proto::ChallengeStoreItem;
use crate::common::utils::{find_property, first_property, put_property};
use crate::table::{spec_put, Table};
use crate::text::{same_text, text};
use crate::BINDING_NAME;

pub mod client_observer;

pub use client_observer::operation_after_verify_handler;





verus! {

/// The property that marks an attestation as part of a key-generation task.
pub const PROPERTY_KEY_GEN_FLAG: &'static str = "task_delegator_key_gen_flag";

/// Marks a property bag as belonging to a key-generation task.
pub fn tag_for_key_gen(settings: &mut Table<String>)
    requires
        old(settings).wf(),
    ensures
        final(settings).wf(),
        final(settings).pairs() == spec_put(
            old(settings).pairs(),
            PROPERTY_KEY_GEN_FLAG@,
            BINDING_NAME@,
        ),
{
    put_property(settings, PROPERTY_KEY_GEN_FLAG, text(BINDING_NAME));
}

/// Whether an attestation result belongs to a key-generation task: its
/// first property named [`PROPERTY_KEY_GEN_FLAG`] holds this node's binding
/// name.
pub fn is_key_gen_tag(item: &ChallengeStoreItem) -> (r: bool)
    ensures
        r == (first_property(item@.properties, PROPERTY_KEY_GEN_FLAG@) == Some(BINDING_NAME@)),
{
    match find_property(&item.properties, PROPERTY_KEY_GEN_FLAG) {
        Some(value) => same_text(value.as_str(), BINDING_NAME),
        None => false,
    }
}

} // verus!
