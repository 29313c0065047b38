//! How attestation requests and results of signing tasks are told from
//! others.

use vstd::prelude::*;
use crate::actor_pinner_proto::ChallengeStoreItem;
use crate::common::utils::{find_property, first_property, put_property};
use crate::table::{spec_put, Table};
use crate::text::{same_text, text};
use crate::BINDING_NAME;

pub mod client_observer;

pub use client_observer::operation_after_verify_handler;

verus! {

/// The property that marks an attestation as part of a signing task.
pub const PROPERTY_SIGN_FLAG: &'static str = "task_delegator_sign_flag";

/// Marks a property bag as belonging to a signing task.
pub fn tag_for_sign(settings: &mut Table<String>)
    requires
        old(settings).wf(),
    ensures
        final(settings).wf(),
        final(settings).pairs() == spec_put(
            old(settings).pairs(),
            PROPERTY_SIGN_FLAG@,
            BINDING_NAME@,
        ),
{
    put_property(settings, PROPERTY_SIGN_FLAG, text(BINDING_NAME));
}

/// Whether an attestation result belongs to a signing task: its first
/// property named [`PROPERTY_SIGN_FLAG`] holds this node's binding name.
pub fn is_sign_tag(item: &ChallengeStoreItem) -> (r: bool)
    ensures
        r == (first_property(item@.properties, PROPERTY_SIGN_FLAG@) == Some(BINDING_NAME@)),
{
    match find_property(&item.properties, PROPERTY_SIGN_FLAG) {
        Some(value) => same_text(value.as_str(), BINDING_NAME),
        None => false,
    }
}

} // verus!
