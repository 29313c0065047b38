//! Property bags of attestation requests, and the invitation of candidate
//! executors.

use vstd::prelude::*;
use crate::action::{Action, ActionView};
use crate::actor_delegate_proto::{
    DelegateView, GetDelegatesRequest, GetDelegatesRequestView, GetDelegatesResponse,
};
use crate::actor_pinner_proto::{
    PeerApproveRaRequest, PeerApproveRaRequestView, PropertyKeyPair, PropertyKeyPairView,
};
use crate::common::task_info::TaskInfo;
use crate::table::{spec_put, Table};
use crate::text::{copy_bytes, text, views};
use crate::MY_ACTOR_NAME;

verus! {

/// The properties that the pairs of a bag stand for, in the bag's order.
pub open spec fn spec_properties(pairs: Seq<(Seq<char>, Seq<char>)>) -> Seq<PropertyKeyPairView> {
    Seq::new(pairs.len(), |i: int| PropertyKeyPairView { key: pairs[i].0, value: pairs[i].1 })
}

/// Turns a property bag into the list of properties that an attestation
/// request carries, keeping the bag's order.
pub fn from_hash_map(items: Table<String>) -> (properties: Vec<PropertyKeyPair>)
    ensures
        views(properties@) == spec_properties(items.pairs()),
{
    let mut properties: Vec<PropertyKeyPair> = Vec::new();
    let mut i: usize = 0;
    while i < items.len()
        invariant
            i <= items.entries@.len(),
            properties@.len() == i,
            forall|j: int|
                0 <= j < i ==> properties@[j]@ == (PropertyKeyPairView {
                    key: items.pairs()[j].0,
                    value: items.pairs()[j].1,
                }),
        decreases items.entries@.len() - i,
    {
        properties.push(
            PropertyKeyPair { key: items.key_at(i).clone(), value: items.value_at(i).clone() },
        );
        i = i + 1;
    }
    assert(views(properties@) =~= spec_properties(items.pairs()));
    properties
}

/// Sets the property `key` of a bag to `value`.
pub fn put_property(settings: &mut Table<String>, key: &str, value: String)
    requires
        old(settings).wf(),
    ensures
        final(settings).wf(),
        final(settings).pairs() == spec_put(old(settings).pairs(), key@, value@),
{
    settings.put(text(key), value);
}

/// The value of the first property named `key`, if there is one.
pub open spec fn first_property(properties: Seq<PropertyKeyPairView>, key: Seq<char>) -> Option<
    Seq<char>,
>
    decreases properties.len(),
{
    if properties.len() == 0 {
        None
    } else if properties[0].key == key {
        Some(properties[0].value)
    } else {
        first_property(properties.drop_first(), key)
    }
}

/// `first_property` looks no further than the first property named `key`.
pub proof fn lemma_first_property(properties: Seq<PropertyKeyPairView>, key: Seq<char>, i: int)
    requires
        0 <= i <= properties.len(),
        forall|j: int| 0 <= j < i ==> properties[j].key != key,
    ensures
        i < properties.len() && properties[i].key == key ==> first_property(properties, key)
            == Some(properties[i].value),
        i == properties.len() ==> first_property(properties, key) is None,
    decreases i,
{
    if i > 0 {
        let rest = properties.drop_first();
        assert forall|j: int| 0 <= j < i - 1 implies rest[j].key != key by {
            assert(rest[j] == properties[j + 1]);
        }
        lemma_first_property(rest, key, i - 1);
        if i < properties.len() {
            assert(rest[i - 1] == properties[i]);
        }
    }
}

/// Looks up the first property named `key`.
pub fn find_property<'a>(properties: &'a Vec<PropertyKeyPair>, key: &str) -> (value: Option<
    &'a String,
>)
    ensures
        match value {
            Some(v) => first_property(views(properties@), key@) == Some(v@),
            None => first_property(views(properties@), key@) is None,
        },
{
    let wanted = text(key);
    let mut i: usize = 0;
    while i < properties.len()
        invariant
            i <= properties@.len(),
            wanted@ == key@,
            forall|j: int| 0 <= j < i ==> views(properties@)[j].key != key@,
        decreases properties@.len() - i,
    {
        if properties[i].key == wanted {
            proof {
                lemma_first_property(views(properties@), key@, i as int);
            }
            return Some(&properties[i].value);
        }
        i = i + 1;
    }
    proof {
        lemma_first_property(views(properties@), key@, i as int);
    }
    None
}

/// Asks the attestation service to attest `peer_id`, with the given
/// properties, and to report to this actor.
pub fn send_ra_request(peer_id: String, properties: Table<String>) -> (action: Action)
    ensures
        action@ == ActionView::RequestPeerApproveRa(
            PeerApproveRaRequestView {
                send_to_actor: MY_ACTOR_NAME@,
                peer_id: peer_id@,
                properties: spec_properties(properties.pairs()),
            },
        ),
{
    Action::RequestPeerApproveRa(
        PeerApproveRaRequest {
            send_to_actor: text(MY_ACTOR_NAME),
            peer_id,
            properties: from_hash_map(properties),
        },
    )
}

/// Begins the invitation of candidate executors: asks the ledger for the
/// first `n` delegates.
pub fn invite_candidate_executors(task_info: &TaskInfo) -> (action: Action)
    ensures
        action@ == ActionView::GetDelegates(
            GetDelegatesRequestView { start: 0, limit: task_info@.exec_info.n as u32 },
        ),
{
    Action::GetDelegates(GetDelegatesRequest { start: 0, limit: task_info.exec_info.n as u32 })
}

/// The profile lookups that follow the ledger's list of delegates: one per
/// delegate, in the list's order.
pub open spec fn spec_delegate_lookups(delegates: Seq<DelegateView>) -> Seq<ActionView> {
    Seq::new(
        delegates.len(),
        |i: int| ActionView::LookupNodeProfileByTeaId { tea_id: delegates[i].tea_id },
    )
}

/// The peer ids of the delegates, in the list's order.
pub open spec fn spec_delegate_peer_ids(delegates: Seq<DelegateView>) -> Seq<Seq<char>> {
    Seq::new(delegates.len(), |i: int| delegates[i].peer_id)
}

/// Continues the invitation of candidate executors with the ledger's
/// answer. Each delegate's node id is to be resolved to a profile, whose
/// peer is then invited; the delegates' peer ids are handed back so that they
/// can be kept out of the search for initial pinners.
pub fn delegates_to_invite(res: &GetDelegatesResponse) -> (r: (Vec<Action>, Vec<String>))
    ensures
        views(r.0@) == spec_delegate_lookups(res@.delegates),
        views(r.1@) == spec_delegate_peer_ids(res@.delegates),
{
    let mut lookups: Vec<Action> = Vec::new();
    let mut peer_ids: Vec<String> = Vec::new();
    let mut i: usize = 0;
    while i < res.delegates.len()
        invariant
            i <= res.delegates@.len(),
            lookups@.len() == i,
            peer_ids@.len() == i,
            forall|j: int|
                0 <= j < i ==> lookups@[j]@ == (ActionView::LookupNodeProfileByTeaId {
                    tea_id: res.delegates@[j].tea_id@,
                }),
            forall|j: int| 0 <= j < i ==> peer_ids@[j]@ == res.delegates@[j].peer_id@,
        decreases res.delegates@.len() - i,
    {
        lookups.push(Action::LookupNodeProfileByTeaId { tea_id: copy_bytes(&res.delegates[i].tea_id) });
        peer_ids.push(res.delegates[i].peer_id.clone());
        i = i + 1;
    }
    assert(views(lookups@) =~= spec_delegate_lookups(res@.delegates));
    assert(views(peer_ids@) =~= spec_delegate_peer_ids(res@.delegates));
    (lookups, peer_ids)
}

} // verus!
