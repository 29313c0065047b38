//! The choice of the peers that are invited as initial pinners.
//!
//! Every peer and every task has a lucky number: the last byte of its id,
//! modulo `n`. Peers are invited in rings around the task's lucky number:
//! first those whose lucky number equals it, then those at distance one, and
//! so on, until `2n` peers are found or no peer is left. The choice depends
//! on nothing but the ids.

use vstd::prelude::*;
use vstd::string::*;
use vstd::utf8::encode_utf8;
use crate::action::{Action, ActionView};
use crate::common::key_generation::{send_key_candidate_request, spec_key_candidate_request};
use crate::common::task_info::TaskInfo;
use crate::text::{copy_bytes, views};

verus! {

/// The lucky number of an id: its last byte, modulo `n`.
pub open spec fn lucky_number(n: u8, id: Seq<char>) -> int {
    (encode_utf8(id).last() as int) % (n as int)
}

/// How far the lucky number of `id` lies from `target`.
pub open spec fn distance(n: u8, id: Seq<char>, target: int) -> int {
    if lucky_number(n, id) >= target {
        lucky_number(n, id) - target
    } else {
        target - lucky_number(n, id)
    }
}

/// The ids at distance exactly `d` from `target`, in the order of `ids`.
pub open spec fn ring(ids: Seq<Seq<char>>, n: u8, target: int, d: int) -> Seq<Seq<char>>
    decreases ids.len(),
{
    if ids.len() == 0 {
        Seq::empty()
    } else if distance(n, ids.last(), target) == d {
        ring(ids.drop_last(), n, target, d).push(ids.last())
    } else {
        ring(ids.drop_last(), n, target, d)
    }
}

/// The rings at distance 0 to `d`, nearest first.
pub open spec fn rings(ids: Seq<Seq<char>>, n: u8, target: int, d: int) -> Seq<Seq<char>>
    decreases d + 1,
{
    if d < 0 {
        Seq::empty()
    } else {
        rings(ids, n, target, d - 1) + ring(ids, n, target, d)
    }
}

/// Whether the rings up to `d` hold `2n` ids, or all of them.
pub open spec fn enough(ids: Seq<Seq<char>>, n: u8, target: int, d: int) -> bool {
    rings(ids, n, target, d).len() >= 2 * n || rings(ids, n, target, d).len() == ids.len()
}

/// The least distance from `d` on at which the rings hold enough ids.
pub open spec fn stop_distance(ids: Seq<Seq<char>>, n: u8, target: int, d: int) -> int
    decreases n - d,
{
    if d >= n - 1 || enough(ids, n, target, d) {
        d
    } else {
        stop_distance(ids, n, target, d + 1)
    }
}

/// The peers chosen from `ids` for the task `task_id`: all of them where
/// they are fewer than `2n`, otherwise the rings around the task's lucky
/// number up to the first distance at which they hold `2n` peers or every
/// peer.
pub open spec fn spec_random_select_peers(ids: Seq<Seq<char>>, n: u8, task_id: Seq<char>) -> Seq<
    Seq<char>,
> {
    if ids.len() < 2 * n {
        ids
    } else {
        let target = lucky_number(n, task_id);
        rings(ids, n, target, stop_distance(ids, n, target, 0))
    }
}

/// How many of `ids` lie within distance `d` of `target`.
pub open spec fn count_within(ids: Seq<Seq<char>>, n: u8, target: int, d: int) -> nat
    decreases ids.len(),
{
    if ids.len() == 0 {
        0
    } else if distance(n, ids.last(), target) <= d {
        count_within(ids.drop_last(), n, target, d) + 1
    } else {
        count_within(ids.drop_last(), n, target, d)
    }
}

/// The rings up to `d` hold exactly the ids within distance `d`.
pub proof fn lemma_rings_len(ids: Seq<Seq<char>>, n: u8, target: int, d: int)
    requires
        n > 0,
    ensures
        rings(ids, n, target, d).len() == count_within(ids, n, target, d),
    decreases ids.len(), d + 1,
{
    if d < 0 {
        lemma_none_within(ids, n, target, d);
    } else if ids.len() == 0 {
        lemma_rings_len(ids, n, target, d - 1);
    } else {
        lemma_rings_len(ids, n, target, d - 1);
        lemma_rings_len(ids.drop_last(), n, target, d);
        lemma_rings_len(ids.drop_last(), n, target, d - 1);
        // |rings(ids, d)| = |rings(ids, d - 1)| + |ring(ids, d)|
        // |rings(rest, d)| = |rings(rest, d - 1)| + |ring(rest, d)|
        assert(rings(ids.drop_last(), n, target, d).len() == rings(
            ids.drop_last(),
            n,
            target,
            d - 1,
        ).len() + ring(ids.drop_last(), n, target, d).len());
    }
}

/// No id lies at a negative distance.
pub proof fn lemma_none_within(ids: Seq<Seq<char>>, n: u8, target: int, d: int)
    requires
        d < 0,
    ensures
        count_within(ids, n, target, d) == 0,
    decreases ids.len(),
{
    if ids.len() > 0 {
        lemma_none_within(ids.drop_last(), n, target, d);
    }
}

/// Every id lies within distance `n - 1` of a lucky number.
pub proof fn lemma_all_within(ids: Seq<Seq<char>>, n: u8, target: int, d: int)
    requires
        n > 0,
        0 <= target < n,
        d >= n - 1,
    ensures
        count_within(ids, n, target, d) == ids.len(),
    decreases ids.len(),
{
    if ids.len() > 0 {
        lemma_all_within(ids.drop_last(), n, target, d);
        let l = lucky_number(n, ids.last());
        assert(0 <= l < n);
    }
}

/// The rings never hold more ids than there are.
pub proof fn lemma_count_bound(ids: Seq<Seq<char>>, n: u8, target: int, d: int)
    ensures
        count_within(ids, n, target, d) <= ids.len(),
    decreases ids.len(),
{
    if ids.len() > 0 {
        lemma_count_bound(ids.drop_last(), n, target, d);
    }
}

/// From any distance on, the search stops where the rings hold enough ids,
/// or at distance `n - 1` at the latest.
pub proof fn lemma_stop_distance(ids: Seq<Seq<char>>, n: u8, target: int, d: int)
    requires
        n > 0,
        d <= n - 1,
    ensures
        d <= stop_distance(ids, n, target, d) <= n - 1,
        enough(ids, n, target, stop_distance(ids, n, target, d)) || stop_distance(
            ids,
            n,
            target,
            d,
        ) == n - 1,
    decreases n - d,
{
    if !(d >= n - 1 || enough(ids, n, target, d)) {
        lemma_stop_distance(ids, n, target, d + 1);
    }
}

/// Where there are at least `2n` peers, at least `2n` are chosen.
pub proof fn lemma_enough_are_chosen(ids: Seq<Seq<char>>, n: u8, task_id: Seq<char>)
    requires
        n > 0,
        ids.len() >= 2 * n,
    ensures
        spec_random_select_peers(ids, n, task_id).len() >= 2 * n,
{
    let target = lucky_number(n, task_id);
    let stop = stop_distance(ids, n, target, 0);
    lemma_stop_distance(ids, n, target, 0);
    if !enough(ids, n, target, stop) {
        lemma_rings_len(ids, n, target, stop);
        lemma_all_within(ids, n, target, stop);
    }
}

/// Every id of a ring is one of the given ids.
pub proof fn lemma_ring_of_ids(ids: Seq<Seq<char>>, n: u8, target: int, d: int)
    ensures
        forall|id: Seq<char>| #[trigger] ring(ids, n, target, d).contains(id) ==> ids.contains(id),
    decreases ids.len(),
{
    if ids.len() > 0 {
        let rest = ids.drop_last();
        lemma_ring_of_ids(rest, n, target, d);
        assert forall|id: Seq<char>| #[trigger]
            ring(ids, n, target, d).contains(id) implies ids.contains(id) by {
            let r = ring(ids, n, target, d);
            let i = choose|i: int| 0 <= i < r.len() && r[i] == id;
            if distance(n, ids.last(), target) == d && i == r.len() - 1 {
                assert(ids[ids.len() - 1] == id);
            } else {
                assert(ring(rest, n, target, d)[i] == id);
                assert(ring(rest, n, target, d).contains(id));
                let j = choose|j: int| 0 <= j < rest.len() && rest[j] == id;
                assert(ids[j] == id);
            }
        }
    }
}

/// Every id of the rings is one of the given ids.
pub proof fn lemma_rings_of_ids(ids: Seq<Seq<char>>, n: u8, target: int, d: int)
    ensures
        forall|id: Seq<char>| #[trigger] rings(ids, n, target, d).contains(id) ==> ids.contains(id),
    decreases d + 1,
{
    if d >= 0 {
        lemma_rings_of_ids(ids, n, target, d - 1);
        lemma_ring_of_ids(ids, n, target, d);
        let inner = rings(ids, n, target, d - 1);
        let outer = ring(ids, n, target, d);
        assert forall|id: Seq<char>| #[trigger]
            rings(ids, n, target, d).contains(id) implies ids.contains(id) by {
            let all = rings(ids, n, target, d);
            let i = choose|i: int| 0 <= i < all.len() && all[i] == id;
            if i < inner.len() {
                assert(inner[i] == id);
                assert(inner.contains(id));
            } else {
                assert(outer[i - inner.len()] == id);
                assert(outer.contains(id));
            }
        }
    }
}

/// Every chosen peer is one of the given peers.
pub proof fn lemma_chosen_are_peers(ids: Seq<Seq<char>>, n: u8, task_id: Seq<char>)
    ensures
        forall|id: Seq<char>| #[trigger]
            spec_random_select_peers(ids, n, task_id).contains(id) ==> ids.contains(id),
{
    let target = lucky_number(n, task_id);
    lemma_rings_of_ids(ids, n, target, stop_distance(ids, n, target, 0));
}

/// Computes the lucky number of an id. The id must not be empty and `n`
/// must not be zero.
pub fn calculate_lucky_number(n: u8, id: &str) -> (lucky: u8)
    requires
        n > 0,
        id.spec_bytes().len() > 0,
    ensures
        lucky == lucky_number(n, id@),
        lucky < n,
{
    let bytes = id.as_bytes();
    bytes[bytes.len() - 1] % n
}

/// Whether the lucky numbers that a choice among `ids` needs are defined:
/// the task id and every peer id hold at least one byte.
pub open spec fn selectable(ids: Seq<Seq<char>>, task_id: Seq<char>) -> bool {
    &&& encode_utf8(task_id).len() > 0
    &&& forall|i: int| 0 <= i < ids.len() ==> encode_utf8(#[trigger] ids[i]).len() > 0
}

/// Appends to `candidates` the peers of `ids` at distance exactly `d` from
/// `target`.
fn collect_ring(ids: &Vec<String>, n: u8, target: u8, d: u8, candidates: &mut Vec<String>)
    requires
        n > 0,
        target < n,
        forall|i: int| 0 <= i < ids@.len() ==> encode_utf8(#[trigger] ids@[i]@).len() > 0,
    ensures
        views(final(candidates)@) == views(old(candidates)@) + ring(
            views(ids@),
            n,
            target as int,
            d as int,
        ),
{
    let ghost all = views(ids@);
    let ghost start = views(candidates@);
    let mut i: usize = 0;
    assert(all.take(0) =~= Seq::empty());
    assert(views(candidates@) =~= start + ring(all.take(0), n, target as int, d as int));
    while i < ids.len()
        invariant
            i <= ids@.len(),
            n > 0,
            target < n,
            all == views(ids@),
            forall|j: int| 0 <= j < ids@.len() ==> encode_utf8(#[trigger] ids@[j]@).len() > 0,
            views(candidates@) == start + ring(all.take(i as int), n, target as int, d as int),
        decreases ids@.len() - i,
    {
        assert(encode_utf8(ids@[i as int]@).len() > 0);
        let lucky = calculate_lucky_number(n, ids[i].as_str());
        let apart: u8 = if lucky >= target {
            lucky - target
        } else {
            target - lucky
        };
        let ghost collected = views(candidates@);
        if apart == d {
            candidates.push(ids[i].clone());
            assert(views(candidates@) =~= collected.push(ids@[i as int]@));
        }
        proof {
            let next = all.take(i + 1);
            assert(next.drop_last() =~= all.take(i as int));
            assert(next.last() == ids@[i as int]@);
            assert(apart as int == distance(n, next.last(), target as int));
            assert(views(candidates@) =~= start + ring(next, n, target as int, d as int));
        }
        i = i + 1;
    }
    assert(all.take(ids@.len() as int) =~= all);
}

/// Chooses the peers to invite as initial pinners of a task: all of `ids`
/// where they are fewer than `2n`, otherwise the rings around the task's
/// lucky number, nearest first and each in the order of `ids`, up to the
/// first ring with which `2n` peers or all peers are chosen. A whole ring is
/// chosen at a time, so more than `2n` peers may come back.
///
/// `n` must not be zero; where a choice is made, the task id and the peer
/// ids must not be empty.
pub fn random_select_peers(ids: Vec<String>, n: u8, task_id: &str) -> (chosen: Vec<String>)
    requires
        n > 0,
        ids@.len() >= 2 * n ==> selectable(views(ids@), task_id@),
    ensures
        views(chosen@) == spec_random_select_peers(views(ids@), n, task_id@),
{
    let candidates_count: usize = n as usize * 2;
    if ids.len() < candidates_count {
        return ids;
    }
    let lucky = calculate_lucky_number(n, task_id);
    let ghost all = views(ids@);
    let ghost target = lucky as int;
    assert forall|i: int| 0 <= i < ids@.len() implies encode_utf8(#[trigger] ids@[i]@).len()
        > 0 by {
        assert(all[i] == ids@[i]@);
    }
    let mut distance: u8 = 0;
    let mut candidates_peers: Vec<String> = Vec::new();
    let mut done = false;
    assert(views(candidates_peers@) =~= rings(all, n, target, -1));
    while !done
        invariant
            n > 0,
            lucky < n,
            target == lucky as int,
            all == views(ids@),
            candidates_count == 2 * n,
            forall|i: int| 0 <= i < ids@.len() ==> encode_utf8(#[trigger] ids@[i]@).len() > 0,
            !done ==> distance <= n - 1,
            !done ==> views(candidates_peers@) == rings(all, n, target, distance - 1),
            !done ==> stop_distance(all, n, target, 0) == stop_distance(
                all,
                n,
                target,
                distance as int,
            ),
            done ==> views(candidates_peers@) == rings(
                all,
                n,
                target,
                stop_distance(all, n, target, 0),
            ),
        decreases
                (if done {
                    0
                } else {
                    n - distance + 1
                }),
    {
        collect_ring(&ids, n, lucky, distance, &mut candidates_peers);
        assert(views(candidates_peers@) == rings(all, n, target, distance as int));
        proof {
            lemma_rings_len(all, n, target, distance as int);
            lemma_count_bound(all, n, target, distance as int);
            if distance as int >= n - 1 {
                lemma_all_within(all, n, target, distance as int);
            }
        }
        if candidates_peers.len() >= candidates_count || candidates_peers.len() == ids.len() {
            done = true;
        } else {
            distance = distance + 1;
        }
    }
    candidates_peers
}

/// The peers of `peers` that are not among `excluded`, in their order.
pub open spec fn without(peers: Seq<Seq<char>>, excluded: Seq<Seq<char>>) -> Seq<Seq<char>>
    decreases peers.len(),
{
    if peers.len() == 0 {
        Seq::empty()
    } else if excluded.contains(peers.last()) {
        without(peers.drop_last(), excluded)
    } else {
        without(peers.drop_last(), excluded).push(peers.last())
    }
}

/// The first `limit` of `chosen`, or all of them where they are fewer.
pub open spec fn at_most(chosen: Seq<Seq<char>>, limit: nat) -> Seq<Seq<char>> {
    if chosen.len() <= limit {
        chosen
    } else {
        chosen.take(limit as int)
    }
}

/// The peers that are invited as initial pinners of a task: of the
/// connected peers that are not invited as executors already, the first `2n`
/// that the rings around the task's lucky number give.
pub open spec fn spec_initial_pinner_candidates(
    swarm_peers: Seq<Seq<char>>,
    filter_ids: Seq<Seq<char>>,
    n: u8,
    task_id: Seq<char>,
) -> Seq<Seq<char>> {
    at_most(
        spec_random_select_peers(without(swarm_peers, filter_ids), n, task_id),
        (2 * n) as nat,
    )
}

/// Lucky numbers are read only where a choice is made: where at least `2n`
/// connected peers are left once the excluded ones are dropped. Then the
/// task id and the ids of the peers that are left must hold a byte.
pub open spec fn needs_lucky_numbers(
    swarm_peers: Seq<Seq<char>>,
    filter_ids: Seq<Seq<char>>,
    n: u8,
    task_id: Seq<char>,
) -> bool {
    without(swarm_peers, filter_ids).len() >= 2 * n ==> selectable(
        without(swarm_peers, filter_ids),
        task_id,
    )
}

/// Whether `wanted` is one of `ids`.
pub fn contains_id(ids: &Vec<String>, wanted: &String) -> (found: bool)
    ensures
        found == views(ids@).contains(wanted@),
{
    let mut i: usize = 0;
    while i < ids.len()
        invariant
            i <= ids@.len(),
            forall|j: int| 0 <= j < i ==> views(ids@)[j] != wanted@,
        decreases ids@.len() - i,
    {
        if ids[i] == *wanted {
            assert(views(ids@)[i as int] == wanted@);
            return true;
        }
        i = i + 1;
    }
    false
}

/// Drops from `peers` every peer that is among `excluded`.
pub fn exclude_peers(peers: Vec<String>, excluded: &Vec<String>) -> (kept: Vec<String>)
    ensures
        views(kept@) == without(views(peers@), views(excluded@)),
{
    let ghost all = views(peers@);
    let mut kept: Vec<String> = Vec::new();
    let mut i: usize = 0;
    assert(all.take(0) =~= Seq::empty());
    assert(views(kept@) =~= without(all.take(0), views(excluded@)));
    while i < peers.len()
        invariant
            i <= peers@.len(),
            all == views(peers@),
            views(kept@) == without(all.take(i as int), views(excluded@)),
        decreases peers@.len() - i,
    {
        let ghost before = views(kept@);
        let found = contains_id(excluded, &peers[i]);
        if !found {
            kept.push(peers[i].clone());
            assert(views(kept@) =~= before.push(peers@[i as int]@));
        }
        proof {
            let next = all.take(i + 1);
            assert(next.drop_last() =~= all.take(i as int));
            assert(next.last() == peers@[i as int]@);
        }
        i = i + 1;
    }
    assert(all.take(peers@.len() as int) =~= all);
    kept
}

/// The invitations that go to the chosen peers: one each, in their order.
pub open spec fn spec_invitations(
    chosen: Seq<Seq<char>>,
    task_id: Seq<char>,
    n: u8,
    k: u8,
    key_type: Seq<char>,
    delegator_ephemeral_id: Seq<u8>,
    signature: Seq<u8>,
) -> Seq<ActionView> {
    Seq::new(
        chosen.len(),
        |i: int|
            spec_key_candidate_request(
                chosen[i],
                task_id,
                n,
                k,
                key_type,
                false,
                delegator_ephemeral_id,
                signature,
            ),
    )
}

/// Chooses the peers to invite as initial pinners: of the connected peers
/// `swarm_peers` that are not among `filter_ids`, the first `2n` that
/// [`random_select_peers`] gives.
pub fn select_initial_pinner_candidates(
    task_info: &TaskInfo,
    filter_ids: &Vec<String>,
    swarm_peers: Vec<String>,
) -> (chosen: Vec<String>)
    requires
        task_info.exec_info.n > 0,
        needs_lucky_numbers(
            views(swarm_peers@),
            views(filter_ids@),
            task_info.exec_info.n,
            task_info.task_id@,
        ),
    ensures
        views(chosen@) == spec_initial_pinner_candidates(
            views(swarm_peers@),
            views(filter_ids@),
            task_info.exec_info.n,
            task_info.task_id@,
        ),
{
    let peers = exclude_peers(swarm_peers, filter_ids);
    let mut chosen = random_select_peers(peers, task_info.exec_info.n, task_info.task_id.as_str());
    let limit: usize = task_info.exec_info.n as usize * 2;
    if chosen.len() > limit {
        let ghost full = views(chosen@);
        chosen.truncate(limit);
        assert(views(chosen@) =~= full.take(limit as int));
    }
    chosen
}

/// Whatever is kept was there before, and is not excluded.
pub proof fn lemma_without_keeps(peers: Seq<Seq<char>>, excluded: Seq<Seq<char>>)
    ensures
        forall|id: Seq<char>| #[trigger]
            without(peers, excluded).contains(id) ==> peers.contains(id) && !excluded.contains(id),
    decreases peers.len(),
{
    if peers.len() > 0 {
        let rest = peers.drop_last();
        lemma_without_keeps(rest, excluded);
        assert forall|id: Seq<char>| #[trigger]
            without(peers, excluded).contains(id) implies peers.contains(id) && !excluded.contains(
            id,
        ) by {
            let kept = without(peers, excluded);
            let i = choose|i: int| 0 <= i < kept.len() && kept[i] == id;
            if !excluded.contains(peers.last()) && i == kept.len() - 1 {
                assert(peers[peers.len() - 1] == id);
            } else {
                assert(without(rest, excluded)[i] == id);
                assert(without(rest, excluded).contains(id));
                let j = choose|j: int| 0 <= j < rest.len() && rest[j] == id;
                assert(peers[j] == id);
            }
        }
    }
}

/// Invites the initial-pinner candidates of a task. `filter_ids` are the
/// peers that are invited as executors already, `swarm_peers` the peers this
/// node is connected to, and `signature` the delegator's signature over the
/// invitation of an initial pinner.
pub fn invite_candidate_initial_pinners(
    task_info: TaskInfo,
    filter_ids: Vec<String>,
    swarm_peers: Vec<String>,
    delegator_ephemeral_id: &Vec<u8>,
    signature: &Vec<u8>,
) -> (actions: Vec<Action>)
    requires
        task_info.exec_info.n > 0,
        needs_lucky_numbers(
            views(swarm_peers@),
            views(filter_ids@),
            task_info.exec_info.n,
            task_info.task_id@,
        ),
    ensures
        views(actions@) == spec_invitations(
            spec_initial_pinner_candidates(
                views(swarm_peers@),
                views(filter_ids@),
                task_info.exec_info.n,
                task_info.task_id@,
            ),
            task_info@.task_id,
            task_info@.exec_info.n,
            task_info@.exec_info.k,
            task_info@.exec_info.task_type,
            delegator_ephemeral_id@,
            signature@,
        ),
{
    let chosen = select_initial_pinner_candidates(&task_info, &filter_ids, swarm_peers);
    let mut actions: Vec<Action> = Vec::new();
    let mut i: usize = 0;
    while i < chosen.len()
        invariant
            i <= chosen@.len(),
            actions@.len() == i,
            forall|j: int|
                0 <= j < i ==> actions@[j]@ == spec_key_candidate_request(
                    chosen@[j]@,
                    task_info@.task_id,
                    task_info@.exec_info.n,
                    task_info@.exec_info.k,
                    task_info@.exec_info.task_type,
                    false,
                    delegator_ephemeral_id@,
                    signature@,
                ),
        decreases chosen@.len() - i,
    {
        actions.push(
            send_key_candidate_request(
                chosen[i].as_str(),
                task_info.duplicate(),
                false,
                copy_bytes(delegator_ephemeral_id),
                copy_bytes(signature),
            ),
        );
        i = i + 1;
    }
    assert(views(actions@) =~= spec_invitations(
        views(chosen@),
        task_info@.task_id,
        task_info@.exec_info.n,
        task_info@.exec_info.k,
        task_info@.exec_info.task_type,
        delegator_ephemeral_id@,
        signature@,
    ));
    actions
}

} // verus!
