use gluon::delegator::key_gen::candidates::{
    calculate_lucky_number, contains_id, exclude_peers, invite_candidate_initial_pinners,
    random_select_peers, select_initial_pinner_candidates,
};
use gluon::action::Action;
use gluon::common::{ExecutionInfo, TaskInfo};
use gluon::p2p_proto::Msg;

fn byte_peers(rounds: usize) -> Vec<String> {
    let mut peers = Vec::<String>::new();
    for _ in 0..rounds {
        for i in 0..=255u8 {
            peers.push(String::from(i as char));
        }
    }
    peers
}

fn names(list: &[&str]) -> Vec<String> {
    list.iter().map(|s| s.to_string()).collect()
}

#[test]
fn random_select_peers_works() {
    let mut peers = Vec::<String>::new();
    for i in 0..=255u8 {
        peers.push(String::from(i as char));
    }
    let task_id = String::from(0u8 as char);

    // boundary test
    assert_eq!(256, random_select_peers(peers.clone(), 255, &task_id).len());
    assert_eq!(256, random_select_peers(peers.clone(), 1, &task_id).len());

    // normal test
    assert_eq!(128, random_select_peers(peers.clone(), 2, &task_id).len());
    assert_eq!(85, random_select_peers(peers.clone(), 3, &task_id).len());

    // double peers
    for i in 0..=255u8 {
        peers.push(String::from(i as char));
    }
    assert_eq!(512, random_select_peers(peers.clone(), 255, &task_id).len());
    assert_eq!(512, random_select_peers(peers.clone(), 1, &task_id).len());
    assert_eq!(256, random_select_peers(peers.clone(), 2, &task_id).len());
    assert_eq!(170, random_select_peers(peers.clone(), 3, &task_id).len());
}

#[test]
fn select_all_when_fewer_than_two_n() {
    let peers = byte_peers(1);
    let task_id = String::from(0u8 as char);
    let chosen = random_select_peers(peers.clone(), 255, &task_id);
    assert_eq!(chosen, peers);
}

#[test]
fn select_with_n_one_takes_every_peer() {
    let peers = byte_peers(1);
    let task_id = String::from(0u8 as char);
    let chosen = random_select_peers(peers.clone(), 1, &task_id);
    assert_eq!(chosen, peers);
}

#[test]
fn select_with_n_two_takes_the_even_ring() {
    let task_id = String::from(0u8 as char);
    let chosen = random_select_peers(byte_peers(1), 2, &task_id);
    assert_eq!(chosen.len(), 128);
    for id in chosen.iter() {
        assert_eq!(id.as_bytes()[id.len() - 1] % 2, 0);
    }
}

#[test]
fn select_with_n_three_counts() {
    let task_id = String::from(0u8 as char);
    assert_eq!(random_select_peers(byte_peers(1), 3, &task_id).len(), 85);
    assert_eq!(random_select_peers(byte_peers(2), 3, &task_id).len(), 170);
}

#[test]
fn lucky_number_is_last_byte_modulo_n() {
    assert_eq!(calculate_lucky_number(3, "a"), 97 % 3);
    assert_eq!(calculate_lucky_number(7, "peer-x"), b'x' % 7);
    assert_eq!(calculate_lucky_number(1, "anything"), 0);
    assert_eq!(calculate_lucky_number(255, "\u{ff}"), 0xbf);
}

#[test]
fn rings_come_nearest_first_in_input_order() {
    // n = 5, the task's lucky number is b'c' % 5 = 4.
    // a: 97 % 5 = 2, b: 3, c: 4, d: 0, e: 1, f: 2, g: 3, h: 4, i: 0, j: 1
    let peers = names(&["a", "b", "c", "d", "e", "f", "g", "h", "i", "j"]);
    let chosen = random_select_peers(peers, 5, "c");
    // distance 0: c, h; distance 1: b, g; distance 2: a, f; distance 3: e, j;
    // distance 4: d, i. Ten peers are wanted, so every ring is taken.
    assert_eq!(chosen, names(&["c", "h", "b", "g", "a", "f", "e", "j", "d", "i"]));
}

#[test]
fn rings_stop_once_two_n_are_chosen() {
    // n = 2 wants four peers; the lucky number of "b" is 0.
    // b, d, f, h are at distance 0; a, c, e at distance 1.
    let peers = names(&["a", "b", "c", "d", "e", "f", "h"]);
    let chosen = random_select_peers(peers, 2, "b");
    assert_eq!(chosen, names(&["b", "d", "f", "h"]));
}

#[test]
fn a_whole_ring_is_taken_even_beyond_two_n() {
    // n = 1 wants two peers, and every peer is at distance 0.
    let peers = names(&["a", "b", "c", "d", "e"]);
    let chosen = random_select_peers(peers.clone(), 1, "z");
    assert_eq!(chosen, peers);
}

#[test]
fn exclude_peers_keeps_order() {
    let kept = exclude_peers(names(&["a", "b", "c", "b", "d"]), &names(&["b", "x"]));
    assert_eq!(kept, names(&["a", "c", "d"]));
    assert!(contains_id(&names(&["a", "b"]), &"b".to_string()));
    assert!(!contains_id(&names(&["a", "b"]), &"c".to_string()));
}

fn task(n: u8, k: u8, id: &str) -> TaskInfo {
    TaskInfo {
        task_id: id.to_string(),
        exec_info: ExecutionInfo { n, k, task_type: "bitcoin_mainnet".to_string() },
    }
}

#[test]
fn initial_pinner_candidates_are_filtered_and_capped() {
    // n = 1: at most two candidates, the executors' peers left out.
    let info = task(1, 1, "t");
    let chosen = select_initial_pinner_candidates(
        &info,
        &names(&["b"]),
        names(&["a", "b", "c", "d"]),
    );
    assert_eq!(chosen, names(&["a", "c"]));
}

#[test]
fn invitations_go_to_the_chosen_peers() {
    let info = task(1, 1, "t");
    let actions = invite_candidate_initial_pinners(
        info,
        names(&["b"]),
        names(&["a", "b", "c", "d"]),
        &vec![5, 6],
        &vec![1, 1, 1],
    );
    assert_eq!(actions.len(), 2);
    let mut receivers = Vec::new();
    for action in actions {
        match action {
            Action::SendMessage { peer_id, task_id, msg } => {
                assert_eq!(task_id, "t");
                match msg.msg {
                    Some(Msg::KeyGenerationCandidateRequest(req)) => {
                        assert_eq!(req.task_id, "t");
                        assert_eq!(req.n, 1);
                        assert_eq!(req.k, 1);
                        assert_eq!(req.key_type, "bitcoin_mainnet");
                        assert_eq!(req.delegator_ephemeral_id, vec![5, 6]);
                        assert!(!req.executor);
                        assert_eq!(req.signature, vec![1, 1, 1]);
                    }
                    other => panic!("unexpected message {:?}", other),
                }
                receivers.push(peer_id);
            }
            other => panic!("unexpected action {:?}", other),
        }
    }
    assert_eq!(receivers, names(&["a", "c"]));
}

#[test]
fn ids_without_a_byte_are_no_trouble_where_no_choice_is_made() {
    // n = 3 wants six peers; fewer are left, so all of them are taken unread
    let info = task(3, 2, "");
    let chosen = select_initial_pinner_candidates(
        &info,
        &names(&["b"]),
        names(&["a", "", "b", "c"]),
    );
    assert_eq!(chosen, names(&["a", "", "c"]));
    let actions = invite_candidate_initial_pinners(
        info,
        names(&["b"]),
        names(&["a", "", "b", "c"]),
        &vec![],
        &vec![],
    );
    assert_eq!(actions.len(), 3);
}
