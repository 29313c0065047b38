use gluon::action::{Action, P2pReplyType, Step};
use gluon::actor_delegate_proto::{
    GetDelegatesRequest, KeyGenerationData, KeyGenerationResponse, UpdateKeyGenerationResult,
};
use gluon::actor_pinner_proto::{ChallengeStoreItem, PropertyKeyPair};
use gluon::common::execution_info::ExecutionInfo;
use gluon::common::task_info::TaskInfo;
use gluon::delegator::admission::{try_to_be_delegator, OpenedNonce};
use gluon::delegator::executor_info::ExecutorInfo;
use gluon::delegator::key_gen::initial_pinner_info::InitialPinnerInfo;
use gluon::delegator::key_gen::observers::client_observer::{
    on_executor_ra_success, on_initial_pinner_ra_success, ra_task_id,
};
use gluon::delegator::key_gen::observers::tag_for_key_gen;
use gluon::delegator::key_gen::ra::{is_executor_ra_response, is_initial_pinner_ra_response};
use gluon::delegator::key_gen::store_item::{
    get_task_store_item_key, DelegatorKeyGenStoreItem, StoreItemState,
};
use gluon::delegator::key_gen::ra::attest_candidate;
use gluon::delegator::key_gen::{
    accept_task, close_p2p_connections, elect_and_dispatch, on_candidate_timeout,
    record_execution_result, share_key_slices, try_send_to_executor, ExecutorRequestConstructor,
    TaskCandidates, TimeoutPolicy,
};
use gluon::delegator::{
    is_key_gen_tag, key_gen_operation_after_verify_handler, task_execution_response_handler,
    task_key_generation_apply_request_handler, task_pinner_key_slice_response_handler,
};
use gluon::error::Error;
use gluon::p2p_proto::{
    GeneralMsg, Msg, TaskExecutionInitialPinnerData, TaskExecutionRequest, TaskExecutionResponse,
    TaskKeyGenerationApplyRequest, TaskPinnerKeySliceRequest, TaskPinnerKeySliceResponse,
    TaskResultInitialPinnerData,
};
use gluon::portal::key_generation_request_handler;
use gluon::table::Table;

fn event(n: u32, k: u32) -> KeyGenerationResponse {
    KeyGenerationResponse {
        task_id: vec![1, 2, 3],
        data_adhoc: KeyGenerationData {
            n,
            k,
            key_type: "bitcoin_mainnet".to_string(),
            delegator_tea_nonce_hash: vec![0xaa, 0xbb],
            delegator_tea_nonce_rsa_encryption: vec![0x10, 0x20],
        },
        p1_public_key: vec![7, 7],
    }
}

fn opened() -> OpenedNonce {
    OpenedNonce { nonce: vec![42], digest: vec![0xaa, 0xbb] }
}

fn accepted(n: u32, k: u32) -> DelegatorKeyGenStoreItem {
    key_generation_request_handler(true, event(n, k), Some(opened())).unwrap().item.unwrap()
}

fn executor(name: &str) -> ExecutorInfo {
    ExecutorInfo { peer_id: name.to_string(), rsa_pub_key: name.as_bytes().to_vec() }
}

fn pinner(name: &str) -> InitialPinnerInfo {
    InitialPinnerInfo { peer_id: name.to_string(), rsa_pub_key: name.as_bytes().to_vec() }
}

fn pinner_names(item: &DelegatorKeyGenStoreItem) -> Vec<String> {
    item.initial_pinners.iter().map(|p| p.peer_id.clone()).collect()
}

#[test]
fn the_addressed_delegator_accepts_the_task() {
    let step = key_generation_request_handler(true, event(3, 2), Some(opened())).unwrap();
    assert_eq!(
        step.actions,
        vec![Action::GetDelegates(GetDelegatesRequest { start: 0, limit: 3 })]
    );
    let item = step.item.unwrap();
    assert_eq!(item.state, StoreItemState::InvitedCandidates);
    assert_eq!(item.nonce, vec![42]);
    assert_eq!(
        item.task_info,
        TaskInfo {
            task_id: "AQID".to_string(),
            exec_info: ExecutionInfo { n: 3, k: 2, task_type: "bitcoin_mainnet".to_string() },
        }
    );
    assert_eq!(item.p1_public_key, vec![7, 7]);
    assert_eq!(item.executor, None);
    assert!(item.initial_pinners.is_empty());
    assert!(item.candidate_executors.is_empty());
    assert!(item.candidate_initial_pinners.is_empty());
    assert_eq!(item.p2_public_key, None);
    assert_eq!(item.multi_sig_account, None);
    assert_eq!(item.initial_pinner_responses.len(), 0);
}

#[test]
fn a_node_that_cannot_open_the_nonce_keeps_nothing() {
    let step = key_generation_request_handler(true, event(3, 2), None).unwrap();
    assert_eq!(step, Step { item: None, actions: vec![] });
}

#[test]
fn a_node_whose_digest_differs_keeps_nothing() {
    let wrong = OpenedNonce { nonce: vec![42], digest: vec![0xaa, 0xbc] };
    let step = key_generation_request_handler(true, event(3, 2), Some(wrong)).unwrap();
    assert_eq!(step, Step { item: None, actions: vec![] });
}

#[test]
fn a_node_that_is_not_ready_keeps_nothing() {
    let step = key_generation_request_handler(false, event(3, 2), Some(opened())).unwrap();
    assert_eq!(step, Step { item: None, actions: vec![] });
}

#[test]
fn admission_needs_the_announced_digest() {
    assert_eq!(try_to_be_delegator(Some(opened()), &vec![0xaa, 0xbb]), Some(vec![42]));
    assert_eq!(try_to_be_delegator(Some(opened()), &vec![0xaa]), None);
    assert_eq!(try_to_be_delegator(Some(opened()), &vec![0xaa, 0xbb, 0]), None);
    assert_eq!(try_to_be_delegator(None, &vec![0xaa, 0xbb]), None);
}

#[test]
fn an_announcement_with_invalid_parameters_is_refused() {
    assert_eq!(
        key_generation_request_handler(true, event(0, 0), Some(opened())),
        Err(Error::InvalidN)
    );
    assert_eq!(
        key_generation_request_handler(true, event(3, 3), Some(opened())),
        Err(Error::InvalidK)
    );
    assert_eq!(
        DelegatorKeyGenStoreItem::from_key_generation_event(event(3, 0)),
        Err(Error::InvalidK)
    );
}

#[test]
fn item_from_event_starts_in_init() {
    let item = DelegatorKeyGenStoreItem::from_key_generation_event(event(3, 2)).unwrap();
    assert_eq!(item.state, StoreItemState::Init);
    assert_eq!(item.task_info.task_id, "AQID");
    assert!(item.nonce.is_empty());
}

#[test]
fn store_key_of_the_item() {
    assert_eq!(get_task_store_item_key("AQID"), "delegator_task_key_gen_store_item_AQID");
}

fn apply(executor: bool) -> TaskKeyGenerationApplyRequest {
    TaskKeyGenerationApplyRequest {
        task_id: "AQID".to_string(),
        rsa_pub_key: vec![1, 2, 3],
        cap_desc: None,
        apply_executor: executor,
    }
}

fn property(key: &str, value: &str) -> PropertyKeyPair {
    PropertyKeyPair { key: key.to_string(), value: value.to_string() }
}

#[test]
fn an_executor_application_is_acknowledged_and_attested() {
    let actions = task_key_generation_apply_request_handler(apply(true), "E", "inbox");
    assert_eq!(actions.len(), 2);
    assert_eq!(
        actions[0],
        Action::Reply {
            reply_to: "inbox".to_string(),
            body: "key generation to ra executor sent".to_string()
        }
    );
    match &actions[1] {
        Action::RequestPeerApproveRa(req) => {
            assert_eq!(req.send_to_actor, "gluon");
            assert_eq!(req.peer_id, "E");
            assert_eq!(
                req.properties,
                vec![
                    property("task_id", "AQID"),
                    property("rsa_pub_key", "AQID"),
                    property("delegator_ra_target_role", "executor"),
                    property("task_delegator_key_gen_flag", "tea_gluon"),
                ]
            );
        }
        other => panic!("unexpected action {:?}", other),
    }
}

#[test]
fn an_initial_pinner_application_is_acknowledged_and_attested() {
    let actions = task_key_generation_apply_request_handler(apply(false), "P", "inbox");
    assert_eq!(
        actions[0],
        Action::Reply {
            reply_to: "inbox".to_string(),
            body: "key generation to ra initial pinner sent".to_string()
        }
    );
    match &actions[1] {
        Action::RequestPeerApproveRa(req) => {
            assert_eq!(req.peer_id, "P");
            assert_eq!(req.properties[2], property("delegator_ra_target_role", "initial_pinner"));
        }
        other => panic!("unexpected action {:?}", other),
    }
}

fn attested(role: &str, key_text: &str) -> ChallengeStoreItem {
    ChallengeStoreItem {
        uuid: "u-1".to_string(),
        properties: vec![
            property("task_id", "AQID"),
            property("rsa_pub_key", key_text),
            property("delegator_ra_target_role", role),
            property("task_delegator_key_gen_flag", "tea_gluon"),
        ],
    }
}

#[test]
fn attestation_results_are_told_apart() {
    assert!(is_key_gen_tag(&attested("executor", "AQID")));
    assert!(is_executor_ra_response(&attested("executor", "AQID")));
    assert!(!is_initial_pinner_ra_response(&attested("executor", "AQID")));
    assert!(is_initial_pinner_ra_response(&attested("initial_pinner", "AQID")));
    assert!(!is_executor_ra_response(&attested("initial_pinner", "AQID")));
    let untagged = ChallengeStoreItem { uuid: "u".to_string(), properties: vec![] };
    assert!(!is_key_gen_tag(&untagged));
    assert!(!is_executor_ra_response(&untagged));
    assert!(!is_initial_pinner_ra_response(&untagged));
    let foreign = ChallengeStoreItem {
        uuid: "u".to_string(),
        properties: vec![property("task_delegator_key_gen_flag", "other")],
    };
    assert!(!is_key_gen_tag(&foreign));
    assert_eq!(ra_task_id(&attested("executor", "AQID")), Ok("AQID".to_string()));
    assert_eq!(ra_task_id(&untagged), Err(Error::MissingTaskId));
}

#[test]
fn tagging_a_bag_sets_the_flag() {
    let mut bag: Table<String> = Table::new();
    tag_for_key_gen(&mut bag);
    assert_eq!(bag.len(), 1);
    assert_eq!(bag.key_at(0), "task_delegator_key_gen_flag");
    assert_eq!(bag.value_at(0), "tea_gluon");
}

#[test]
fn an_attested_executor_joins_the_pool_with_its_decoded_key() {
    let step = key_gen_operation_after_verify_handler(
        Some(accepted(3, 2)),
        "E".to_string(),
        vec![],
        &attested("executor", "AQID"),
    )
    .unwrap();
    assert!(step.actions.is_empty());
    let item = step.item.unwrap();
    assert_eq!(
        item.candidate_executors,
        vec![ExecutorInfo { peer_id: "E".to_string(), rsa_pub_key: vec![1, 2, 3] }]
    );
    assert!(item.candidate_initial_pinners.is_empty());
    assert_eq!(item.state, StoreItemState::InvitedCandidates);
}

#[test]
fn an_attested_initial_pinner_joins_its_pool() {
    let step = key_gen_operation_after_verify_handler(
        Some(accepted(3, 2)),
        "P".to_string(),
        vec![],
        &attested("initial_pinner", "aGVsbG8gd29ybGQ="),
    )
    .unwrap();
    let item = step.item.unwrap();
    assert_eq!(
        item.candidate_initial_pinners,
        vec![InitialPinnerInfo { peer_id: "P".to_string(), rsa_pub_key: b"hello world".to_vec() }]
    );
    assert!(item.candidate_executors.is_empty());
}

#[test]
fn attestation_results_must_be_complete() {
    let no_task = ChallengeStoreItem {
        uuid: "u".to_string(),
        properties: vec![property("rsa_pub_key", "AQID")],
    };
    assert_eq!(
        key_gen_operation_after_verify_handler(Some(accepted(3, 2)), "E".to_string(), vec![], &no_task),
        Err(Error::MissingTaskId)
    );
    let no_key = ChallengeStoreItem {
        uuid: "u".to_string(),
        properties: vec![property("task_id", "AQID")],
    };
    assert_eq!(
        key_gen_operation_after_verify_handler(Some(accepted(3, 2)), "E".to_string(), vec![], &no_key),
        Err(Error::MissingRsaPublicKey)
    );
    assert_eq!(
        key_gen_operation_after_verify_handler(
            Some(accepted(3, 2)),
            "E".to_string(),
            vec![],
            &attested("executor", "not base64!")
        ),
        Err(Error::InvalidEncoding)
    );
    assert_eq!(
        key_gen_operation_after_verify_handler(None, "E".to_string(), vec![], &attested("executor", "AQID")),
        Err(Error::TaskNotFound)
    );
}

#[test]
fn an_attestation_for_no_role_is_ignored() {
    let step = key_gen_operation_after_verify_handler(
        Some(accepted(3, 2)),
        "E".to_string(),
        vec![],
        &attested("bystander", "AQID"),
    )
    .unwrap();
    assert_eq!(step, Step { item: None, actions: vec![] });
}

#[test]
fn late_candidates_are_ignored() {
    let mut item = accepted(3, 2);
    item.state = StoreItemState::SentToExecutor;
    let step = on_executor_ra_success(Some(item.clone()), "E", vec![1]).unwrap();
    assert_eq!(step, Step { item: None, actions: vec![] });
    let step = on_initial_pinner_ra_success(Some(item), "P", vec![1]).unwrap();
    assert_eq!(step, Step { item: None, actions: vec![] });
    assert_eq!(on_executor_ra_success(None, "E", vec![1]), Err(Error::TaskNotFound));
    assert_eq!(on_initial_pinner_ra_success(None, "P", vec![1]), Err(Error::TaskNotFound));
}

#[test]
fn readiness_needs_more_than_n_plus_one_candidates() {
    // n = 2: more than three candidates are needed, one of them an executor.
    let mut item = accepted(2, 1);
    assert!(!item.candidates_ready());
    item.insert_executor(executor("E1"));
    item.insert_initial_pinner(pinner("pin1"));
    assert!(!item.candidates_ready());
    item.insert_initial_pinner(pinner("pin2"));
    assert!(!item.candidates_ready());
    item.insert_initial_pinner(pinner("pin3"));
    assert!(item.candidates_ready());
    assert!(TaskCandidates::ready(&item));
}

#[test]
fn readiness_with_two_executors_and_slow_pinners() {
    let mut item = accepted(2, 1);
    item.insert_executor(executor("E1"));
    item.insert_executor(executor("E2"));
    item.insert_initial_pinner(pinner("pin1"));
    // three candidates do not exceed n + 1 = 3
    assert!(!item.candidates_ready());
    item.insert_initial_pinner(pinner("pin2"));
    assert!(item.candidates_ready());
}

#[test]
fn readiness_needs_an_executor() {
    let mut item = accepted(2, 1);
    for name in ["pin1", "pin2", "pin3", "pin4", "pin5"] {
        item.insert_initial_pinner(pinner(name));
    }
    assert!(!item.candidates_ready());
    item.insert_executor(executor("E1"));
    assert!(item.candidates_ready());
}

#[test]
fn election_takes_the_last_executor_and_n_pinners() {
    let mut item = accepted(3, 2);
    item.insert_executor(executor("E1"));
    item.insert_executor(executor("E2"));
    for name in ["pin1", "pin2", "pin3", "pin4"] {
        item.insert_initial_pinner(pinner(name));
    }
    assert_eq!(item.elect(), Ok(()));
    assert_eq!(item.executor, Some(executor("E2")));
    assert_eq!(pinner_names(&item), vec!["pin4", "pin3", "pin2"]);
    assert_eq!(item.candidate_initial_pinners, vec![pinner("pin1")]);
    assert_eq!(item.candidate_executors, vec![executor("E1")]);
    assert!(item.request_ready());
    assert!(ExecutorRequestConstructor::ready(&item));
    for p in item.initial_pinners.iter() {
        assert_ne!(p.peer_id, item.executor.as_ref().unwrap().peer_id);
    }
}

#[test]
fn election_promotes_executors_when_pinners_run_short() {
    let mut item = accepted(3, 2);
    for name in ["E1", "E2", "E3", "E4"] {
        item.insert_executor(executor(name));
    }
    item.insert_initial_pinner(pinner("pin1"));
    assert!(item.candidates_ready());
    assert_eq!(item.elect(), Ok(()));
    assert_eq!(item.executor, Some(executor("E4")));
    assert_eq!(pinner_names(&item), vec!["pin1", "E3", "E2"]);
    assert_eq!(item.initial_pinners[1].rsa_pub_key, b"E3".to_vec());
    assert_eq!(item.candidate_executors, vec![executor("E1")]);
    assert!(item.candidate_initial_pinners.is_empty());
}

#[test]
fn election_without_an_executor_changes_nothing() {
    let mut item = accepted(3, 2);
    item.insert_initial_pinner(pinner("pin1"));
    let before = item.clone();
    assert_eq!(item.elect(), Err(Error::NoCandidateExecutor));
    assert_eq!(item, before);
    assert_eq!(item.select_executor(), Err(Error::NoCandidateExecutor));
}

#[test]
fn election_stops_when_the_pools_are_empty() {
    let mut item = accepted(3, 2);
    item.insert_executor(executor("E1"));
    item.insert_initial_pinner(pinner("pin1"));
    assert_eq!(item.elect(), Ok(()));
    assert_eq!(item.executor, Some(executor("E1")));
    assert_eq!(pinner_names(&item), vec!["pin1"]);
    assert!(!item.request_ready());
    assert_eq!(try_send_to_executor(item.clone()).unwrap().actions, vec![]);
}

#[test]
fn an_election_that_cannot_complete_is_an_error() {
    // four pinners are elected already, one more than n
    let mut item = accepted(3, 2);
    for name in ["old1", "old2", "old3", "old4"] {
        item.initial_pinners.push(pinner(name));
    }
    item.insert_executor(executor("E1"));
    for name in ["pin1", "pin2", "pin3", "pin4"] {
        item.insert_initial_pinner(pinner(name));
    }
    assert_eq!(try_send_to_executor(item), Err(Error::NotElected));
}

fn elected_item() -> (DelegatorKeyGenStoreItem, Vec<Action>) {
    let mut stored = accepted(3, 2);
    let step = on_executor_ra_success(Some(stored), "E", b"E".to_vec()).unwrap();
    assert!(step.actions.is_empty());
    stored = step.item.unwrap();
    for name in ["pin1", "pin2", "pin3"] {
        let step = on_initial_pinner_ra_success(Some(stored), name, name.as_bytes().to_vec()).unwrap();
        assert!(step.actions.is_empty());
        stored = step.item.unwrap();
        assert_eq!(stored.state, StoreItemState::InvitedCandidates);
    }
    let step = on_initial_pinner_ra_success(Some(stored), "pin4", b"pin4".to_vec()).unwrap();
    (step.item.unwrap(), step.actions)
}

#[test]
fn the_last_candidate_triggers_election_and_dispatch() {
    let (item, actions) = elected_item();
    assert_eq!(item.state, StoreItemState::SentToExecutor);
    assert_eq!(item.executor, Some(executor("E")));
    assert_eq!(pinner_names(&item), vec!["pin4", "pin3", "pin2"]);
    assert_eq!(item.initial_pinners.len(), item.task_info.exec_info.n as usize);
    let expected = TaskExecutionRequest {
        task_id: "AQID".to_string(),
        initial_pinners: vec![
            TaskExecutionInitialPinnerData { peer_id: "pin4".to_string(), rsa_pub_key: b"pin4".to_vec() },
            TaskExecutionInitialPinnerData { peer_id: "pin3".to_string(), rsa_pub_key: b"pin3".to_vec() },
            TaskExecutionInitialPinnerData { peer_id: "pin2".to_string(), rsa_pub_key: b"pin2".to_vec() },
        ],
        minimum_recovery_number: 2,
        key_type: "bitcoin_mainnet".to_string(),
        p1_public_key: vec![7, 7],
    };
    assert_eq!(item.generate(), Ok(expected.clone()));
    assert_eq!(
        actions,
        vec![Action::SendMessage {
            peer_id: "E".to_string(),
            task_id: "AQID".to_string(),
            msg: GeneralMsg { msg: Some(Msg::TaskExecutionRequest(expected)) },
        }]
    );
}

fn execution_response() -> TaskExecutionResponse {
    TaskExecutionResponse {
        task_id: "AQID".to_string(),
        initial_pinners: vec![
            TaskResultInitialPinnerData { peer_id: "pin4".to_string(), encrypted_key_slice: vec![4] },
            TaskResultInitialPinnerData { peer_id: "pin3".to_string(), encrypted_key_slice: vec![3] },
            TaskResultInitialPinnerData { peer_id: "pin2".to_string(), encrypted_key_slice: vec![2] },
        ],
        p2_public_key: vec![0x22],
        multi_sig_account: vec![0x33, 0x34],
    }
}

fn slice_request(peer: &str, slice: u8) -> Action {
    Action::SendMessage {
        peer_id: peer.to_string(),
        task_id: "AQID".to_string(),
        msg: GeneralMsg {
            msg: Some(Msg::TaskPinnerKeySliceRequest(TaskPinnerKeySliceRequest {
                task_id: "AQID".to_string(),
                public_key: vec![0x22],
                encrypted_key_slice: vec![slice],
                multi_sig_account: vec![0x33, 0x34],
            })),
        },
    }
}

fn receipt(deployment: &str) -> TaskPinnerKeySliceResponse {
    TaskPinnerKeySliceResponse { task_id: "AQID".to_string(), deployment_id: deployment.to_string() }
}

#[test]
fn happy_path_key_generation() {
    let (item, _) = elected_item();

    // the executor's response fans out to the three initial pinners
    let step = task_execution_response_handler(Some(item), execution_response(), "E", "inbox-e");
    assert_eq!(
        step.actions,
        vec![
            slice_request("pin4", 4),
            slice_request("pin3", 3),
            slice_request("pin2", 2),
            Action::Reply {
                reply_to: "inbox-e".to_string(),
                body: "received task response".to_string()
            },
        ]
    );
    let item = step.item.unwrap();
    assert_eq!(item.state, StoreItemState::SentToInitialPinner);
    assert_eq!(item.p2_public_key, Some(vec![0x22]));
    assert_eq!(item.multi_sig_account, Some(vec![0x33, 0x34]));
    assert_eq!(item.initial_pinner_responses.len(), 3);
    assert!(!item.is_all_initial_pinners_ready());
    assert_eq!(item.update_key_generation_result(), Err(Error::ResultIncomplete));

    // the receipts arrive in another order
    let step = task_pinner_key_slice_response_handler(Some(item), receipt("d3"), "pin3", "inbox-3").unwrap();
    assert_eq!(
        step.actions,
        vec![Action::Reply {
            reply_to: "inbox-3".to_string(),
            body: "received initial pinner key slice response".to_string()
        }]
    );
    let item = step.item.unwrap();
    assert_eq!(item.state, StoreItemState::SentToInitialPinner);

    let step = task_pinner_key_slice_response_handler(Some(item), receipt("d2"), "pin2", "inbox-2").unwrap();
    let item = step.item.unwrap();
    assert!(!item.is_all_initial_pinners_ready());

    let step = task_pinner_key_slice_response_handler(Some(item), receipt("d4"), "pin4", "inbox-4").unwrap();
    assert_eq!(
        step.actions,
        vec![Action::UpdateGenerateKeyResult(UpdateKeyGenerationResult {
            task_id: "AQID".to_string(),
            multi_sig_account: vec![0x33, 0x34],
            p2_public_key: vec![0x22],
            deployment_ids: vec!["d4".to_string(), "d3".to_string(), "d2".to_string()],
        })]
    );
    let item = step.item.unwrap();
    assert_eq!(item.state, StoreItemState::ReceivedAllPinnerResponse);
    assert!(item.is_all_initial_pinners_ready());

    // once the ledger has the result, the connections are closed
    assert_eq!(
        close_p2p_connections(&item),
        vec![
            Action::CloseP2p { peer_id: "pin4".to_string() },
            Action::CloseP2p { peer_id: "pin3".to_string() },
            Action::CloseP2p { peer_id: "pin2".to_string() },
            Action::CloseP2p { peer_id: "E".to_string() },
        ]
    );
}

#[test]
fn a_receipt_from_a_stranger_is_rejected() {
    let (item, _) = elected_item();
    let item = task_execution_response_handler(Some(item), execution_response(), "E", "inbox")
        .item
        .unwrap();
    let step = task_pinner_key_slice_response_handler(Some(item), receipt("dx"), "pinX", "inbox-x").unwrap();
    assert_eq!(step.item, None);
    assert_eq!(
        step.actions,
        vec![Action::Respond {
            reply_to: "inbox-x".to_string(),
            peer_id: "pinX".to_string(),
            task_id: "AQID".to_string(),
            message: "failed to get initial pinner's (peer id is pinX) info with task_id of AQID"
                .to_string(),
            reply_type: P2pReplyType::Rejected,
        }]
    );
}

#[test]
fn responses_for_an_unknown_task_get_an_error_reply() {
    let missing = Action::Respond {
        reply_to: "inbox".to_string(),
        peer_id: "E".to_string(),
        task_id: "AQID".to_string(),
        message: "failed to get DelegatorStoreItem with task_id AQID, details: can not find task AQID"
            .to_string(),
        reply_type: P2pReplyType::Error,
    };
    let step = task_execution_response_handler(None, execution_response(), "E", "inbox");
    assert_eq!(step, Step { item: None, actions: vec![missing.clone()] });
    let step = task_pinner_key_slice_response_handler(None, receipt("d"), "E", "inbox").unwrap();
    assert_eq!(step, Step { item: None, actions: vec![missing] });
}

#[test]
fn a_second_receipt_of_a_pinner_replaces_the_first() {
    let (item, _) = elected_item();
    let item = task_execution_response_handler(Some(item), execution_response(), "E", "inbox")
        .item
        .unwrap();
    let item = task_pinner_key_slice_response_handler(Some(item), receipt("d3"), "pin3", "i")
        .unwrap()
        .item
        .unwrap();
    let item = task_pinner_key_slice_response_handler(Some(item), receipt("d3b"), "pin3", "i")
        .unwrap()
        .item
        .unwrap();
    assert_eq!(item.initial_pinner_responses.len(), 3);
    let i = item.initial_pinner_responses.find("pin3").unwrap();
    assert_eq!(item.initial_pinner_responses.value_at(i), &Some("d3b".to_string()));
}

#[test]
fn a_timeout_gives_the_task_up_or_elects_from_what_is_there() {
    // n = 3: one executor and three pinners fill every role, but are not "ready"
    let mut item = accepted(3, 2);
    item.insert_executor(executor("E"));
    for name in ["pin1", "pin2", "pin3"] {
        item.insert_initial_pinner(pinner(name));
    }
    assert!(!item.candidates_ready());
    assert_eq!(
        on_candidate_timeout(Some(item.clone()), TimeoutPolicy::Fail),
        Err(Error::CandidateTimeout)
    );
    let step = on_candidate_timeout(Some(item.clone()), TimeoutPolicy::Proceed).unwrap();
    let elected = step.item.unwrap();
    assert_eq!(elected.state, StoreItemState::SentToExecutor);
    assert_eq!(elected.executor, Some(executor("E")));
    assert_eq!(pinner_names(&elected), vec!["pin3", "pin2", "pin1"]);
    assert_eq!(step.actions.len(), 1);
    assert_eq!(elect_and_dispatch(item).unwrap().item, Some(elected.clone()));

    // a task that was dispatched in time is left alone
    assert_eq!(
        on_candidate_timeout(Some(elected), TimeoutPolicy::Fail),
        Ok(Step { item: None, actions: vec![] })
    );
    assert_eq!(on_candidate_timeout(None, TimeoutPolicy::Proceed), Err(Error::TaskNotFound));
}

#[test]
fn a_timeout_with_too_few_candidates_fails_either_way() {
    let mut item = accepted(3, 2);
    item.insert_initial_pinner(pinner("pin1"));
    assert_eq!(
        on_candidate_timeout(Some(item.clone()), TimeoutPolicy::Proceed),
        Err(Error::NoCandidateExecutor)
    );
    item.insert_executor(executor("E"));
    assert_eq!(
        on_candidate_timeout(Some(item), TimeoutPolicy::Proceed),
        Err(Error::NotElected)
    );
}

#[test]
fn a_task_is_accepted_with_its_nonce() {
    let task = TaskInfo {
        task_id: "t-9".to_string(),
        exec_info: ExecutionInfo { n: 5, k: 3, task_type: "x".to_string() },
    };
    let step = accept_task(task.clone(), vec![1], vec![2, 3]);
    assert_eq!(
        step.actions,
        vec![Action::GetDelegates(GetDelegatesRequest { start: 0, limit: 5 })]
    );
    let item = step.item.unwrap();
    assert_eq!(item.task_info, task);
    assert_eq!(item.p1_public_key, vec![1]);
    assert_eq!(item.nonce, vec![2, 3]);
    assert_eq!(item.state, StoreItemState::InvitedCandidates);
}

#[test]
fn a_candidate_is_attested_with_the_given_key_text() {
    let actions = attest_candidate(
        "t-9".to_string(),
        "a2V5".to_string(),
        "peer".to_string(),
        "inbox".to_string(),
        "noted",
        "executor",
    );
    assert_eq!(
        actions[0],
        Action::Reply { reply_to: "inbox".to_string(), body: "noted".to_string() }
    );
    match &actions[1] {
        Action::RequestPeerApproveRa(req) => {
            assert_eq!(req.peer_id, "peer");
            assert_eq!(
                req.properties,
                vec![
                    property("task_id", "t-9"),
                    property("rsa_pub_key", "a2V5"),
                    property("delegator_ra_target_role", "executor"),
                    property("task_delegator_key_gen_flag", "tea_gluon"),
                ]
            );
        }
        other => panic!("unexpected action {:?}", other),
    }
}

#[test]
fn the_execution_result_is_recorded_before_the_slices_go_out() {
    let (item, _) = elected_item();
    let recorded = record_execution_result(item.clone(), &execution_response());
    assert_eq!(recorded.state, StoreItemState::ReceivedExecutionResult);
    assert_eq!(recorded.p2_public_key, Some(vec![0x22]));
    assert_eq!(recorded.multi_sig_account, Some(vec![0x33, 0x34]));
    assert_eq!(recorded.initial_pinner_responses.len(), 0);

    let step = share_key_slices(recorded, &execution_response(), "inbox-e");
    assert_eq!(
        step,
        task_execution_response_handler(Some(item), execution_response(), "E", "inbox-e")
    );
    assert_eq!(step.item.unwrap().state, StoreItemState::SentToInitialPinner);
    assert_eq!(step.actions.len(), 4);
}
