use gluon::action::{Action, P2pReplyType, Step};
use gluon::actor_delegate_proto::{
    GetDelegatesRequest, GetDeploymentIds, SignTransactionData, SignTransactionResponse,
};
use gluon::actor_pinner_proto::{
    ChallengeStoreItem, FindPinnersRequest, FindingMode, PropertyKeyPair,
};
use gluon::common::execution_info::ExecutionInfo;
use gluon::delegator::admission::OpenedNonce;
use gluon::delegator::executor_info::ExecutorInfo;
use gluon::delegator::sign::observers::client_observer::{
    on_executor_ra_success, on_pinner_ra_success, ra_task_id, send_get_pinner_key_slice_request,
};
use gluon::delegator::sign::observers::tag_for_sign;
use gluon::delegator::sign::ra::{
    attest_executor, generate_pinner_ra_properties, is_executor_ra_response,
    is_pinner_ra_response,
};
use gluon::delegator::sign::store_item::{
    get_task_store_item_key, DelegatorSignStoreItem, KeySliceInfo, StoreItemState,
};
use gluon::delegator::sign::{
    begin_find_pinners, find_deployments, set_up_task, sign_candidate_request,
    try_send_to_executor,
};
use gluon::delegator::{
    is_sign_tag, process_sign_with_key_slices_event, sign_operation_after_verify_handler,
    task_commit_sign_result_request_handler, task_sign_get_pinner_key_slice_response_handler,
    task_sign_with_key_slices_request_handler,
};
use gluon::error::Error;
use gluon::p2p_proto::{
    GeneralMsg, Msg, SignCandidateRequest, TaskCommitSignResultRequest,
    TaskSignGetPinnerKeySliceRequest, TaskSignGetPinnerKeySliceResponse,
    TaskSignWithKeySlicesRequest, TaskSignWithKeySlicesResponse,
};
use gluon::portal::sign_with_key_slices_handler;
use gluon::table::Table;

fn event() -> SignTransactionResponse {
    SignTransactionResponse {
        task_id: vec![1, 2, 3],
        data_adhoc: SignTransactionData {
            transaction_data: b"hello world!".to_vec(),
            delegator_tea_nonce_hash: vec![0xaa],
            delegator_tea_nonce_rsa_encryption: vec![0x10],
        },
        p1_signature: vec![0x51],
        multi_sig_account: vec![0x33],
    }
}

fn parameters() -> ExecutionInfo {
    ExecutionInfo { n: 3, k: 2, task_type: "bitcoin_mainnet".to_string() }
}

fn ids(list: &[&str]) -> Vec<String> {
    list.iter().map(|s| s.to_string()).collect()
}

fn set_up() -> DelegatorSignStoreItem {
    process_sign_with_key_slices_event(event(), vec![42], parameters(), &ids(&["d1", "d2", "d3"]))
        .unwrap()
        .item
        .unwrap()
}

fn property(key: &str, value: &str) -> PropertyKeyPair {
    PropertyKeyPair { key: key.to_string(), value: value.to_string() }
}

fn slice_response(deployment: &str, slice: u8) -> TaskSignGetPinnerKeySliceResponse {
    TaskSignGetPinnerKeySliceResponse {
        task_id: "AQID".to_string(),
        encrypted_key_slice: vec![slice],
        deployment_id: deployment.to_string(),
    }
}

fn fetch(peer: &str, deployment: &str) -> Action {
    Action::SendMessage {
        peer_id: peer.to_string(),
        task_id: "AQID".to_string(),
        msg: GeneralMsg {
            msg: Some(Msg::TaskSignGetPinnerKeySliceRequest(TaskSignGetPinnerKeySliceRequest {
                task_id: "AQID".to_string(),
                rsa_pub_key: vec![0xe, 0xe],
                deployment_id: deployment.to_string(),
            })),
        },
    }
}

#[test]
fn the_addressed_delegator_asks_for_the_deployments() {
    let opened = OpenedNonce { nonce: vec![42], digest: vec![0xaa] };
    assert_eq!(
        sign_with_key_slices_handler(true, &event(), Some(opened.clone())),
        Some((
            vec![42],
            Action::GetDeploymentIds(GetDeploymentIds { multi_sig_account: vec![0x33] })
        ))
    );
    assert_eq!(sign_with_key_slices_handler(false, &event(), Some(opened)), None);
    assert_eq!(sign_with_key_slices_handler(true, &event(), None), None);
    let wrong = OpenedNonce { nonce: vec![42], digest: vec![0xab] };
    assert_eq!(sign_with_key_slices_handler(true, &event(), Some(wrong)), None);
}

#[test]
fn a_signing_task_is_set_up_with_empty_slots() {
    let step =
        process_sign_with_key_slices_event(event(), vec![42], parameters(), &ids(&["d1", "d2", "d3"]))
            .unwrap();
    assert_eq!(
        step.actions,
        vec![Action::GetDelegates(GetDelegatesRequest { start: 0, limit: 3 })]
    );
    let item = step.item.unwrap();
    assert_eq!(item.state, StoreItemState::Initialized);
    assert_eq!(item.task_info.task_id, "AQID");
    assert_eq!(item.task_info.exec_info, parameters());
    assert_eq!(item.nonce, vec![42]);
    assert_eq!(item.executor, None);
    assert_eq!(item.multi_sig_account, vec![0x33]);
    assert_eq!(item.p1_signature, vec![0x51]);
    assert_eq!(item.transaction_data, b"hello world!".to_vec());
    assert_eq!(item.key_slices.len(), 3);
    assert_eq!(item.deployment_candidates.len(), 3);
    for (i, id) in ["d1", "d2", "d3"].iter().enumerate() {
        assert_eq!(item.key_slices.key_at(i), id);
        assert_eq!(item.key_slices.value_at(i), &None);
        assert_eq!(item.deployment_candidates.key_at(i), id);
        assert!(item.deployment_candidates.value_at(i).is_empty());
        assert!(!item.has_found_key_slice(id));
    }
    assert!(!item.ready_send_to_executor());
    assert!(item.get_encrypted_key_slices().is_empty());
}

#[test]
fn item_from_event_starts_in_init_without_parameters() {
    let item = DelegatorSignStoreItem::from_sign_event(event());
    assert_eq!(item.state, StoreItemState::Init);
    assert_eq!(item.task_info.task_id, "AQID");
    assert_eq!(item.task_info.exec_info, ExecutionInfo { n: 0, k: 0, task_type: String::new() });
    assert_eq!(item.key_slices.len(), 0);
    assert_eq!(get_task_store_item_key("AQID"), "delegator_task_sign_store_item_AQID");
}

#[test]
fn a_repeated_deployment_has_one_slot() {
    let mut item = DelegatorSignStoreItem::from_sign_event(event());
    item.init_deployment_resources(&ids(&["d1", "d2", "d1"]));
    assert_eq!(item.key_slices.len(), 2);
    assert_eq!(item.deployment_candidates.len(), 2);
}

#[test]
fn candidate_executors_are_invited() {
    let item = set_up();
    assert_eq!(
        sign_candidate_request(&item.task_info, "E", &item.multi_sig_account),
        Action::SendMessage {
            peer_id: "E".to_string(),
            task_id: "AQID".to_string(),
            msg: GeneralMsg {
                msg: Some(Msg::SignCandidateRequest(SignCandidateRequest {
                    task_id: "AQID".to_string(),
                    multi_sig_account: vec![0x33],
                })),
            },
        }
    );
}

#[test]
fn the_pinners_of_every_deployment_are_looked_for() {
    let step = find_deployments(Some(set_up()), &ids(&["d1", "d2", "d3"])).unwrap();
    let item = step.item.unwrap();
    assert_eq!(item.state, StoreItemState::FindingDeployments);
    let properties = vec![
        property("task_id", "AQID"),
        property("delegator_sign_ra_target_role", "pinner"),
        property("task_delegator_sign_flag", "tea_gluon"),
    ];
    let expected: Vec<Action> = ["d1", "d2", "d3"]
        .iter()
        .map(|id| {
            Action::FindPinners(FindPinnersRequest {
                send_to_actor: "gluon".to_string(),
                deployment_id: id.to_string(),
                properties: properties.clone(),
                delay_seconds: 0,
                finding_mode: FindingMode::AsMuchAsPossible,
            })
        })
        .collect();
    assert_eq!(step.actions, expected);
    assert_eq!(find_deployments(None, &ids(&["d1"])), Err(Error::TaskNotFound));
    assert_eq!(
        begin_find_pinners("d9".to_string(), generate_pinner_ra_properties("AQID")),
        Action::FindPinners(FindPinnersRequest {
            send_to_actor: "gluon".to_string(),
            deployment_id: "d9".to_string(),
            properties,
            delay_seconds: 0,
            finding_mode: FindingMode::AsMuchAsPossible,
        })
    );
}

#[test]
fn an_executor_application_is_attested_and_told_twice() {
    let request = TaskSignWithKeySlicesRequest {
        task_id: "AQID".to_string(),
        rsa_pub_key: vec![1, 2, 3],
        cap_desc: None,
    };
    let step =
        task_sign_with_key_slices_request_handler(Some(set_up()), request, "E", "inbox").unwrap();
    assert_eq!(step.item, None);
    assert_eq!(step.actions.len(), 3);
    assert_eq!(
        step.actions[0],
        Action::Reply { reply_to: "inbox".to_string(), body: "sign to ra executor sent".to_string() }
    );
    match &step.actions[1] {
        Action::RequestPeerApproveRa(req) => {
            assert_eq!(req.send_to_actor, "gluon");
            assert_eq!(req.peer_id, "E");
            assert_eq!(
                req.properties,
                vec![
                    property("task_id", "AQID"),
                    property("rsa_pub_key", "AQID"),
                    property("delegator_sign_ra_target_role", "executor"),
                    property("task_delegator_sign_flag", "tea_gluon"),
                ]
            );
        }
        other => panic!("unexpected action {:?}", other),
    }
    assert_eq!(
        step.actions[2],
        Action::Reply {
            reply_to: "inbox".to_string(),
            body: "has sent executor ra request".to_string()
        }
    );
}

#[test]
fn a_second_executor_application_is_rejected() {
    let mut item = set_up();
    item.executor = Some(ExecutorInfo { peer_id: "E".to_string(), rsa_pub_key: vec![1] });
    let request = TaskSignWithKeySlicesRequest {
        task_id: "AQID".to_string(),
        rsa_pub_key: vec![1, 2, 3],
        cap_desc: None,
    };
    let step =
        task_sign_with_key_slices_request_handler(Some(item), request.clone(), "E2", "inbox").unwrap();
    assert_eq!(
        step,
        Step {
            item: None,
            actions: vec![Action::Respond {
                reply_to: "inbox".to_string(),
                peer_id: "E2".to_string(),
                task_id: "AQID".to_string(),
                message: "executor already exists".to_string(),
                reply_type: P2pReplyType::Rejected,
            }],
        }
    );
    assert_eq!(
        task_sign_with_key_slices_request_handler(None, request, "E2", "inbox"),
        Err(Error::TaskNotFound)
    );
}

fn attested_executor(key_text: &str) -> ChallengeStoreItem {
    ChallengeStoreItem {
        uuid: "u".to_string(),
        properties: vec![
            property("task_id", "AQID"),
            property("rsa_pub_key", key_text),
            property("delegator_sign_ra_target_role", "executor"),
            property("task_delegator_sign_flag", "tea_gluon"),
        ],
    }
}

fn attested_pinner(deployment: Option<&str>) -> ChallengeStoreItem {
    let mut properties = vec![
        property("task_id", "AQID"),
        property("delegator_sign_ra_target_role", "pinner"),
        property("task_delegator_sign_flag", "tea_gluon"),
    ];
    if let Some(id) = deployment {
        properties.push(property("deployment_id", id));
    }
    ChallengeStoreItem { uuid: "u".to_string(), properties }
}

#[test]
fn sign_attestation_results_are_told_apart() {
    assert!(is_sign_tag(&attested_executor("AQID")));
    assert!(is_executor_ra_response(&attested_executor("AQID")));
    assert!(!is_pinner_ra_response(&attested_executor("AQID")));
    assert!(is_pinner_ra_response(&attested_pinner(Some("d1"))));
    assert!(!is_executor_ra_response(&attested_pinner(Some("d1"))));
    let untagged = ChallengeStoreItem { uuid: "u".to_string(), properties: vec![] };
    assert!(!is_sign_tag(&untagged));
    assert_eq!(ra_task_id(&attested_pinner(None)), Ok("AQID".to_string()));
    assert_eq!(ra_task_id(&untagged), Err(Error::MissingTaskId));
    let mut bag: Table<String> = Table::new();
    tag_for_sign(&mut bag);
    assert_eq!(bag.key_at(0), "task_delegator_sign_flag");
    assert_eq!(bag.value_at(0), "tea_gluon");
}

#[test]
fn attested_peers_reach_their_handlers() {
    // a pinner before the executor waits
    let step = sign_operation_after_verify_handler(
        Some(set_up()),
        "pin1".to_string(),
        vec![],
        &attested_pinner(Some("d1")),
    )
    .unwrap();
    assert!(step.actions.is_empty());
    let item = step.item.unwrap();
    assert_eq!(item.deployment_candidates.value_at(0), &vec!["pin1".to_string()]);

    // the executor's key is decoded from its base64 text
    let step = sign_operation_after_verify_handler(
        Some(item),
        "E".to_string(),
        vec![],
        &attested_executor("Dg4="),
    )
    .unwrap();
    let item = step.item.unwrap();
    assert_eq!(item.executor, Some(ExecutorInfo { peer_id: "E".to_string(), rsa_pub_key: vec![0xe, 0xe] }));
    assert_eq!(step.actions, vec![fetch("pin1", "d1")]);
}

#[test]
fn sign_attestation_results_must_be_complete() {
    let no_task = ChallengeStoreItem { uuid: "u".to_string(), properties: vec![] };
    assert_eq!(
        sign_operation_after_verify_handler(Some(set_up()), "E".to_string(), vec![], &no_task),
        Err(Error::MissingTaskId)
    );
    let no_key = ChallengeStoreItem {
        uuid: "u".to_string(),
        properties: vec![
            property("task_id", "AQID"),
            property("delegator_sign_ra_target_role", "executor"),
        ],
    };
    assert_eq!(
        sign_operation_after_verify_handler(Some(set_up()), "E".to_string(), vec![], &no_key),
        Err(Error::MissingRsaPublicKey)
    );
    assert_eq!(
        sign_operation_after_verify_handler(
            Some(set_up()),
            "E".to_string(),
            vec![],
            &attested_executor("***")
        ),
        Err(Error::InvalidEncoding)
    );
    assert_eq!(
        sign_operation_after_verify_handler(
            Some(set_up()),
            "P".to_string(),
            vec![],
            &attested_pinner(None)
        ),
        Err(Error::MissingDeploymentId)
    );
    assert_eq!(
        sign_operation_after_verify_handler(
            Some(set_up()),
            "P".to_string(),
            vec![],
            &attested_pinner(Some("dx"))
        ),
        Err(Error::UnknownDeployment)
    );
    assert_eq!(
        sign_operation_after_verify_handler(None, "P".to_string(), vec![], &attested_pinner(Some("d1"))),
        Err(Error::TaskNotFound)
    );
    let bystander = ChallengeStoreItem {
        uuid: "u".to_string(),
        properties: vec![property("task_id", "AQID")],
    };
    assert_eq!(
        sign_operation_after_verify_handler(Some(set_up()), "P".to_string(), vec![], &bystander),
        Ok(Step { item: None, actions: vec![] })
    );
}

#[test]
fn sign_with_out_of_order_attestation() {
    // two pinners pass attestation before the executor does
    let item = on_pinner_ra_success(Some(set_up()), "pin1", "d1").unwrap().item.unwrap();
    let item = on_pinner_ra_success(Some(item), "pin2", "d2").unwrap().item.unwrap();
    assert_eq!(item.deployment_candidates.value_at(0), &vec!["pin1".to_string()]);
    assert_eq!(item.deployment_candidates.value_at(1), &vec!["pin2".to_string()]);
    assert_eq!(item.executor, None);

    // the executor arrives: both waiting pinners are asked for their slices
    let step = on_executor_ra_success(Some(item), "E", vec![0xe, 0xe]).unwrap();
    assert_eq!(step.actions, vec![fetch("pin1", "d1"), fetch("pin2", "d2")]);
    let item = step.item.unwrap();
    assert_eq!(item.executor, Some(ExecutorInfo { peer_id: "E".to_string(), rsa_pub_key: vec![0xe, 0xe] }));
    assert_eq!(item.deployment_candidates.len(), 0);
    assert!(!item.ready_send_to_executor());

    // the first slice is recorded and acknowledged
    let step =
        task_sign_get_pinner_key_slice_response_handler(Some(item), slice_response("d1", 1), "pin1", "i1")
            .unwrap();
    assert_eq!(
        step.actions,
        vec![Action::Reply {
            reply_to: "i1".to_string(),
            body: "become pinner of d1 successfully".to_string()
        }]
    );
    let item = step.item.unwrap();
    assert!(item.has_found_key_slice("d1"));
    assert!(!item.has_found_key_slice("d2"));
    assert_eq!(item.state, StoreItemState::Initialized);

    // with the second slice the threshold k = 2 is met: dispatch
    let step =
        task_sign_get_pinner_key_slice_response_handler(Some(item), slice_response("d2", 2), "pin2", "i2")
            .unwrap();
    assert_eq!(
        step.actions,
        vec![
            Action::Reply {
                reply_to: "i2".to_string(),
                body: "become pinner of d2 successfully".to_string()
            },
            Action::SendMessage {
                peer_id: "E".to_string(),
                task_id: "AQID".to_string(),
                msg: GeneralMsg {
                    msg: Some(Msg::TaskSignWithKeySlicesResponse(TaskSignWithKeySlicesResponse {
                        task_id: "AQID".to_string(),
                        adhoc_data: b"hello world!".to_vec(),
                        p1_signature: vec![0x51],
                        key_type: "bitcoin_mainnet".to_string(),
                        encrypted_key_slices: vec![vec![1], vec![2]],
                    })),
                },
            },
        ]
    );
    let item = step.item.unwrap();
    assert_eq!(item.state, StoreItemState::SentToExecutor);

    // the executor hands in the witness
    let step = task_commit_sign_result_request_handler(
        Some(item),
        TaskCommitSignResultRequest { task_id: "AQID".to_string(), witness: vec![0x77] },
        "E",
        "ie",
    )
    .unwrap();
    assert_eq!(
        step.actions,
        vec![
            Action::CommitWitness {
                task_id: "AQID".to_string(),
                multi_sig_account: vec![0x33],
                witness: vec![0x77],
                task_type: "bitcoin_mainnet".to_string(),
            },
            Action::Reply {
                reply_to: "ie".to_string(),
                body: "commit signature successfully".to_string()
            },
        ]
    );
    assert_eq!(step.item.unwrap().state, StoreItemState::CommitResult);
}

#[test]
fn a_duplicate_slice_is_rejected() {
    let item = on_executor_ra_success(Some(set_up()), "E", vec![0xe, 0xe]).unwrap().item.unwrap();
    let item =
        task_sign_get_pinner_key_slice_response_handler(Some(item), slice_response("d1", 1), "pin1", "i1")
            .unwrap()
            .item
            .unwrap();
    let step = task_sign_get_pinner_key_slice_response_handler(
        Some(item.clone()),
        slice_response("d1", 9),
        "pin9",
        "i9",
    )
    .unwrap();
    assert_eq!(
        step,
        Step {
            item: None,
            actions: vec![Action::Respond {
                reply_to: "i9".to_string(),
                peer_id: "pin9".to_string(),
                task_id: "AQID".to_string(),
                message: "pinner of d1 already exists".to_string(),
                reply_type: P2pReplyType::Rejected,
            }],
        }
    );
    // the stored slice is still the first one
    assert_eq!(item.get_encrypted_key_slices(), vec![vec![1u8]]);
}

#[test]
fn a_slice_of_a_foreign_deployment_is_an_error() {
    assert_eq!(
        task_sign_get_pinner_key_slice_response_handler(
            Some(set_up()),
            slice_response("dx", 1),
            "pin1",
            "i1"
        ),
        Err(Error::UnknownDeployment)
    );
    assert_eq!(
        task_sign_get_pinner_key_slice_response_handler(None, slice_response("d1", 1), "pin1", "i1"),
        Err(Error::TaskNotFound)
    );
}

#[test]
fn slices_alone_do_not_dispatch_without_an_executor() {
    let mut item = set_up();
    for (id, slice) in [("d1", 1u8), ("d2", 2), ("d3", 3)] {
        item.insert_key_slice_info(
            id,
            KeySliceInfo { peer_id: "P".to_string(), encrypted_key_slice: vec![slice] },
        )
        .unwrap();
    }
    assert!(!item.ready_send_to_executor());
    let step = try_send_to_executor(item.clone());
    assert!(step.actions.is_empty());
    assert_eq!(step.item, Some(item.clone()));

    // with the executor, the task goes out at once and waiting pinners are dropped
    item.insert_deployment("d1", "late").unwrap();
    let step = on_executor_ra_success(Some(item), "E", vec![0xe, 0xe]).unwrap();
    assert_eq!(step.actions.len(), 1);
    match &step.actions[0] {
        Action::SendMessage { peer_id, msg, .. } => {
            assert_eq!(peer_id, "E");
            match &msg.msg {
                Some(Msg::TaskSignWithKeySlicesResponse(res)) => {
                    assert_eq!(res.encrypted_key_slices, vec![vec![1u8], vec![2], vec![3]]);
                }
                other => panic!("unexpected message {:?}", other),
            }
        }
        other => panic!("unexpected action {:?}", other),
    }
    assert_eq!(step.item.unwrap().state, StoreItemState::SentToExecutor);
}

#[test]
fn readiness_counts_found_slices_against_k() {
    let mut item = set_up();
    item.executor = Some(ExecutorInfo { peer_id: "E".to_string(), rsa_pub_key: vec![] });
    assert!(!item.ready_send_to_executor());
    item.insert_key_slice_info(
        "d3",
        KeySliceInfo { peer_id: "P".to_string(), encrypted_key_slice: vec![3] },
    )
    .unwrap();
    assert!(!item.ready_send_to_executor());
    item.insert_key_slice_info(
        "d1",
        KeySliceInfo { peer_id: "P".to_string(), encrypted_key_slice: vec![1] },
    )
    .unwrap();
    assert!(item.ready_send_to_executor());
    // slices come out in the order of the deployments
    assert_eq!(item.get_encrypted_key_slices(), vec![vec![1u8], vec![3]]);
}

#[test]
fn store_item_rejects_foreign_deployments() {
    let mut item = set_up();
    let before = item.clone();
    assert_eq!(item.insert_deployment("dx", "P"), Err(Error::UnknownDeployment));
    assert_eq!(
        item.insert_key_slice_info(
            "dx",
            KeySliceInfo { peer_id: "P".to_string(), encrypted_key_slice: vec![] }
        ),
        Err(Error::UnknownDeployment)
    );
    assert_eq!(item, before);
    assert!(!item.has_found_key_slice("dx"));
}

#[test]
fn waiting_lists_are_handed_out_once() {
    let mut item = set_up();
    item.insert_deployment("d2", "pin1").unwrap();
    item.insert_deployment("d2", "pin2").unwrap();
    let popped = item.pop_all_candidates();
    assert_eq!(popped.len(), 3);
    assert_eq!(popped.value_at(1), &vec!["pin1".to_string(), "pin2".to_string()]);
    assert_eq!(item.deployment_candidates.len(), 0);
    assert_eq!(item.pop_all_candidates().len(), 0);
}

#[test]
fn a_second_executor_is_ignored() {
    let item = on_executor_ra_success(Some(set_up()), "E", vec![1]).unwrap().item.unwrap();
    let step = on_executor_ra_success(Some(item), "E2", vec![2]).unwrap();
    assert_eq!(step, Step { item: None, actions: vec![] });
    assert_eq!(on_executor_ra_success(None, "E", vec![1]), Err(Error::TaskNotFound));
}

#[test]
fn a_pinner_after_the_executor_is_asked_at_once() {
    let item = on_executor_ra_success(Some(set_up()), "E", vec![0xe, 0xe]).unwrap().item.unwrap();
    let step = on_pinner_ra_success(Some(item.clone()), "pin3", "d3").unwrap();
    assert_eq!(step, Step { item: None, actions: vec![fetch("pin3", "d3")] });
    assert_eq!(
        send_get_pinner_key_slice_request("AQID", "pin3", "d3", item.executor.as_ref().unwrap()),
        fetch("pin3", "d3")
    );
}

#[test]
fn a_pinner_of_a_found_deployment_is_ignored() {
    let mut item = set_up();
    item.insert_key_slice_info(
        "d1",
        KeySliceInfo { peer_id: "P".to_string(), encrypted_key_slice: vec![1] },
    )
    .unwrap();
    let step = on_pinner_ra_success(Some(item), "pin9", "d1").unwrap();
    assert_eq!(step, Step { item: None, actions: vec![] });
    assert_eq!(on_pinner_ra_success(None, "pin9", "d1"), Err(Error::TaskNotFound));
}

#[test]
fn commit_for_an_unknown_task_is_an_error() {
    assert_eq!(
        task_commit_sign_result_request_handler(
            None,
            TaskCommitSignResultRequest { task_id: "AQID".to_string(), witness: vec![] },
            "E",
            "i"
        ),
        Err(Error::TaskNotFound)
    );
}

#[test]
fn an_item_is_set_up_from_its_parts() {
    let fresh = DelegatorSignStoreItem::new("t-1".to_string(), vec![1], vec![2], vec![3]);
    assert_eq!(fresh.state, StoreItemState::Init);
    assert_eq!(fresh.task_info.task_id, "t-1");
    assert_eq!(fresh.multi_sig_account, vec![1]);
    assert_eq!(fresh.p1_signature, vec![2]);
    assert_eq!(fresh.transaction_data, vec![3]);
    let step = set_up_task(fresh, vec![9], parameters(), &ids(&["d1"])).unwrap();
    assert_eq!(
        step.actions,
        vec![Action::GetDelegates(GetDelegatesRequest { start: 0, limit: 3 })]
    );
    let item = step.item.unwrap();
    assert_eq!(item.state, StoreItemState::Initialized);
    assert_eq!(item.nonce, vec![9]);
    assert_eq!(item.task_info.exec_info, parameters());
    assert_eq!(item.key_slices.len(), 1);
}

#[test]
fn an_executor_is_attested_with_the_given_key_text() {
    let actions = attest_executor(
        "t-1".to_string(),
        "a2V5".to_string(),
        "peer".to_string(),
        "inbox".to_string(),
    );
    assert_eq!(actions.len(), 2);
    match &actions[1] {
        Action::RequestPeerApproveRa(req) => {
            assert_eq!(req.properties[1], property("rsa_pub_key", "a2V5"));
            assert_eq!(req.properties[2], property("delegator_sign_ra_target_role", "executor"));
        }
        other => panic!("unexpected action {:?}", other),
    }
}

#[test]
fn a_signing_task_with_bad_parameters_is_not_set_up() {
    let bad = |n: u8, k: u8| ExecutionInfo { n, k, task_type: "bitcoin_mainnet".to_string() };
    assert_eq!(
        process_sign_with_key_slices_event(event(), vec![42], bad(0, 0), &ids(&["d1"])),
        Err(Error::InvalidN)
    );
    assert_eq!(
        process_sign_with_key_slices_event(event(), vec![42], bad(3, 0), &ids(&["d1"])),
        Err(Error::InvalidK)
    );
    assert_eq!(
        process_sign_with_key_slices_event(event(), vec![42], bad(3, 3), &ids(&["d1"])),
        Err(Error::InvalidK)
    );
    let fresh = DelegatorSignStoreItem::new("t".to_string(), vec![], vec![], vec![]);
    assert_eq!(set_up_task(fresh, vec![], bad(2, 2), &ids(&[])), Err(Error::InvalidK));
}
