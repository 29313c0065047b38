use gluon::action::{Action, P2pReplyType, Step};
use gluon::actor_delegate_proto::{AssetGeneratedResponse, AssetInfo};
use gluon::actor_pinner_proto::{
    CommitDataUploadRequest, DataUploadCompletedProcessRequest, UpdateConflictListRequest,
};
use gluon::common::execution_info::ExecutionInfo;
use gluon::common::task_info::TaskInfo;
use gluon::error::Error;
use gluon::executor::key_gen::{
    check_capabilities, complete_task_execution, generate_multi_sig_account,
    generate_task_execution_response, pair_slices_with_pinners, split_plan, willing_to_run,
    MultiSigRequest, SplitPlan, WrapJob,
};
use gluon::executor::sign::{
    complete_sign, get_rsa_encrypt_key, process_sign_with_key_slices_handler, recovery_plan,
    send_sign_request, witness_request, RecoveryPlan, WitnessRequest,
};
use gluon::executor::store_item::{
    get_task_store_item_key, ExecutorStoreItem, StoreItemState as ExecutorState,
};
use gluon::executor::{task_execution_request_handler, task_sign_with_key_slices_response_handler};
use gluon::initial_pinner::handler::{
    account_key, acknowledge_deployment, deploy_key_slice, get_temp_data_cid_key,
    get_temp_deployment_key, key_slice_deployed, report_upload,
    trying_get_initial_pinner_store_item,
};
use gluon::initial_pinner::store_item::{InitialPinnerStoreItem, StoreItemState as PinnerState};
use gluon::initial_pinner::{
    task_pinner_key_slice_request_handler, trying_commit_data_upload, update_conflict_list,
};
use gluon::p2p_proto::{
    GeneralMsg, KeyGenerationCandidateRequest, Msg, SignCandidateRequest,
    TaskCommitSignResultRequest, TaskExecutionInitialPinnerData, TaskExecutionRequest,
    TaskExecutionResponse, TaskKeyGenerationApplyRequest, TaskPinnerKeySliceRequest,
    TaskPinnerKeySliceResponse, TaskResultInitialPinnerData, TaskSignGetPinnerKeySliceRequest,
    TaskSignGetPinnerKeySliceResponse, TaskSignWithKeySlicesRequest, TaskSignWithKeySlicesResponse,
};
use gluon::pinner::handler::deployment_info;
use gluon::pinner::task_sign_with_key_slices_request_handler;
use gluon::portal::layer1_events::{asset_generated_event_handler, asset_task_id};

fn invitation(executor: bool) -> KeyGenerationCandidateRequest {
    KeyGenerationCandidateRequest {
        task_id: "AQID".to_string(),
        n: 3,
        k: 2,
        key_type: "bitcoin_mainnet".to_string(),
        delegator_ephemeral_id: vec![9, 9],
        executor,
        signature: vec![1, 2, 3],
    }
}

fn task() -> TaskInfo {
    TaskInfo {
        task_id: "AQID".to_string(),
        exec_info: ExecutionInfo { n: 3, k: 2, task_type: "bitcoin_mainnet".to_string() },
    }
}

fn application(executor: bool) -> Vec<Action> {
    vec![
        Action::StashRsaPrivateKey { key: "key_gen_rsa_key_AQID".to_string(), expires_s: 6000 },
        Action::SendMessage {
            peer_id: "D".to_string(),
            task_id: "AQID".to_string(),
            msg: GeneralMsg {
                msg: Some(Msg::TaskKeyGenerationApplyRequest(TaskKeyGenerationApplyRequest {
                    task_id: "AQID".to_string(),
                    rsa_pub_key: vec![0xe1],
                    cap_desc: None,
                    apply_executor: executor,
                })),
            },
        },
    ]
}

#[test]
fn a_candidate_with_a_bad_signature_keeps_nothing() {
    assert_eq!(
        gluon::executor::task_key_generation_candidate_request_handler(
            "D".to_string(),
            &invitation(true),
            false,
            false
        ),
        Err(Error::InvalidSignature)
    );
    assert_eq!(
        gluon::initial_pinner::task_key_generation_candidate_request_handler(
            "D".to_string(),
            &invitation(false),
            false,
            false
        ),
        Err(Error::InvalidSignature)
    );
}

#[test]
fn a_candidate_with_a_good_signature_looks_the_delegator_up() {
    let lookup = vec![Action::LookupNodeProfile { ephemeral_id: vec![9, 9] }];
    assert_eq!(
        gluon::executor::task_key_generation_candidate_request_handler(
            "D".to_string(),
            &invitation(true),
            false,
            true
        ),
        Ok(lookup.clone())
    );
    assert_eq!(
        gluon::initial_pinner::task_key_generation_candidate_request_handler(
            "D".to_string(),
            &invitation(false),
            false,
            true
        ),
        Ok(lookup)
    );
}

#[test]
fn a_node_takes_one_role_per_task() {
    // whatever the signature, a node that holds the other role's item ignores the invitation
    for valid in [true, false] {
        assert_eq!(
            gluon::executor::task_key_generation_candidate_request_handler(
                "D".to_string(),
                &invitation(true),
                true,
                valid
            ),
            Ok(vec![])
        );
        assert_eq!(
            gluon::initial_pinner::task_key_generation_candidate_request_handler(
                "D".to_string(),
                &invitation(false),
                true,
                valid
            ),
            Ok(vec![])
        );
    }
    assert!(ExecutorStoreItem::contains(&Some(ExecutorStoreItem {
        task_info: task(),
        state: ExecutorState::Init
    })));
    assert!(!ExecutorStoreItem::contains(&None));
    assert!(!InitialPinnerStoreItem::contains(&None));
}

#[test]
fn an_executor_candidate_applies() {
    let step = gluon::executor::key_gen::task_key_generation_candidate_request_handler(
        "D".to_string(),
        invitation(true),
        "D",
        vec![0xe1],
    )
    .unwrap();
    assert_eq!(
        step.item,
        Some(ExecutorStoreItem { task_info: task(), state: ExecutorState::Requested })
    );
    assert_eq!(step.actions, application(true));
}

#[test]
fn an_initial_pinner_candidate_applies() {
    let step = gluon::initial_pinner::handler::task_key_generation_candidate_request_handler(
        "D".to_string(),
        invitation(false),
        "D",
        vec![0xe1],
    )
    .unwrap();
    assert_eq!(
        step.item,
        Some(InitialPinnerStoreItem { task_info: task(), state: PinnerState::Requested })
    );
    assert_eq!(step.actions, application(false));
}

#[test]
fn a_spoofed_delegator_is_refused() {
    assert_eq!(
        gluon::executor::key_gen::task_key_generation_candidate_request_handler(
            "D".to_string(),
            invitation(true),
            "someone-else",
            vec![0xe1],
        ),
        Err(Error::DelegatorMismatch)
    );
    assert_eq!(
        gluon::initial_pinner::handler::task_key_generation_candidate_request_handler(
            "D".to_string(),
            invitation(false),
            "someone-else",
            vec![0xe1],
        ),
        Err(Error::DelegatorMismatch)
    );
}

#[test]
fn an_invitation_with_invalid_parameters_is_refused() {
    let mut bad = invitation(true);
    bad.k = 3;
    assert_eq!(
        gluon::executor::key_gen::task_key_generation_candidate_request_handler(
            "D".to_string(),
            bad.clone(),
            "D",
            vec![],
        ),
        Err(Error::InvalidK)
    );
    bad.n = 0;
    assert_eq!(
        gluon::initial_pinner::handler::task_key_generation_candidate_request_handler(
            "D".to_string(),
            bad.clone(),
            "D",
            vec![],
        ),
        Err(Error::InvalidN)
    );
    assert_eq!(ExecutorStoreItem::from_candidate_request(bad.clone()), Err(Error::InvalidN));
    assert_eq!(InitialPinnerStoreItem::from_candidate_request(bad), Err(Error::InvalidN));
}

#[test]
fn items_start_in_init() {
    assert_eq!(
        ExecutorStoreItem::from_candidate_request(invitation(true)),
        Ok(ExecutorStoreItem { task_info: task(), state: ExecutorState::Init })
    );
    assert_eq!(
        InitialPinnerStoreItem::from_candidate_request(invitation(false)),
        Ok(InitialPinnerStoreItem { task_info: task(), state: PinnerState::Init })
    );
    assert_eq!(get_task_store_item_key("AQID"), "executor_task_store_item_AQID");
    assert_eq!(
        gluon::initial_pinner::store_item::get_task_store_item_key("AQID"),
        "pinner_task_store_item_AQID"
    );
}

#[test]
fn hooks_default_to_yes() {
    let item = ExecutorStoreItem { task_info: task(), state: ExecutorState::Init };
    assert!(willing_to_run(&item));
    assert_eq!(check_capabilities(&item), Ok(()));
    assert!(gluon::executor::sign::willing_to_run(&item));
    assert_eq!(gluon::executor::sign::check_capabilities(&item), Ok(()));
    let pinner = InitialPinnerStoreItem { task_info: task(), state: PinnerState::Init };
    assert!(gluon::initial_pinner::handler::willing_to_run(&pinner));
    assert_eq!(gluon::initial_pinner::handler::check_capabilities(&pinner), Ok(()));
}

fn execution_request() -> TaskExecutionRequest {
    TaskExecutionRequest {
        task_id: "AQID".to_string(),
        initial_pinners: vec![
            TaskExecutionInitialPinnerData { peer_id: "pin4".to_string(), rsa_pub_key: vec![4] },
            TaskExecutionInitialPinnerData { peer_id: "pin3".to_string(), rsa_pub_key: vec![3] },
            TaskExecutionInitialPinnerData { peer_id: "pin2".to_string(), rsa_pub_key: vec![2] },
        ],
        minimum_recovery_number: 2,
        key_type: "bitcoin_mainnet".to_string(),
        p1_public_key: vec![7, 7],
    }
}

#[test]
fn the_executor_splits_for_the_initial_pinners() {
    let stored = ExecutorStoreItem { task_info: task(), state: ExecutorState::Requested };
    let request = execution_request();

    let step = task_execution_request_handler(Some(stored), &request, "D", "inbox").unwrap();
    assert!(step.actions.is_empty());
    let item = step.item.unwrap();
    assert_eq!(item.state, ExecutorState::Responded);

    assert_eq!(
        split_plan(&request),
        Ok(SplitPlan { key_type: "bitcoin_mainnet".to_string(), n: 3, k: 2 })
    );
    let slices = vec![vec![0xa], vec![0xb], vec![0xc]];
    assert_eq!(
        pair_slices_with_pinners(&request, &slices),
        Ok(vec![
            WrapJob { rsa_pub_key: vec![4], key_slice: vec![0xa] },
            WrapJob { rsa_pub_key: vec![3], key_slice: vec![0xb] },
            WrapJob { rsa_pub_key: vec![2], key_slice: vec![0xc] },
        ])
    );
    assert_eq!(
        generate_multi_sig_account(&vec![7, 7], &vec![0x22], None, 2, "bitcoin_mainnet"),
        MultiSigRequest {
            k: 2,
            public_keys: vec![vec![7, 7], vec![0x22]],
            task_type: "bitcoin_mainnet".to_string()
        }
    );
    assert_eq!(
        generate_multi_sig_account(&vec![7], &vec![8], Some(vec![9]), 1, "x").public_keys,
        vec![vec![7], vec![8], vec![9]]
    );

    let wrapped = vec![vec![0x1a], vec![0x1b], vec![0x1c]];
    let response = TaskExecutionResponse {
        task_id: "AQID".to_string(),
        initial_pinners: vec![
            TaskResultInitialPinnerData { peer_id: "pin4".to_string(), encrypted_key_slice: vec![0x1a] },
            TaskResultInitialPinnerData { peer_id: "pin3".to_string(), encrypted_key_slice: vec![0x1b] },
            TaskResultInitialPinnerData { peer_id: "pin2".to_string(), encrypted_key_slice: vec![0x1c] },
        ],
        p2_public_key: vec![0x22],
        multi_sig_account: vec![0x33],
    };
    assert_eq!(
        generate_task_execution_response(&request, vec![0x22], &wrapped, vec![0x33]),
        Ok(response.clone())
    );
    let step =
        complete_task_execution(item, &request, vec![0x22], &wrapped, vec![0x33], "D", "inbox").unwrap();
    assert_eq!(step.item.unwrap().state, ExecutorState::Executed);
    assert_eq!(
        step.actions,
        vec![
            Action::SendMessage {
                peer_id: "D".to_string(),
                task_id: "AQID".to_string(),
                msg: GeneralMsg { msg: Some(Msg::TaskExecutionResponse(response)) },
            },
            Action::Reply {
                reply_to: "inbox".to_string(),
                body: "response task execution request successfully".to_string()
            },
        ]
    );
}

#[test]
fn too_few_slices_are_an_error() {
    let request = execution_request();
    let two = vec![vec![0xa], vec![0xb]];
    assert_eq!(pair_slices_with_pinners(&request, &two), Err(Error::SliceCountMismatch));
    assert_eq!(
        generate_task_execution_response(&request, vec![], &two, vec![]),
        Err(Error::SliceCountMismatch)
    );
    let item = ExecutorStoreItem { task_info: task(), state: ExecutorState::Responded };
    assert_eq!(
        complete_task_execution(item, &request, vec![], &two, vec![], "D", "inbox"),
        Err(Error::SliceCountMismatch)
    );
}

fn request_for(pinners: usize, k: u32) -> TaskExecutionRequest {
    let mut request = execution_request();
    request.minimum_recovery_number = k;
    request.initial_pinners = (0..pinners)
        .map(|i| TaskExecutionInitialPinnerData { peer_id: format!("pin{}", i), rsa_pub_key: vec![] })
        .collect();
    request
}

#[test]
fn a_split_needs_the_counts_of_a_task() {
    assert_eq!(split_plan(&request_for(256, 257)), Err(Error::InvalidN));
    assert_eq!(split_plan(&request_for(257, 256 + 5)), Err(Error::InvalidN));
    assert_eq!(split_plan(&request_for(256, 1)), Err(Error::InvalidN));
    assert_eq!(split_plan(&request_for(0, 1)), Err(Error::InvalidN));
    assert_eq!(split_plan(&request_for(3, 0)), Err(Error::InvalidK));
    assert_eq!(split_plan(&request_for(3, 3)), Err(Error::InvalidK));
    assert_eq!(split_plan(&request_for(3, 256 + 2)), Err(Error::InvalidK));
    assert_eq!(split_plan(&request_for(1, 1)), Err(Error::InvalidK));
    let plan = split_plan(&request_for(255, 254)).unwrap();
    assert_eq!(plan.n, 255);
    assert_eq!(plan.k, 254);
    let plan = split_plan(&request_for(2, 1)).unwrap();
    assert_eq!(plan.n, 2);
    assert_eq!(plan.k, 1);
}

#[test]
fn an_execution_request_with_bad_counts_changes_nothing() {
    let stored = ExecutorStoreItem { task_info: task(), state: ExecutorState::Requested };
    assert_eq!(
        task_execution_request_handler(Some(stored.clone()), &request_for(256, 257), "D", "inbox"),
        Err(Error::InvalidN)
    );
    assert_eq!(
        task_execution_request_handler(Some(stored), &request_for(3, 3), "D", "inbox"),
        Err(Error::InvalidK)
    );
}

#[test]
fn an_execution_request_for_an_unknown_task_gets_an_error_reply() {
    let step = task_execution_request_handler(None, &execution_request(), "D", "inbox").unwrap();
    assert_eq!(
        step,
        Step {
            item: None,
            actions: vec![Action::Respond {
                reply_to: "inbox".to_string(),
                peer_id: "D".to_string(),
                task_id: "AQID".to_string(),
                message: "failed to get ExecutorStoreItem with task_id AQID, details: can not find task AQID"
                    .to_string(),
                reply_type: P2pReplyType::Error,
            }],
        }
    );
}

fn sign_parameters() -> ExecutionInfo {
    ExecutionInfo { n: 3, k: 2, task_type: "bitcoin_mainnet".to_string() }
}

#[test]
fn a_sign_candidate_applies() {
    let step = process_sign_with_key_slices_handler(
        "D",
        SignCandidateRequest { task_id: "AQID".to_string(), multi_sig_account: vec![0x33] },
        sign_parameters(),
        vec![0xe1],
    )
    .unwrap();
    assert_eq!(
        step.item,
        Some(ExecutorStoreItem { task_info: task(), state: ExecutorState::Requested })
    );
    let expected = vec![
        Action::StashRsaPrivateKey { key: "sign_rsa_key_AQID".to_string(), expires_s: 6000 },
        Action::SendMessage {
            peer_id: "D".to_string(),
            task_id: "AQID".to_string(),
            msg: GeneralMsg {
                msg: Some(Msg::TaskSignWithKeySlicesRequest(TaskSignWithKeySlicesRequest {
                    task_id: "AQID".to_string(),
                    rsa_pub_key: vec![0xe1],
                    cap_desc: None,
                })),
            },
        },
    ];
    assert_eq!(step.actions, expected);
    assert_eq!(send_sign_request("D", "AQID", vec![0xe1]), expected);
    assert_eq!(get_rsa_encrypt_key("AQID"), "sign_rsa_key_AQID");
    assert_eq!(
        ExecutorStoreItem::from_sign_candidate_request(
            SignCandidateRequest { task_id: "AQID".to_string(), multi_sig_account: vec![] },
            sign_parameters()
        ),
        Ok(ExecutorStoreItem { task_info: task(), state: ExecutorState::Init })
    );
}

#[test]
fn the_executor_signs_and_hands_in_the_witness() {
    let stored = ExecutorStoreItem { task_info: task(), state: ExecutorState::Requested };
    let message = TaskSignWithKeySlicesResponse {
        task_id: "AQID".to_string(),
        adhoc_data: b"hello world!".to_vec(),
        p1_signature: vec![0x51],
        key_type: "bitcoin_mainnet".to_string(),
        encrypted_key_slices: vec![vec![1], vec![2]],
    };
    let step = task_sign_with_key_slices_response_handler(Some(stored), &message, "D", "inbox").unwrap();
    assert!(step.actions.is_empty());
    let item = step.item.unwrap();
    assert_eq!(item.state, ExecutorState::Responded);

    assert_eq!(
        recovery_plan(&item, &message),
        RecoveryPlan {
            rsa_key: "sign_rsa_key_AQID".to_string(),
            encrypted_key_slices: vec![vec![1], vec![2]],
            k: 2,
            key_type: "bitcoin_mainnet".to_string(),
            data: b"hello world!".to_vec(),
        }
    );
    assert_eq!(
        witness_request(&item, &message, vec![vec![7], vec![8]], vec![0x52]),
        WitnessRequest {
            k: 2,
            public_keys: vec![vec![7], vec![8]],
            signatures: vec![vec![0x51], vec![0x52]],
            key_type: "bitcoin_mainnet".to_string(),
        }
    );

    let step = complete_sign(item, vec![0x77], "D", "inbox");
    assert_eq!(step.item.unwrap().state, ExecutorState::Executed);
    assert_eq!(
        step.actions,
        vec![
            Action::SendMessage {
                peer_id: "D".to_string(),
                task_id: "AQID".to_string(),
                msg: GeneralMsg {
                    msg: Some(Msg::TaskCommitSignResultRequest(TaskCommitSignResultRequest {
                        task_id: "AQID".to_string(),
                        witness: vec![0x77],
                    })),
                },
            },
            Action::Reply { reply_to: "inbox".to_string(), body: "signed successfully".to_string() },
        ]
    );
    assert_eq!(
        task_sign_with_key_slices_response_handler(None, &message, "D", "inbox"),
        Err(Error::TaskNotFound)
    );
}

fn slice_request() -> TaskPinnerKeySliceRequest {
    TaskPinnerKeySliceRequest {
        task_id: "AQID".to_string(),
        public_key: vec![0x22],
        encrypted_key_slice: vec![0x1a],
        multi_sig_account: vec![1, 2, 3],
    }
}

#[test]
fn an_initial_pinner_stores_its_slice() {
    let stored = InitialPinnerStoreItem { task_info: task(), state: PinnerState::Requested };
    let req = slice_request();
    let step =
        task_pinner_key_slice_request_handler(Some(stored), None, &req, "D", "inbox", "s-1".to_string());
    assert_eq!(step.actions, vec![Action::RegisterUploadRsaKey { session_id: "s-1".to_string() }]);
    let item = step.item.unwrap();
    assert_eq!(item.state, PinnerState::Responded);

    assert_eq!(
        deploy_key_slice(&req, "s-1".to_string(), "cid-9".to_string(), &vec![1, 2, 3]),
        vec![
            Action::Remember {
                key: "data-cid-AQID".to_string(),
                value: "cid-9".to_string(),
                expires_s: 6000
            },
            Action::DataUploadCompleted {
                session_id: "s-1".to_string(),
                request: DataUploadCompletedProcessRequest {
                    cid_code: "cid-9".to_string(),
                    cid_description: String::new(),
                    cid_capchecker: String::new(),
                    key_url_encoded: "AQID".to_string(),
                },
            },
        ]
    );

    let step = key_slice_deployed(item, &req, "D", "inbox", "dep-1".to_string());
    assert_eq!(step.item.unwrap().state, PinnerState::Deployed);
    assert_eq!(
        step.actions,
        vec![
            Action::Remember {
                key: "depl-id-AQID".to_string(),
                value: "dep-1".to_string(),
                expires_s: 6000
            },
            Action::SendMessage {
                peer_id: "D".to_string(),
                task_id: "AQID".to_string(),
                msg: GeneralMsg {
                    msg: Some(Msg::TaskPinnerKeySliceResponse(TaskPinnerKeySliceResponse {
                        task_id: "AQID".to_string(),
                        deployment_id: "dep-1".to_string(),
                    })),
                },
            },
            Action::Reply {
                reply_to: "inbox".to_string(),
                body: "pinned key slice successfully".to_string()
            },
        ]
    );
}

#[test]
fn account_keys_hold_the_base64_text_of_the_account() {
    assert_eq!(get_temp_deployment_key(&vec![1, 2, 3]), "depl-id-AQID");
    assert_eq!(get_temp_data_cid_key(&vec![1, 2, 3]), "data-cid-AQID");
    assert_eq!(get_temp_deployment_key(&vec![]), "depl-id-");
    assert_eq!(get_temp_data_cid_key(&vec![0xff]), "data-cid-/w==");
    assert_eq!(get_temp_deployment_key(&vec![0xfb, 0xef]), "depl-id-++8=");
}

#[test]
fn a_promoted_executor_candidate_stores_a_slice() {
    let as_executor = ExecutorStoreItem { task_info: task(), state: ExecutorState::Requested };
    assert_eq!(
        trying_get_initial_pinner_store_item(None, Some(as_executor.clone())),
        Ok(InitialPinnerStoreItem { task_info: task(), state: PinnerState::Requested })
    );
    let own = InitialPinnerStoreItem { task_info: task(), state: PinnerState::Init };
    assert_eq!(
        trying_get_initial_pinner_store_item(Some(own.clone()), Some(as_executor.clone())),
        Ok(own)
    );
    assert_eq!(trying_get_initial_pinner_store_item(None, None), Err(Error::TaskNotFound));
    let step = task_pinner_key_slice_request_handler(
        None,
        Some(as_executor),
        &slice_request(),
        "D",
        "inbox",
        "s".to_string(),
    );
    assert_eq!(step.item.unwrap().state, PinnerState::Responded);
}

#[test]
fn executor_states_map_to_pinner_states() {
    for (from, to) in [
        (ExecutorState::Init, PinnerState::Init),
        (ExecutorState::Requested, PinnerState::Requested),
        (ExecutorState::Responded, PinnerState::Responded),
        (ExecutorState::Executed, PinnerState::Deployed),
    ] {
        let item = InitialPinnerStoreItem::from(ExecutorStoreItem { task_info: task(), state: from });
        assert_eq!(item, InitialPinnerStoreItem { task_info: task(), state: to });
    }
}

#[test]
fn a_slice_for_an_unknown_task_gets_an_error_reply() {
    let step = task_pinner_key_slice_request_handler(
        None,
        None,
        &slice_request(),
        "D",
        "inbox",
        "s".to_string(),
    );
    assert_eq!(
        step,
        Step {
            item: None,
            actions: vec![Action::Respond {
                reply_to: "inbox".to_string(),
                peer_id: "D".to_string(),
                task_id: "AQID".to_string(),
                message: "failed to get InitialPinnerStoreItem with task_id AQID, details: can not find task AQID"
                    .to_string(),
                reply_type: P2pReplyType::Error,
            }],
        }
    );
}

#[test]
fn uploads_are_committed_by_initial_pinners_only() {
    let stored = Some(InitialPinnerStoreItem { task_info: task(), state: PinnerState::Deployed });
    assert_eq!(
        trying_commit_data_upload(&stored, Some("cid".to_string()), Some("dep".to_string())),
        Ok(vec![Action::CommitDataUpload(CommitDataUploadRequest {
            deployment_id: "dep".to_string(),
            cid_code: "cid".to_string(),
            cid_description: String::new(),
            cid_capchecker: String::new(),
        })])
    );
    assert_eq!(
        trying_commit_data_upload(&None, Some("cid".to_string()), Some("dep".to_string())),
        Ok(vec![])
    );
    assert_eq!(trying_commit_data_upload(&None, None, None), Ok(vec![]));
    assert_eq!(
        trying_commit_data_upload(&stored, None, Some("dep".to_string())),
        Err(Error::MissingDataCid)
    );
    assert_eq!(
        trying_commit_data_upload(&stored, Some("cid".to_string()), None),
        Err(Error::MissingDeploymentRecord)
    );
    assert_eq!(trying_commit_data_upload(&stored, None, None), Err(Error::MissingDataCid));
}

#[test]
fn the_conflict_list_allows_one_deployment_per_node() {
    let ids = vec!["d1".to_string(), "d2".to_string()];
    assert_eq!(
        update_conflict_list(&vec![0x33], ids.clone(), Some("d2".to_string())),
        Action::UpdateConflictList(UpdateConflictListRequest {
            key: vec![0x33],
            deployment_ids: ids.clone(),
            current_items: vec!["d2".to_string()],
            max_allowed: 1,
        })
    );
    assert_eq!(
        update_conflict_list(&vec![0x33], ids.clone(), None),
        Action::UpdateConflictList(UpdateConflictListRequest {
            key: vec![0x33],
            deployment_ids: ids,
            current_items: vec![],
            max_allowed: 1,
        })
    );
}

#[test]
fn a_registered_account_updates_the_list_and_commits() {
    let res = AssetGeneratedResponse {
        task_id: vec![1, 2, 3],
        multi_sig_account: vec![0x33],
        asset_info: AssetInfo { p2_deployment_ids: vec!["d1".to_string()] },
    };
    assert_eq!(asset_task_id(&res), "AQID");
    let stored = Some(InitialPinnerStoreItem { task_info: task(), state: PinnerState::Deployed });
    let (list, commit) = asset_generated_event_handler(
        res.clone(),
        &stored,
        Some("d1".to_string()),
        Some("cid".to_string()),
    );
    assert_eq!(
        list,
        Action::UpdateConflictList(UpdateConflictListRequest {
            key: vec![0x33],
            deployment_ids: vec!["d1".to_string()],
            current_items: vec!["d1".to_string()],
            max_allowed: 1,
        })
    );
    assert_eq!(
        commit,
        Ok(vec![Action::CommitDataUpload(CommitDataUploadRequest {
            deployment_id: "d1".to_string(),
            cid_code: "cid".to_string(),
            cid_description: String::new(),
            cid_capchecker: String::new(),
        })])
    );
    let (_, commit) = asset_generated_event_handler(res, &stored, None, None);
    assert_eq!(commit, Err(Error::MissingDataCid));
}

#[test]
fn a_pinner_serves_its_slice() {
    assert_eq!(
        deployment_info(Some("cid".to_string()), Some(vec![1])),
        Ok(("cid".to_string(), vec![1]))
    );
    assert_eq!(deployment_info(None, Some(vec![1])), Err(Error::MissingDeploymentInfo));
    assert_eq!(deployment_info(Some("cid".to_string()), None), Err(Error::MissingDeploymentInfo));
    assert_eq!(deployment_info(None, None), Err(Error::MissingDeploymentInfo));
    let req = TaskSignGetPinnerKeySliceRequest {
        task_id: "AQID".to_string(),
        rsa_pub_key: vec![0xe],
        deployment_id: "d1".to_string(),
    };
    assert_eq!(
        task_sign_with_key_slices_request_handler(req, "D".to_string(), "inbox".to_string(), vec![0x1a]),
        vec![
            Action::SendMessage {
                peer_id: "D".to_string(),
                task_id: "AQID".to_string(),
                msg: GeneralMsg {
                    msg: Some(Msg::TaskSignGetPinnerKeySliceResponse(
                        TaskSignGetPinnerKeySliceResponse {
                            task_id: "AQID".to_string(),
                            encrypted_key_slice: vec![0x1a],
                            deployment_id: "d1".to_string(),
                        }
                    )),
                },
            },
            Action::Reply { reply_to: "inbox".to_string(), body: "key slice returned".to_string() },
        ]
    );
}

#[test]
fn uploads_are_reported_under_the_given_keys() {
    assert_eq!(account_key("depl-id", "QUJD"), "depl-id-QUJD");
    assert_eq!(
        report_upload("k".to_string(), "s".to_string(), "cid".to_string(), "a2V5".to_string()),
        vec![
            Action::Remember { key: "k".to_string(), value: "cid".to_string(), expires_s: 6000 },
            Action::DataUploadCompleted {
                session_id: "s".to_string(),
                request: DataUploadCompletedProcessRequest {
                    cid_code: "cid".to_string(),
                    cid_description: String::new(),
                    cid_capchecker: String::new(),
                    key_url_encoded: "a2V5".to_string(),
                },
            },
        ]
    );
    let item = InitialPinnerStoreItem { task_info: task(), state: PinnerState::Responded };
    let step =
        acknowledge_deployment(item, "k2".to_string(), &slice_request(), "D", "inbox", "dep".to_string());
    assert_eq!(step.item.unwrap().state, PinnerState::Deployed);
    assert_eq!(
        step.actions[0],
        Action::Remember { key: "k2".to_string(), value: "dep".to_string(), expires_s: 6000 }
    );
    assert_eq!(step.actions.len(), 3);
}

#[test]
fn a_sign_candidate_with_bad_parameters_is_refused() {
    let invitation =
        || SignCandidateRequest { task_id: "AQID".to_string(), multi_sig_account: vec![0x33] };
    let parameters = |n: u8, k: u8| ExecutionInfo { n, k, task_type: "x".to_string() };
    assert_eq!(
        process_sign_with_key_slices_handler("D", invitation(), parameters(0, 0), vec![]),
        Err(Error::InvalidN)
    );
    assert_eq!(
        process_sign_with_key_slices_handler("D", invitation(), parameters(3, 0), vec![]),
        Err(Error::InvalidK)
    );
    assert_eq!(
        ExecutorStoreItem::from_sign_candidate_request(invitation(), parameters(2, 2)),
        Err(Error::InvalidK)
    );
}
