//! An initial pinner's part in key generation.
//!
//! The initial pinner applies with an RSA key minted for the task. When its
//! wrapped slice arrives it unwraps it, encrypts it with a fresh AES key,
//! stores the ciphertext as a blob, and reports the upload, with the AES key
//! wrapped for the attestation service, in exchange for a deployment id,
//! which is its receipt. Unwrapping, encrypting and storing are the
//! embedding program's work; what is remembered under which key, what is
//! reported and what is answered is decided here.

use vstd::prelude::*;
use vstd::string::*;
use crate::action::{
    agrees, missing_item, reply, send_message, spec_missing_item, Action, ActionView, Step,
    StepView,
};
use crate::actor_pinner_proto::{
    CommitDataUploadRequest, CommitDataUploadRequestView, DataUploadCompletedProcessRequest,
    DataUploadCompletedProcessRequestView, UpdateConflictListRequest,
    UpdateConflictListRequestView,
};
use crate::common::key_generation::{
    check_delegator_profile, send_key_generation_request, spec_key_generation_request,
    RSA_KEY_EXPIRES_S,
};
use crate::common::task_info::spec_from_parts;
use crate::encoding::{base64_text, encodable, encode};
use crate::error::Error;
use crate::executor::store_item::{ExecutorStoreItem, ExecutorStoreItemView};
use crate::initial_pinner::store_item::{
    spec_from_executor, InitialPinnerStoreItemView, StoreItemState,
};
use crate::p2p_proto::{
    GeneralMsgView, KeyGenerationCandidateRequest, KeyGenerationCandidateRequestView, Msg,
    MsgView, TaskPinnerKeySliceRequest, TaskPinnerKeySliceRequestView, TaskPinnerKeySliceResponse,
    TaskPinnerKeySliceResponseView,
};
use crate::text::{copy_bytes, option_view, text, views};

pub use super::store_item::InitialPinnerStoreItem;

verus! {

/// First part of the key under which the deployment id of an account is
/// remembered.
pub const TEMP_DEPLOYMENT_ID_KEY_PREFIX: &'static str = "depl-id";

/// First part of the key under which the data id of an account is
/// remembered.
pub const TEMP_DATA_CID_KEY_PREFIX: &'static str = "data-cid";

/// The key under which the deployment id of an account is remembered.
pub open spec fn spec_temp_deployment_key(multi_sig_account: Seq<u8>) -> Seq<char> {
    TEMP_DEPLOYMENT_ID_KEY_PREFIX@ + "-"@ + base64_text(multi_sig_account)
}

/// The key under which the data id of an account is remembered.
pub open spec fn spec_temp_data_cid_key(multi_sig_account: Seq<u8>) -> Seq<char> {
    TEMP_DATA_CID_KEY_PREFIX@ + "-"@ + base64_text(multi_sig_account)
}

/// The key that is made of a prefix, a hyphen and the base64 text of an
/// account.
pub fn account_key(prefix: &str, account_text: &str) -> (key: String)
    ensures
        key@ == prefix@ + "-"@ + account_text@,
{
    let mut key = String::from_str(prefix);
    key.append("-");
    key.append(account_text);
    key
}

/// The key under which the deployment id of an account is remembered: the
/// prefix, a hyphen and the account's base64 text.
pub fn get_temp_deployment_key(multi_sig_account: &Vec<u8>) -> (key: String)
    requires
        encodable(multi_sig_account@.len()),
    ensures
        key@ == spec_temp_deployment_key(multi_sig_account@),
{
    let account_text = encode(multi_sig_account);
    account_key(TEMP_DEPLOYMENT_ID_KEY_PREFIX, account_text.as_str())
}

/// The key under which the data id of an account is remembered: the prefix,
/// a hyphen and the account's base64 text.
pub fn get_temp_data_cid_key(multi_sig_account: &Vec<u8>) -> (key: String)
    requires
        encodable(multi_sig_account@.len()),
    ensures
        key@ == spec_temp_data_cid_key(multi_sig_account@),
{
    let account_text = encode(multi_sig_account);
    account_key(TEMP_DATA_CID_KEY_PREFIX, account_text.as_str())
}

/// What an initial pinner does when the account of one of its slices is
/// registered.
pub open spec fn spec_trying_commit_data_upload(
    stored: Option<InitialPinnerStoreItemView>,
    cid_code: Option<Seq<char>>,
    deployment_id: Option<Seq<char>>,
) -> Result<Seq<ActionView>, Error> {
    if stored is None {
        Ok(Seq::empty())
    } else if cid_code is None {
        Err(Error::MissingDataCid)
    } else if deployment_id is None {
        Err(Error::MissingDeploymentRecord)
    } else {
        Ok(
            seq![
                ActionView::CommitDataUpload(
                    CommitDataUploadRequestView {
                        deployment_id: deployment_id->0,
                        cid_code: cid_code->0,
                        cid_description: Seq::empty(),
                        cid_capchecker: Seq::empty(),
                    },
                ),
            ],
        )
    }
}

/// Confirms the upload of a slice once its account is registered. `stored`
/// is this node's initial-pinner item of the task, if there is one: a node
/// that is no initial pinner of the task does nothing. `cid_code` and
/// `deployment_id` are what is remembered under the account's
/// [`get_temp_data_cid_key`] and [`get_temp_deployment_key`]; both must still
/// be there.
pub fn trying_commit_data_upload(
    stored: &Option<InitialPinnerStoreItem>,
    cid_code: Option<String>,
    deployment_id: Option<String>,
) -> (r: Result<Vec<Action>, Error>)
    ensures
        match r {
            Ok(actions) => spec_trying_commit_data_upload(
                option_view(*stored),
                option_view(cid_code),
                option_view(deployment_id),
            ) == Ok::<Seq<ActionView>, Error>(views(actions@)),
            Err(e) => spec_trying_commit_data_upload(
                option_view(*stored),
                option_view(cid_code),
                option_view(deployment_id),
            ) == Err::<Seq<ActionView>, Error>(e),
        },
{
    let mut actions: Vec<Action> = Vec::new();
    if stored.is_none() {
        assert(views(actions@) =~= Seq::empty());
        return Ok(actions);
    }
    let cid_code = match cid_code {
        Some(cid_code) => cid_code,
        None => {
            return Err(Error::MissingDataCid);
        },
    };
    let deployment_id = match deployment_id {
        Some(deployment_id) => deployment_id,
        None => {
            return Err(Error::MissingDeploymentRecord);
        },
    };
    actions.push(
        Action::CommitDataUpload(
            CommitDataUploadRequest {
                deployment_id,
                cid_code,
                cid_description: String::new(),
                cid_capchecker: String::new(),
            },
        ),
    );
    assert(views(actions@) =~= seq![
        ActionView::CommitDataUpload(
            CommitDataUploadRequestView {
                deployment_id: deployment_id@,
                cid_code: cid_code@,
                cid_description: Seq::empty(),
                cid_capchecker: Seq::empty(),
            },
        ),
    ]);
    Ok(actions)
}

/// Tells the attestation service which deployments belong to a registered
/// account, of which this node may hold one. `current` is the deployment id
/// that this node remembers for the account under
/// [`get_temp_deployment_key`], if any.
pub fn update_conflict_list(
    multi_sig_account: &Vec<u8>,
    deployment_ids: Vec<String>,
    current: Option<String>,
) -> (action: Action)
    ensures
        action@ == ActionView::UpdateConflictList(
            UpdateConflictListRequestView {
                key: multi_sig_account@,
                deployment_ids: views(deployment_ids@),
                current_items: match current {
                    Some(id) => seq![id@],
                    None => Seq::empty(),
                },
                max_allowed: 1,
            },
        ),
{
    let mut current_items: Vec<String> = Vec::new();
    match current {
        Some(id) => {
            current_items.push(id);
            assert(views(current_items@) =~= seq![id@]);
        },
        None => {
            assert(views(current_items@) =~= Seq::empty());
        },
    }
    Action::UpdateConflictList(
        UpdateConflictListRequest {
            key: copy_bytes(multi_sig_account),
            deployment_ids,
            current_items,
            max_allowed: 1,
        },
    )
}

/// The item under which a node acts as initial pinner of a task: its
/// initial pinner's item, or else its executor's item seen as one.
pub open spec fn spec_trying_get_initial_pinner_store_item(
    pinner: Option<InitialPinnerStoreItemView>,
    executor: Option<ExecutorStoreItemView>,
) -> Result<InitialPinnerStoreItemView, Error> {
    match pinner {
        Some(item) => Ok(item),
        None => match executor {
            Some(item) => Ok(spec_from_executor(item)),
            None => Err(Error::TaskNotFound),
        },
    }
}

/// Picks the item under which this node acts as initial pinner of a task. A
/// candidate executor that was not elected may be promoted to initial
/// pinner: it then has an executor's item only, which is taken.
pub fn trying_get_initial_pinner_store_item(
    pinner: Option<InitialPinnerStoreItem>,
    executor: Option<ExecutorStoreItem>,
) -> (r: Result<InitialPinnerStoreItem, Error>)
    ensures
        match r {
            Ok(item) => spec_trying_get_initial_pinner_store_item(
                option_view(pinner),
                option_view(executor),
            ) == Ok::<InitialPinnerStoreItemView, Error>(item@),
            Err(e) => spec_trying_get_initial_pinner_store_item(
                option_view(pinner),
                option_view(executor),
            ) == Err::<InitialPinnerStoreItemView, Error>(e),
        },
{
    match pinner {
        Some(item) => Ok(item),
        None => match executor {
            Some(item) => Ok(InitialPinnerStoreItem::from(item)),
            None => Err(Error::TaskNotFound),
        },
    }
}

/// What an initial pinner keeps and does when its wrapped slice arrives.
pub open spec fn spec_task_pinner_key_slice_request(
    pinner: Option<InitialPinnerStoreItemView>,
    executor: Option<ExecutorStoreItemView>,
    req: TaskPinnerKeySliceRequestView,
    peer_id: Seq<char>,
    reply_to: Seq<char>,
    session_id: Seq<char>,
) -> StepView<InitialPinnerStoreItemView> {
    match spec_trying_get_initial_pinner_store_item(pinner, executor) {
        Err(_) => StepView {
            item: None,
            actions: seq![
                spec_missing_item("InitialPinnerStoreItem"@, req.task_id, peer_id, reply_to),
            ],
        },
        Ok(item) => StepView {
            item: Some(InitialPinnerStoreItemView { state: StoreItemState::Responded, ..item }),
            actions: seq![ActionView::RegisterUploadRsaKey { session_id }],
        },
    }
}

/// Receives the wrapped slice. `pinner` and `executor` are this node's
/// items of the task, if there are any; a node without either answers the
/// delegator with an error. Otherwise the item's state becomes
/// [`StoreItemState::Responded`] and an upload session named `session_id`
/// is opened with the attestation service. The session's public key and the
/// stored blob then go to [`deploy_key_slice`].
pub fn task_pinner_key_slice_request_handler(
    pinner: Option<InitialPinnerStoreItem>,
    executor: Option<ExecutorStoreItem>,
    req: &TaskPinnerKeySliceRequest,
    peer_id: &str,
    reply_to: &str,
    session_id: String,
) -> (step: Step<InitialPinnerStoreItem>)
    ensures
        step@ == spec_task_pinner_key_slice_request(
            option_view(pinner),
            option_view(executor),
            req@,
            peer_id@,
            reply_to@,
            session_id@,
        ),
{
    match trying_get_initial_pinner_store_item(pinner, executor) {
        Ok(mut item) => {
            item.state = StoreItemState::Responded;
            let mut actions: Vec<Action> = Vec::new();
            actions.push(Action::RegisterUploadRsaKey { session_id });
            let step = Step { item: Some(item), actions };
            assert(step@.actions =~= seq![
                ActionView::RegisterUploadRsaKey { session_id: session_id@ },
            ]);
            step
        },
        Err(_) => Step::only(
            missing_item("InitialPinnerStoreItem", req.task_id.as_str(), peer_id, reply_to),
        ),
    }
}

/// The report of a stored slice: the blob's id is remembered under
/// `data_cid_key`, and the upload is reported within the session.
pub open spec fn spec_report_upload(
    data_cid_key: Seq<char>,
    session_id: Seq<char>,
    data_cid: Seq<char>,
    key_url_encoded: Seq<char>,
) -> Seq<ActionView> {
    seq![
        ActionView::Remember { key: data_cid_key, value: data_cid, expires_s: 6000 },
        ActionView::DataUploadCompleted {
            session_id,
            request: DataUploadCompletedProcessRequestView {
                cid_code: data_cid,
                cid_description: Seq::empty(),
                cid_capchecker: Seq::empty(),
                key_url_encoded,
            },
        },
    ]
}

/// What an initial pinner does once its slice is stored as a blob.
pub open spec fn spec_deploy_key_slice(
    req: TaskPinnerKeySliceRequestView,
    session_id: Seq<char>,
    data_cid: Seq<char>,
    wrapped_key: Seq<u8>,
) -> Seq<ActionView> {
    spec_report_upload(
        spec_temp_data_cid_key(req.multi_sig_account),
        session_id,
        data_cid,
        base64_text(wrapped_key),
    )
}

/// Reports a stored slice: the blob's id `data_cid` is remembered under
/// `data_cid_key` for 6000 seconds, then the upload is reported within the
/// session, with the wrapped key as the text `key_url_encoded`.
pub fn report_upload(
    data_cid_key: String,
    session_id: String,
    data_cid: String,
    key_url_encoded: String,
) -> (actions: Vec<Action>)
    ensures
        views(actions@) == spec_report_upload(
            data_cid_key@,
            session_id@,
            data_cid@,
            key_url_encoded@,
        ),
{
    let mut actions: Vec<Action> = Vec::new();
    actions.push(
        Action::Remember { key: data_cid_key, value: data_cid.clone(), expires_s: RSA_KEY_EXPIRES_S },
    );
    actions.push(
        Action::DataUploadCompleted {
            session_id,
            request: DataUploadCompletedProcessRequest {
                cid_code: data_cid,
                cid_description: String::new(),
                cid_capchecker: String::new(),
                key_url_encoded,
            },
        },
    );
    assert(views(actions@) =~= spec_report_upload(
        data_cid_key@,
        session_id@,
        data_cid@,
        key_url_encoded@,
    ));
    actions
}

/// Reports the stored slice. `data_cid` is the id of the blob that holds
/// the slice, encrypted with a fresh AES key, and `wrapped_key` is that AES
/// key, encrypted with the public key of the upload session. The blob's id
/// is remembered under the account's [`get_temp_data_cid_key`], and the
/// upload is reported within the session, with the wrapped key as base64
/// text: see [`report_upload`]. The deployment id that comes back goes to
/// [`key_slice_deployed`].
pub fn deploy_key_slice(
    req: &TaskPinnerKeySliceRequest,
    session_id: String,
    data_cid: String,
    wrapped_key: &Vec<u8>,
) -> (actions: Vec<Action>)
    requires
        encodable(req.multi_sig_account@.len()),
        encodable(wrapped_key@.len()),
    ensures
        views(actions@) == spec_deploy_key_slice(req@, session_id@, data_cid@, wrapped_key@),
{
    report_upload(
        get_temp_data_cid_key(&req.multi_sig_account),
        session_id,
        data_cid,
        encode(wrapped_key),
    )
}

/// What an initial pinner keeps and does when it has its receipt, which it
/// remembers under `deployment_key`.
pub open spec fn spec_acknowledge_deployment(
    item: InitialPinnerStoreItemView,
    deployment_key: Seq<char>,
    req: TaskPinnerKeySliceRequestView,
    peer_id: Seq<char>,
    reply_to: Seq<char>,
    deployment_id: Seq<char>,
) -> StepView<InitialPinnerStoreItemView> {
    StepView {
        item: Some(InitialPinnerStoreItemView { state: StoreItemState::Deployed, ..item }),
        actions: seq![
            ActionView::Remember { key: deployment_key, value: deployment_id, expires_s: 6000 },
            ActionView::SendMessage {
                peer_id,
                task_id: req.task_id,
                msg: GeneralMsgView {
                    msg: Some(
                        MsgView::TaskPinnerKeySliceResponse(
                            TaskPinnerKeySliceResponseView { task_id: req.task_id, deployment_id },
                        ),
                    ),
                },
            },
            ActionView::Reply { reply_to, body: "pinned key slice successfully"@ },
        ],
    }
}

/// What an initial pinner keeps and does when it has its receipt.
pub open spec fn spec_key_slice_deployed(
    item: InitialPinnerStoreItemView,
    req: TaskPinnerKeySliceRequestView,
    peer_id: Seq<char>,
    reply_to: Seq<char>,
    deployment_id: Seq<char>,
) -> StepView<InitialPinnerStoreItemView> {
    spec_acknowledge_deployment(
        item,
        spec_temp_deployment_key(req.multi_sig_account),
        req,
        peer_id,
        reply_to,
        deployment_id,
    )
}

/// Finishes the storing of a slice: the deployment id is remembered under
/// `deployment_key` for 6000 seconds, the item's state becomes
/// [`StoreItemState::Deployed`], the id goes to the delegator `peer_id` as
/// the receipt, and the delegator's request is acknowledged.
pub fn acknowledge_deployment(
    item: InitialPinnerStoreItem,
    deployment_key: String,
    req: &TaskPinnerKeySliceRequest,
    peer_id: &str,
    reply_to: &str,
    deployment_id: String,
) -> (step: Step<InitialPinnerStoreItem>)
    ensures
        step@ == spec_acknowledge_deployment(
            item@,
            deployment_key@,
            req@,
            peer_id@,
            reply_to@,
            deployment_id@,
        ),
{
    let ghost before = item@;
    let mut item = item;
    let mut actions: Vec<Action> = Vec::new();
    actions.push(
        Action::Remember {
            key: deployment_key,
            value: deployment_id.clone(),
            expires_s: RSA_KEY_EXPIRES_S,
        },
    );
    item.state = StoreItemState::Deployed;
    actions.push(
        send_message(
            peer_id,
            req.task_id.as_str(),
            Msg::TaskPinnerKeySliceResponse(
                TaskPinnerKeySliceResponse { task_id: req.task_id.clone(), deployment_id },
            ),
        ),
    );
    actions.push(reply(reply_to, "pinned key slice successfully"));
    let step = Step { item: Some(item), actions };
    assert(step@.actions =~= spec_acknowledge_deployment(
        before,
        deployment_key@,
        req@,
        peer_id@,
        reply_to@,
        deployment_id@,
    ).actions);
    step
}

/// Finishes the storing of a slice with the deployment id that the
/// attestation service returned. The id is remembered under the account's
/// [`get_temp_deployment_key`]; the rest is as [`acknowledge_deployment`]
/// says.
pub fn key_slice_deployed(
    item: InitialPinnerStoreItem,
    req: &TaskPinnerKeySliceRequest,
    peer_id: &str,
    reply_to: &str,
    deployment_id: String,
) -> (step: Step<InitialPinnerStoreItem>)
    requires
        encodable(req.multi_sig_account@.len()),
    ensures
        step@ == spec_key_slice_deployed(item@, req@, peer_id@, reply_to@, deployment_id@),
{
    acknowledge_deployment(
        item,
        get_temp_deployment_key(&req.multi_sig_account),
        req,
        peer_id,
        reply_to,
        deployment_id,
    )
}

/// What a node keeps and does when it accepts the invitation to be an
/// initial pinner.
pub open spec fn spec_accept_invitation(
    peer_id: Seq<char>,
    req: KeyGenerationCandidateRequestView,
    profile_peer_id: Seq<char>,
    rsa_pub_key: Seq<u8>,
) -> Result<StepView<InitialPinnerStoreItemView>, Error> {
    if peer_id != profile_peer_id {
        Err(Error::DelegatorMismatch)
    } else {
        match spec_from_parts(req.task_id, req.n, req.k, req.key_type) {
            Err(e) => Err(e),
            Ok(task_info) => Ok(
                StepView {
                    item: Some(
                        InitialPinnerStoreItemView { task_info, state: StoreItemState::Requested },
                    ),
                    actions: spec_key_generation_request(
                        peer_id,
                        task_info.task_id,
                        false,
                        rsa_pub_key,
                    ),
                },
            ),
        }
    }
}

/// Accepts the invitation to be an initial pinner of a key-generation task,
/// once its signature has been verified and the delegator's profile has
/// arrived. `profile_peer_id` is the peer that the delegator's ephemeral id
/// resolves to: it must be the sender `peer_id`. `rsa_pub_key` is the public
/// half of an RSA key pair minted for the task. The task's parameters are
/// validated, the application goes to the delegator, and the item is kept in
/// state [`StoreItemState::Requested`].
pub fn task_key_generation_candidate_request_handler(
    peer_id: String,
    req: KeyGenerationCandidateRequest,
    profile_peer_id: &str,
    rsa_pub_key: Vec<u8>,
) -> (r: Result<Step<InitialPinnerStoreItem>, Error>)
    ensures
        agrees(r, spec_accept_invitation(peer_id@, req@, profile_peer_id@, rsa_pub_key@)),
{
    match check_delegator_profile(peer_id.as_str(), profile_peer_id) {
        Ok(_) => {},
        Err(e) => {
            return Err(e);
        },
    }
    let mut store_item = match InitialPinnerStoreItem::from_candidate_request(req) {
        Ok(item) => item,
        Err(e) => {
            return Err(e);
        },
    };
    if !willing_to_run(&store_item) {
        return Ok(Step::idle());
    }
    match check_capabilities(&store_item) {
        Ok(_) => {},
        Err(_) => {
            return Ok(Step::idle());
        },
    }
    let actions = send_key_generation_request(
        peer_id.as_str(),
        &store_item.task_info,
        false,
        rsa_pub_key,
    );
    store_item.state = StoreItemState::Requested;
    Ok(Step { item: Some(store_item), actions })
}

/// Whether this node is willing to store a slice of the task. It always is.
pub fn willing_to_run(_item: &InitialPinnerStoreItem) -> (r: bool)
    ensures
        r,
{
    true
}

/// Whether this node is able to store a slice of the task. It always is.
pub fn check_capabilities(_item: &InitialPinnerStoreItem) -> (r: Result<(), Error>)
    ensures
        r is Ok,
{
    Ok(())
}

} // verus!
