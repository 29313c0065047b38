//! A pinner's part in signing.
//!
//! Asked for the slice of a deployment, the pinner looks the deployment up,
//! fetches the blob, decrypts it with the deployment's AES key and wraps the
//! slice with the executor's RSA key. Looking up, fetching, decrypting and
//! wrapping are the embedding program's work; what must be there and what is
//! answered is decided here.

use vstd::prelude::*;
use crate::action::{reply, send_message, Action, ActionView};
use crate::error::Error;
use crate::p2p_proto::{
    GeneralMsgView, Msg, MsgView, TaskSignGetPinnerKeySliceRequest,
    TaskSignGetPinnerKeySliceRequestView, TaskSignGetPinnerKeySliceResponse,
    TaskSignGetPinnerKeySliceResponseView,
};
use crate::text::{option_view, views};

verus! {

/// What is needed of a deployment to serve its slice: the id of the blob
/// and the AES key that opens it.
pub open spec fn spec_deployment_info(data_cid: Option<Seq<char>>, key1: Option<Seq<u8>>) -> Result<
    (Seq<char>, Seq<u8>),
    Error,
> {
    if key1 is None || data_cid is None {
        Err(Error::MissingDeploymentInfo)
    } else {
        Ok((data_cid->0, key1->0))
    }
}

/// Checks what the attestation service knows of a deployment: the id of the
/// blob and the AES key must both be there.
pub fn deployment_info(data_cid: Option<String>, key1: Option<Vec<u8>>) -> (r: Result<
    (String, Vec<u8>),
    Error,
>)
    ensures
        match r {
            Ok(info) => spec_deployment_info(option_view(data_cid), option_view(key1)) == Ok::<
                (Seq<char>, Seq<u8>),
                Error,
            >((info.0@, info.1@)),
            Err(e) => spec_deployment_info(option_view(data_cid), option_view(key1)) == Err::<
                (Seq<char>, Seq<u8>),
                Error,
            >(e),
        },
{
    let key1 = match key1 {
        Some(key1) => key1,
        None => {
            return Err(Error::MissingDeploymentInfo);
        },
    };
    let data_cid = match data_cid {
        Some(data_cid) => data_cid,
        None => {
            return Err(Error::MissingDeploymentInfo);
        },
    };
    Ok((data_cid, key1))
}

/// What a pinner does once the slice is wrapped for the executor.
pub open spec fn spec_task_sign_with_key_slices_request(
    req: TaskSignGetPinnerKeySliceRequestView,
    peer_id: Seq<char>,
    reply_to: Seq<char>,
    encrypted_key_slice: Seq<u8>,
) -> Seq<ActionView> {
    seq![
        ActionView::SendMessage {
            peer_id,
            task_id: req.task_id,
            msg: GeneralMsgView {
                msg: Some(
                    MsgView::TaskSignGetPinnerKeySliceResponse(
                        TaskSignGetPinnerKeySliceResponseView {
                            task_id: req.task_id,
                            encrypted_key_slice,
                            deployment_id: req.deployment_id,
                        },
                    ),
                ),
            },
        },
        ActionView::Reply { reply_to, body: "key slice returned"@ },
    ]
}

/// Serves the slice of a deployment. `encrypted_key_slice` is the slice,
/// wrapped with the RSA key of the request. It goes to the delegator
/// `peer_id` together with the task and the deployment, and the request is
/// acknowledged.
pub fn task_sign_with_key_slices_request_handler(
    req: TaskSignGetPinnerKeySliceRequest,
    peer_id: String,
    reply_to: String,
    encrypted_key_slice: Vec<u8>,
) -> (actions: Vec<Action>)
    ensures
        views(actions@) == spec_task_sign_with_key_slices_request(
            req@,
            peer_id@,
            reply_to@,
            encrypted_key_slice@,
        ),
{
    let mut actions: Vec<Action> = Vec::new();
    actions.push(
        send_message(
            peer_id.as_str(),
            req.task_id.as_str(),
            Msg::TaskSignGetPinnerKeySliceResponse(
                TaskSignGetPinnerKeySliceResponse {
                    task_id: req.task_id.clone(),
                    encrypted_key_slice,
                    deployment_id: req.deployment_id.clone(),
                },
            ),
        ),
    );
    actions.push(reply(reply_to.as_str(), "key slice returned"));
    assert(views(actions@) =~= spec_task_sign_with_key_slices_request(
        req@,
        peer_id@,
        reply_to@,
        encrypted_key_slice@,
    ));
    actions
}

} // verus!
