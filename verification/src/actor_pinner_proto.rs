//! Messages exchanged with the attestation service.

use vstd::prelude::*;
use crate::text::{option_view, views};

verus! {

/// One property of an attestation request: a key and its value.
#[derive(Debug, Clone, PartialEq)]
pub struct PropertyKeyPair {
    pub key: String,
    pub value: String,
}

/// What a [`PropertyKeyPair`] holds, as plain values.
pub struct PropertyKeyPairView {
    pub key: Seq<char>,
    pub value: Seq<char>,
}

impl View for PropertyKeyPair {
    type V = PropertyKeyPairView;

    open spec fn view(&self) -> PropertyKeyPairView {
        PropertyKeyPairView {
            key: self.key@,
            value: self.value@,
        }
    }
}
/// What the attestation service hands back once a peer is attested: its own
/// id of the exchange and the properties that the request carried.
#[derive(Debug, Clone, PartialEq)]
pub struct ChallengeStoreItem {
    pub uuid: String,
    pub properties: Vec<PropertyKeyPair>,
}

/// What a [`ChallengeStoreItem`] holds, as plain values.
pub struct ChallengeStoreItemView {
    pub uuid: Seq<char>,
    pub properties: Seq<PropertyKeyPairView>,
}

impl View for ChallengeStoreItem {
    type V = ChallengeStoreItemView;

    open spec fn view(&self) -> ChallengeStoreItemView {
        ChallengeStoreItemView {
            uuid: self.uuid@,
            properties: views(self.properties@),
        }
    }
}
/// Asks the attestation service to attest a peer.
#[derive(Debug, Clone, PartialEq)]
pub struct PeerApproveRaRequest {
    pub send_to_actor: String,
    pub peer_id: String,
    pub properties: Vec<PropertyKeyPair>,
}

/// What a [`PeerApproveRaRequest`] holds, as plain values.
pub struct PeerApproveRaRequestView {
    pub send_to_actor: Seq<char>,
    pub peer_id: Seq<char>,
    pub properties: Seq<PropertyKeyPairView>,
}

impl View for PeerApproveRaRequest {
    type V = PeerApproveRaRequestView;

    open spec fn view(&self) -> PeerApproveRaRequestView {
        PeerApproveRaRequestView {
            send_to_actor: self.send_to_actor@,
            peer_id: self.peer_id@,
            properties: views(self.properties@),
        }
    }
}
/// How many pinners of a deployment the attestation service should look for.
#[derive(Debug, Clone, Copy, PartialEq, Eq, Structural)]
pub enum FindingMode {
    /// Every pinner that answers.
    AsMuchAsPossible,
}

/// Asks the attestation service to find and attest the pinners of a
/// deployment.
#[derive(Debug, Clone, PartialEq)]
pub struct FindPinnersRequest {
    pub send_to_actor: String,
    pub deployment_id: String,
    pub properties: Vec<PropertyKeyPair>,
    pub delay_seconds: u64,
    pub finding_mode: FindingMode,
}

/// What a [`FindPinnersRequest`] holds, as plain values.
pub struct FindPinnersRequestView {
    pub send_to_actor: Seq<char>,
    pub deployment_id: Seq<char>,
    pub properties: Seq<PropertyKeyPairView>,
    pub delay_seconds: u64,
    pub finding_mode: FindingMode,
}

impl View for FindPinnersRequest {
    type V = FindPinnersRequestView;

    open spec fn view(&self) -> FindPinnersRequestView {
        FindPinnersRequestView {
            send_to_actor: self.send_to_actor@,
            deployment_id: self.deployment_id@,
            properties: views(self.properties@),
            delay_seconds: self.delay_seconds,
            finding_mode: self.finding_mode,
        }
    }
}
/// Asks whether this node accepts an attestation exchange.
#[derive(Debug, Clone, PartialEq)]
pub struct ServerCheckStrategy {
    pub item: Option<ChallengeStoreItem>,
}

/// What a [`ServerCheckStrategy`] holds, as plain values.
pub struct ServerCheckStrategyView {
    pub item: Option<ChallengeStoreItemView>,
}

impl View for ServerCheckStrategy {
    type V = ServerCheckStrategyView;

    open spec fn view(&self) -> ServerCheckStrategyView {
        ServerCheckStrategyView {
            item: option_view(self.item),
        }
    }
}
/// The answer to a [`ServerCheckStrategy`].
#[derive(Debug, Clone, PartialEq)]
pub struct ServerCheckStrategyResult {
    pub verify: bool,
    pub message: String,
}

/// What a [`ServerCheckStrategyResult`] holds, as plain values.
pub struct ServerCheckStrategyResultView {
    pub verify: bool,
    pub message: Seq<char>,
}

impl View for ServerCheckStrategyResult {
    type V = ServerCheckStrategyResultView;

    open spec fn view(&self) -> ServerCheckStrategyResultView {
        ServerCheckStrategyResultView {
            verify: self.verify,
            message: self.message@,
        }
    }
}
/// Reports that a peer passed attestation.
#[derive(Debug, Clone, PartialEq)]
pub struct ClientOperationAfterVerify {
    pub peer_id: String,
    pub pinner_ephemeral_id: Vec<u8>,
    pub item: Option<ChallengeStoreItem>,
}

/// What a [`ClientOperationAfterVerify`] holds, as plain values.
pub struct ClientOperationAfterVerifyView {
    pub peer_id: Seq<char>,
    pub pinner_ephemeral_id: Seq<u8>,
    pub item: Option<ChallengeStoreItemView>,
}

impl View for ClientOperationAfterVerify {
    type V = ClientOperationAfterVerifyView;

    open spec fn view(&self) -> ClientOperationAfterVerifyView {
        ClientOperationAfterVerifyView {
            peer_id: self.peer_id@,
            pinner_ephemeral_id: self.pinner_ephemeral_id@,
            item: option_view(self.item),
        }
    }
}
/// Confirms an upload once its account is registered.
#[derive(Debug, Clone, PartialEq)]
pub struct CommitDataUploadRequest {
    pub deployment_id: String,
    pub cid_code: String,
    pub cid_description: String,
    pub cid_capchecker: String,
}

/// What a [`CommitDataUploadRequest`] holds, as plain values.
pub struct CommitDataUploadRequestView {
    pub deployment_id: Seq<char>,
    pub cid_code: Seq<char>,
    pub cid_description: Seq<char>,
    pub cid_capchecker: Seq<char>,
}

impl View for CommitDataUploadRequest {
    type V = CommitDataUploadRequestView;

    open spec fn view(&self) -> CommitDataUploadRequestView {
        CommitDataUploadRequestView {
            deployment_id: self.deployment_id@,
            cid_code: self.cid_code@,
            cid_description: self.cid_description@,
            cid_capchecker: self.cid_capchecker@,
        }
    }
}
/// Tells the attestation service which deployments belong to one account.
#[derive(Debug, Clone, PartialEq)]
pub struct UpdateConflictListRequest {
    pub key: Vec<u8>,
    pub deployment_ids: Vec<String>,
    pub current_items: Vec<String>,
    pub max_allowed: u32,
}

/// What a [`UpdateConflictListRequest`] holds, as plain values.
pub struct UpdateConflictListRequestView {
    pub key: Seq<u8>,
    pub deployment_ids: Seq<Seq<char>>,
    pub current_items: Seq<Seq<char>>,
    pub max_allowed: u32,
}

impl View for UpdateConflictListRequest {
    type V = UpdateConflictListRequestView;

    open spec fn view(&self) -> UpdateConflictListRequestView {
        UpdateConflictListRequestView {
            key: self.key@,
            deployment_ids: views(self.deployment_ids@),
            current_items: views(self.current_items@),
            max_allowed: self.max_allowed,
        }
    }
}
/// Reports a finished upload and the wrapped key that opens it.
#[derive(Debug, Clone, PartialEq)]
pub struct DataUploadCompletedProcessRequest {
    pub cid_code: String,
    pub cid_description: String,
    pub cid_capchecker: String,
    pub key_url_encoded: String,
}

/// What a [`DataUploadCompletedProcessRequest`] holds, as plain values.
pub struct DataUploadCompletedProcessRequestView {
    pub cid_code: Seq<char>,
    pub cid_description: Seq<char>,
    pub cid_capchecker: Seq<char>,
    pub key_url_encoded: Seq<char>,
}

impl View for DataUploadCompletedProcessRequest {
    type V = DataUploadCompletedProcessRequestView;

    open spec fn view(&self) -> DataUploadCompletedProcessRequestView {
        DataUploadCompletedProcessRequestView {
            cid_code: self.cid_code@,
            cid_description: self.cid_description@,
            cid_capchecker: self.cid_capchecker@,
            key_url_encoded: self.key_url_encoded@,
        }
    }
}
} // verus!
