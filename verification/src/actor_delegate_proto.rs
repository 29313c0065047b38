//! Events from and calls to the ledger that registers tasks and their
//! results.

use vstd::prelude::*;
use crate::text::views;

verus! {

/// The parameters of a key-generation task and the nonce that addresses its
/// delegator.
#[derive(Debug, Clone, PartialEq)]
pub struct KeyGenerationData {
    pub n: u32,
    pub k: u32,
    pub key_type: String,
    pub delegator_tea_nonce_hash: Vec<u8>,
    pub delegator_tea_nonce_rsa_encryption: Vec<u8>,
}

/// What a [`KeyGenerationData`] holds, as plain values.
pub struct KeyGenerationDataView {
    pub n: u32,
    pub k: u32,
    pub key_type: Seq<char>,
    pub delegator_tea_nonce_hash: Seq<u8>,
    pub delegator_tea_nonce_rsa_encryption: Seq<u8>,
}

impl View for KeyGenerationData {
    type V = KeyGenerationDataView;

    open spec fn view(&self) -> KeyGenerationDataView {
        KeyGenerationDataView {
            n: self.n,
            k: self.k,
            key_type: self.key_type@,
            delegator_tea_nonce_hash: self.delegator_tea_nonce_hash@,
            delegator_tea_nonce_rsa_encryption: self.delegator_tea_nonce_rsa_encryption@,
        }
    }
}
/// The ledger's announcement of a key-generation task.
#[derive(Debug, Clone, PartialEq)]
pub struct KeyGenerationResponse {
    pub task_id: Vec<u8>,
    pub data_adhoc: KeyGenerationData,
    pub p1_public_key: Vec<u8>,
}

/// What a [`KeyGenerationResponse`] holds, as plain values.
pub struct KeyGenerationResponseView {
    pub task_id: Seq<u8>,
    pub data_adhoc: KeyGenerationDataView,
    pub p1_public_key: Seq<u8>,
}

impl View for KeyGenerationResponse {
    type V = KeyGenerationResponseView;

    open spec fn view(&self) -> KeyGenerationResponseView {
        KeyGenerationResponseView {
            task_id: self.task_id@,
            data_adhoc: self.data_adhoc@,
            p1_public_key: self.p1_public_key@,
        }
    }
}
/// The data to sign and the nonce that addresses the delegator.
#[derive(Debug, Clone, PartialEq)]
pub struct SignTransactionData {
    pub transaction_data: Vec<u8>,
    pub delegator_tea_nonce_hash: Vec<u8>,
    pub delegator_tea_nonce_rsa_encryption: Vec<u8>,
}

/// What a [`SignTransactionData`] holds, as plain values.
pub struct SignTransactionDataView {
    pub transaction_data: Seq<u8>,
    pub delegator_tea_nonce_hash: Seq<u8>,
    pub delegator_tea_nonce_rsa_encryption: Seq<u8>,
}

impl View for SignTransactionData {
    type V = SignTransactionDataView;

    open spec fn view(&self) -> SignTransactionDataView {
        SignTransactionDataView {
            transaction_data: self.transaction_data@,
            delegator_tea_nonce_hash: self.delegator_tea_nonce_hash@,
            delegator_tea_nonce_rsa_encryption: self.delegator_tea_nonce_rsa_encryption@,
        }
    }
}
/// The ledger's announcement of a signing task.
#[derive(Debug, Clone, PartialEq)]
pub struct SignTransactionResponse {
    pub task_id: Vec<u8>,
    pub data_adhoc: SignTransactionData,
    pub p1_signature: Vec<u8>,
    pub multi_sig_account: Vec<u8>,
}

/// What a [`SignTransactionResponse`] holds, as plain values.
pub struct SignTransactionResponseView {
    pub task_id: Seq<u8>,
    pub data_adhoc: SignTransactionDataView,
    pub p1_signature: Seq<u8>,
    pub multi_sig_account: Seq<u8>,
}

impl View for SignTransactionResponse {
    type V = SignTransactionResponseView;

    open spec fn view(&self) -> SignTransactionResponseView {
        SignTransactionResponseView {
            task_id: self.task_id@,
            data_adhoc: self.data_adhoc@,
            p1_signature: self.p1_signature@,
            multi_sig_account: self.multi_sig_account@,
        }
    }
}
/// The deployments that hold the slices of an account's second key.
#[derive(Debug, Clone, PartialEq)]
pub struct AssetInfo {
    pub p2_deployment_ids: Vec<String>,
}

/// What a [`AssetInfo`] holds, as plain values.
pub struct AssetInfoView {
    pub p2_deployment_ids: Seq<Seq<char>>,
}

impl View for AssetInfo {
    type V = AssetInfoView;

    open spec fn view(&self) -> AssetInfoView {
        AssetInfoView {
            p2_deployment_ids: views(self.p2_deployment_ids@),
        }
    }
}
/// The ledger's announcement that an account was registered.
#[derive(Debug, Clone, PartialEq)]
pub struct AssetGeneratedResponse {
    pub task_id: Vec<u8>,
    pub multi_sig_account: Vec<u8>,
    pub asset_info: AssetInfo,
}

/// What a [`AssetGeneratedResponse`] holds, as plain values.
pub struct AssetGeneratedResponseView {
    pub task_id: Seq<u8>,
    pub multi_sig_account: Seq<u8>,
    pub asset_info: AssetInfoView,
}

impl View for AssetGeneratedResponse {
    type V = AssetGeneratedResponseView;

    open spec fn view(&self) -> AssetGeneratedResponseView {
        AssetGeneratedResponseView {
            task_id: self.task_id@,
            multi_sig_account: self.multi_sig_account@,
            asset_info: self.asset_info@,
        }
    }
}
/// Asks the ledger for `limit` delegates, starting at `start`.
#[derive(Debug, Clone, PartialEq)]
pub struct GetDelegatesRequest {
    pub start: u32,
    pub limit: u32,
}

/// What a [`GetDelegatesRequest`] holds, as plain values.
pub struct GetDelegatesRequestView {
    pub start: u32,
    pub limit: u32,
}

impl View for GetDelegatesRequest {
    type V = GetDelegatesRequestView;

    open spec fn view(&self) -> GetDelegatesRequestView {
        GetDelegatesRequestView {
            start: self.start,
            limit: self.limit,
        }
    }
}
/// A delegate as the ledger lists it.
#[derive(Debug, Clone, PartialEq)]
pub struct Delegate {
    pub tea_id: Vec<u8>,
    pub peer_id: String,
}

/// What a [`Delegate`] holds, as plain values.
pub struct DelegateView {
    pub tea_id: Seq<u8>,
    pub peer_id: Seq<char>,
}

impl View for Delegate {
    type V = DelegateView;

    open spec fn view(&self) -> DelegateView {
        DelegateView {
            tea_id: self.tea_id@,
            peer_id: self.peer_id@,
        }
    }
}
/// The delegates that the ledger returned.
#[derive(Debug, Clone, PartialEq)]
pub struct GetDelegatesResponse {
    pub delegates: Vec<Delegate>,
}

/// What a [`GetDelegatesResponse`] holds, as plain values.
pub struct GetDelegatesResponseView {
    pub delegates: Seq<DelegateView>,
}

impl View for GetDelegatesResponse {
    type V = GetDelegatesResponseView;

    open spec fn view(&self) -> GetDelegatesResponseView {
        GetDelegatesResponseView {
            delegates: views(self.delegates@),
        }
    }
}
/// Asks the ledger for the deployments of an account.
#[derive(Debug, Clone, PartialEq)]
pub struct GetDeploymentIds {
    pub multi_sig_account: Vec<u8>,
}

/// What a [`GetDeploymentIds`] holds, as plain values.
pub struct GetDeploymentIdsView {
    pub multi_sig_account: Seq<u8>,
}

impl View for GetDeploymentIds {
    type V = GetDeploymentIdsView;

    open spec fn view(&self) -> GetDeploymentIdsView {
        GetDeploymentIdsView {
            multi_sig_account: self.multi_sig_account@,
        }
    }
}
/// The deployments of an account.
#[derive(Debug, Clone, PartialEq)]
pub struct GetDeploymentIdsResponse {
    pub asset_info: AssetInfo,
}

/// What a [`GetDeploymentIdsResponse`] holds, as plain values.
pub struct GetDeploymentIdsResponseView {
    pub asset_info: AssetInfoView,
}

impl View for GetDeploymentIdsResponse {
    type V = GetDeploymentIdsResponseView;

    open spec fn view(&self) -> GetDeploymentIdsResponseView {
        GetDeploymentIdsResponseView {
            asset_info: self.asset_info@,
        }
    }
}
/// The result of a key-generation task, as committed to the ledger.
#[derive(Debug, Clone, PartialEq)]
pub struct UpdateKeyGenerationResult {
    pub task_id: String,
    pub multi_sig_account: Vec<u8>,
    pub p2_public_key: Vec<u8>,
    pub deployment_ids: Vec<String>,
}

/// What a [`UpdateKeyGenerationResult`] holds, as plain values.
pub struct UpdateKeyGenerationResultView {
    pub task_id: Seq<char>,
    pub multi_sig_account: Seq<u8>,
    pub p2_public_key: Seq<u8>,
    pub deployment_ids: Seq<Seq<char>>,
}

impl View for UpdateKeyGenerationResult {
    type V = UpdateKeyGenerationResultView;

    open spec fn view(&self) -> UpdateKeyGenerationResultView {
        UpdateKeyGenerationResultView {
            task_id: self.task_id@,
            multi_sig_account: self.multi_sig_account@,
            p2_public_key: self.p2_public_key@,
            deployment_ids: views(self.deployment_ids@),
        }
    }
}
} // verus!
