//! The ways in which a step of the protocol can fail.

use vstd::prelude::*;
use crate::text::text;

verus! {

/// Why a handler refused an event. A refused event changes no stored state
/// and causes no outbound action.
#[derive(Debug, Clone, Copy, PartialEq, Eq, Structural)]
pub enum Error {
    /// The share count `n` of a task is zero.
    InvalidN,
    /// The threshold `k` of a task is zero or not below `n`.
    InvalidK,
    /// The signature of a candidate request does not verify.
    InvalidSignature,
    /// The sender of a candidate request is not the peer that the
    /// delegator's ephemeral id resolves to.
    DelegatorMismatch,
    /// No item is stored for the task.
    TaskNotFound,
    /// An attestation result carries no task id.
    MissingTaskId,
    /// An attestation result carries no RSA public key.
    MissingRsaPublicKey,
    /// An attestation result for a pinner carries no deployment id.
    MissingDeploymentId,
    /// A property that should hold base64 text does not.
    InvalidEncoding,
    /// An executor was to be elected from an empty pool.
    NoCandidateExecutor,
    /// The election left no executor or the wrong number of initial pinners.
    NotElected,
    /// The deployment id is not one of the task's deployments.
    UnknownDeployment,
    /// The result of a key generation lacks a key, the account or a receipt.
    ResultIncomplete,
    /// The number of key slices differs from the number of initial pinners.
    SliceCountMismatch,
    /// The deployment lacks its data id or its storage key.
    MissingDeploymentInfo,
    /// The data id remembered for an account is gone.
    MissingDataCid,
    /// The deployment id remembered for an account is gone.
    MissingDeploymentRecord,
    /// An attestation message carries no attestation result.
    MissingChallengeItem,
    /// Too few candidates arrived in time, and the task is given up.
    CandidateTimeout,
    /// The RSA private key stashed for the task is gone: it has expired,
    /// and what was wrapped for it cannot be recovered.
    MissingRsaPrivateKey,
}

impl Error {
    /// The text of each error.
    pub open spec fn spec_message(self) -> Seq<char> {
        match self {
            Error::InvalidN => "invalid value n"@,
            Error::InvalidK => "invalid value k"@,
            Error::InvalidSignature => "invalid signature in candidate"@,
            Error::DelegatorMismatch => "invalid delegator: peer_id mismatch"@,
            Error::TaskNotFound => "can not find task"@,
            Error::MissingTaskId => "failed to get task id from ChallengeStoreItem"@,
            Error::MissingRsaPublicKey => "failed to get rsa public key from ChallengeStoreItem"@,
            Error::MissingDeploymentId => "failed to get deployment id from ChallengeStoreItem"@,
            Error::InvalidEncoding => "invalid base64 text"@,
            Error::NoCandidateExecutor => "candidate executor can not be empty"@,
            Error::NotElected => "executor request can not be constructed because the election did not complete"@,
            Error::UnknownDeployment => "deployment id does not exist"@,
            Error::ResultIncomplete => "the key generation result is incomplete"@,
            Error::SliceCountMismatch => "key slices and initial pinners differ in number"@,
            Error::MissingDeploymentInfo => "failed to get deployment info"@,
            Error::MissingDataCid => "failed to get data cid when commit data upload"@,
            Error::MissingDeploymentRecord => "failed to get deployment id when commit data upload"@,
            Error::MissingChallengeItem => "expect a ChallengeStoreItem field"@,
            Error::CandidateTimeout => "too few candidates arrived in time"@,
            Error::MissingRsaPrivateKey => "could not find the rsa private key of the task"@,
        }
    }

    /// A human-readable description of the error.
    pub fn message(&self) -> (r: String)
        ensures
            r@ == self.spec_message(),
    {
        match self {
            Error::InvalidN => text("invalid value n"),
            Error::InvalidK => text("invalid value k"),
            Error::InvalidSignature => text("invalid signature in candidate"),
            Error::DelegatorMismatch => text("invalid delegator: peer_id mismatch"),
            Error::TaskNotFound => text("can not find task"),
            Error::MissingTaskId => text("failed to get task id from ChallengeStoreItem"),
            Error::MissingRsaPublicKey => text("failed to get rsa public key from ChallengeStoreItem"),
            Error::MissingDeploymentId => text("failed to get deployment id from ChallengeStoreItem"),
            Error::InvalidEncoding => text("invalid base64 text"),
            Error::NoCandidateExecutor => text("candidate executor can not be empty"),
            Error::NotElected => text("executor request can not be constructed because the election did not complete"),
            Error::UnknownDeployment => text("deployment id does not exist"),
            Error::ResultIncomplete => text("the key generation result is incomplete"),
            Error::SliceCountMismatch => text("key slices and initial pinners differ in number"),
            Error::MissingDeploymentInfo => text("failed to get deployment info"),
            Error::MissingDataCid => text("failed to get data cid when commit data upload"),
            Error::MissingDeploymentRecord => text(
                "failed to get deployment id when commit data upload",
            ),
            Error::MissingChallengeItem => text("expect a ChallengeStoreItem field"),
            Error::CandidateTimeout => text("too few candidates arrived in time"),
            Error::MissingRsaPrivateKey => text("could not find the rsa private key of the task"),
        }
    }
}

} // verus!
