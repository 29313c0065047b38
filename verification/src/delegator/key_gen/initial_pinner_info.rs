//! An initial pinner of a task, as the delegator knows it.

use vstd::prelude::*;
use crate::delegator::executor_info::{ExecutorInfo, ExecutorInfoView};

verus! {

/// A peer that applied as initial pinner, with the RSA public key that it
/// minted for the task.
#[derive(Debug, Clone, PartialEq)]
pub struct InitialPinnerInfo {
    pub peer_id: String,
    pub rsa_pub_key: Vec<u8>,
}

/// What an [`InitialPinnerInfo`] holds, as plain values.
pub struct InitialPinnerInfoView {
    pub peer_id: Seq<char>,
    pub rsa_pub_key: Seq<u8>,
}

impl View for InitialPinnerInfo {
    type V = InitialPinnerInfoView;

    open spec fn view(&self) -> InitialPinnerInfoView {
        InitialPinnerInfoView { peer_id: self.peer_id@, rsa_pub_key: self.rsa_pub_key@ }
    }
}

/// The initial pinner that a candidate executor becomes when it is promoted.
pub open spec fn as_pinner(exe: ExecutorInfoView) -> InitialPinnerInfoView {
    InitialPinnerInfoView { peer_id: exe.peer_id, rsa_pub_key: exe.rsa_pub_key }
}

impl From<ExecutorInfo> for InitialPinnerInfo {
    fn from(exe: ExecutorInfo) -> (r: Self)
        ensures
            r@ == as_pinner(exe@),
    {
        InitialPinnerInfo { peer_id: exe.peer_id, rsa_pub_key: exe.rsa_pub_key }
    }
}

impl vstd::std_specs::convert::FromSpecImpl<ExecutorInfo> for InitialPinnerInfo {
    open spec fn obeys_from_spec() -> bool {
        true
    }

    open spec fn from_spec(exe: ExecutorInfo) -> Self {
        InitialPinnerInfo { peer_id: exe.peer_id, rsa_pub_key: exe.rsa_pub_key }
    }
}

} // verus!
