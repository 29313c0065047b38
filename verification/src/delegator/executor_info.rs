//! The executor of a task, as the delegator knows it.

use vstd::prelude::*;
use crate::text::copy_bytes;

verus! {

/// A peer that applied as executor, with the RSA public key that it minted
/// for the task.
#[derive(Debug, Clone, PartialEq)]
pub struct ExecutorInfo {
    pub peer_id: String,
    pub rsa_pub_key: Vec<u8>,
}

/// What an [`ExecutorInfo`] holds, as plain values.
pub struct ExecutorInfoView {
    pub peer_id: Seq<char>,
    pub rsa_pub_key: Seq<u8>,
}

impl View for ExecutorInfo {
    type V = ExecutorInfoView;

    open spec fn view(&self) -> ExecutorInfoView {
        ExecutorInfoView { peer_id: self.peer_id@, rsa_pub_key: self.rsa_pub_key@ }
    }
}

impl ExecutorInfo {
    /// A copy of this record.
    pub fn duplicate(&self) -> (r: Self)
        ensures
            r@ == self@,
    {
        ExecutorInfo { peer_id: self.peer_id.clone(), rsa_pub_key: copy_bytes(&self.rsa_pub_key) }
    }
}

} // verus!
