//! The request that tells the elected executor what to do.

use vstd::prelude::*;
use crate::delegator::key_gen::store_item::DelegatorKeyGenStoreItem;
use crate::delegator::key_gen::ExecutorRequestConstructor;
use crate::error::Error;
use crate::p2p_proto::{
    TaskExecutionInitialPinnerData, TaskExecutionInitialPinnerDataView, TaskExecutionRequest,
};
use crate::text::copy_bytes;

verus! {

impl ExecutorRequestConstructor for DelegatorKeyGenStoreItem {
    /// Whether the election is complete: there is an executor, and exactly
    /// `n` initial pinners.
    fn ready(&self) -> (r: bool)
        ensures
            r == self@.request_ready(),
    {
        self.request_ready()
    }

    /// Builds the request that is sent to the elected executor: the task,
    /// the elected initial pinners with their keys, the threshold `k`, the
    /// key type and the first public key.
    fn generate(&self) -> (r: Result<TaskExecutionRequest, Error>)
        ensures
            r is Ok,
            r->Ok_0@ == self@.execution_request(),
    {
        let mut initial_pinners: Vec<TaskExecutionInitialPinnerData> = Vec::new();
        let mut i: usize = 0;
        while i < self.initial_pinners.len()
            invariant
                i <= self.initial_pinners@.len(),
                initial_pinners@.len() == i,
                forall|j: int|
                    0 <= j < i ==> initial_pinners@[j]@ == (TaskExecutionInitialPinnerDataView {
                        peer_id: self.initial_pinners@[j].peer_id@,
                        rsa_pub_key: self.initial_pinners@[j].rsa_pub_key@,
                    }),
            decreases self.initial_pinners@.len() - i,
        {
            initial_pinners.push(
                TaskExecutionInitialPinnerData {
                    peer_id: self.initial_pinners[i].peer_id.clone(),
                    rsa_pub_key: copy_bytes(&self.initial_pinners[i].rsa_pub_key),
                },
            );
            i = i + 1;
        }
        let request = TaskExecutionRequest {
            task_id: self.task_info.task_id.clone(),
            initial_pinners,
            minimum_recovery_number: self.task_info.exec_info.k as u32,
            key_type: self.task_info.exec_info.task_type.clone(),
            p1_public_key: copy_bytes(&self.p1_public_key),
        };
        assert(request@.initial_pinners =~= self@.execution_request().initial_pinners);
        Ok(request)
    }
}

} // verus!
