//! The parameters of a task.

use vstd::prelude::*;

verus! {

/// How a secret is shared and what it is for: `n` shares, any `k` of which
/// recover it, for a key of kind `task_type`.
#[derive(Debug, Clone, PartialEq)]
pub struct ExecutionInfo {
    pub n: u8,
    pub k: u8,
    pub task_type: String,
}

/// What an [`ExecutionInfo`] holds, as plain values.
pub struct ExecutionInfoView {
    pub n: u8,
    pub k: u8,
    pub task_type: Seq<char>,
}

impl View for ExecutionInfo {
    type V = ExecutionInfoView;

    open spec fn view(&self) -> ExecutionInfoView {
        ExecutionInfoView { n: self.n, k: self.k, task_type: self.task_type@ }
    }
}

impl ExecutionInfoView {
    /// At least one share is needed, and fewer than all of them suffice.
    pub open spec fn valid(self) -> bool {
        1 <= self.k < self.n <= 255
    }
}

impl Default for ExecutionInfo {
    /// No shares, no threshold and no key kind: the parameters of a task
    /// whose real parameters are not known yet.
    fn default() -> (r: Self)
        ensures
            r@ == (ExecutionInfoView { n: 0, k: 0, task_type: Seq::<char>::empty() }),
    {
        ExecutionInfo { n: 0, k: 0, task_type: String::new() }
    }
}

impl ExecutionInfo {
    /// A copy of these parameters.
    pub fn duplicate(&self) -> (r: Self)
        ensures
            r@ == self@,
    {
        ExecutionInfo { n: self.n, k: self.k, task_type: self.task_type.clone() }
    }
}

} // verus!
