//! A task: its id and its parameters.

use vstd::prelude::*;
use crate::actor_delegate_proto::KeyGenerationResponse;
use crate::common::execution_info::{ExecutionInfo, ExecutionInfoView};
use crate::encoding::{base64_text, encodable, encode};
use crate::error::Error;
use crate::p2p_proto::{KeyGenerationCandidateRequest, SignCandidateRequest};

verus! {

/// A task as every role stores it.
#[derive(Debug, Clone, PartialEq)]
pub struct TaskInfo {
    pub task_id: String,
    pub exec_info: ExecutionInfo,
}

/// What a [`TaskInfo`] holds, as plain values.
pub struct TaskInfoView {
    pub task_id: Seq<char>,
    pub exec_info: ExecutionInfoView,
}

impl View for TaskInfo {
    type V = TaskInfoView;

    open spec fn view(&self) -> TaskInfoView {
        TaskInfoView { task_id: self.task_id@, exec_info: self.exec_info@ }
    }
}

/// What [`validate_task_info`] answers for the parameters `n` and `k`: `None`
/// where they are acceptable.
pub open spec fn spec_validate(n: u8, k: u8) -> Option<Error> {
    if n == 0 {
        Some(Error::InvalidN)
    } else if k == 0 || k >= n {
        Some(Error::InvalidK)
    } else {
        None
    }
}

/// The parameters are accepted exactly when they are valid.
pub proof fn lemma_validated_is_valid(info: ExecutionInfoView)
    ensures
        spec_validate(info.n, info.k) is None <==> info.valid(),
{
}

/// What is wrong with the counts `n` and `k` as they travel, in 32 bits:
/// `None` where `1 <= k < n <= 255`. An `n` that is zero or above 255 is
/// [`Error::InvalidN`]; otherwise a `k` that is zero or not below `n` is
/// [`Error::InvalidK`].
pub open spec fn spec_validate_counts(n: u32, k: u32) -> Option<Error> {
    if n == 0 || n > 255 {
        Some(Error::InvalidN)
    } else if k == 0 || k >= n {
        Some(Error::InvalidK)
    } else {
        None
    }
}

/// The task that [`TaskInfo::from_parts`] builds, or the reason why it
/// builds none.
pub open spec fn spec_from_parts(task_id: Seq<char>, n: u32, k: u32, key_type: Seq<char>) -> Result<
    TaskInfoView,
    Error,
> {
    match spec_validate_counts(n, k) {
        Some(e) => Err(e),
        None => Ok(
            TaskInfoView {
                task_id,
                exec_info: ExecutionInfoView { n: n as u8, k: k as u8, task_type: key_type },
            },
        ),
    }
}

/// A task is built from its parts exactly when `1 <= k < n <= 255`, and it
/// then holds these counts unchanged.
pub proof fn lemma_from_parts_valid(task_id: Seq<char>, n: u32, k: u32, key_type: Seq<char>)
    ensures
        spec_from_parts(task_id, n, k, key_type) is Ok <==> 1 <= k < n <= 255,
        spec_from_parts(task_id, n, k, key_type) is Ok ==> {
            let task = spec_from_parts(task_id, n, k, key_type)->Ok_0;
            &&& task.exec_info.valid()
            &&& task.exec_info.n == n
            &&& task.exec_info.k == k
            &&& task.task_id == task_id
            &&& task.exec_info.task_type == key_type
        },
{
}

/// Checks the counts of a task as they travel, in 32 bits, before they are
/// narrowed.
pub fn validate_counts(n: u32, k: u32) -> (r: Result<(), Error>)
    ensures
        match spec_validate_counts(n, k) {
            Some(e) => r == Err::<(), Error>(e),
            None => r == Ok::<(), Error>(()),
        },
{
    if n == 0 || n > 255 {
        return Err(Error::InvalidN);
    }
    if k == 0 || k >= n {
        return Err(Error::InvalidK);
    }
    Ok(())
}

/// Checks the parameters of a task: `1 <= k < n`. A zero `n` is
/// [`Error::InvalidN`]; otherwise a `k` that is zero or not below `n` is
/// [`Error::InvalidK`].
pub fn validate_execution_info(info: &ExecutionInfo) -> (r: Result<(), Error>)
    ensures
        match spec_validate(info.n, info.k) {
            Some(e) => r == Err::<(), Error>(e),
            None => r == Ok::<(), Error>(()),
        },
        r is Ok <==> info@.valid(),
{
    if info.n == 0 {
        return Err(Error::InvalidN);
    }
    if info.k == 0 || info.k >= info.n {
        return Err(Error::InvalidK);
    }
    Ok(())
}

/// Accepts a task whose parameters satisfy `1 <= k < n`, and hands it back
/// unchanged. A zero `n` is [`Error::InvalidN`]; otherwise a `k` that is zero
/// or not below `n` is [`Error::InvalidK`].
pub fn validate_task_info(info: TaskInfo) -> (r: Result<TaskInfo, Error>)
    ensures
        match spec_validate(info.exec_info.n, info.exec_info.k) {
            Some(e) => r == Err::<TaskInfo, Error>(e),
            None => r == Ok::<TaskInfo, Error>(info),
        },
        r is Ok <==> info@.exec_info.valid(),
{
    match validate_execution_info(&info.exec_info) {
        Ok(_) => Ok(info),
        Err(e) => Err(e),
    }
}

impl TaskInfo {
    /// A copy of the task.
    pub fn duplicate(&self) -> (r: Self)
        ensures
            r@ == self@,
    {
        TaskInfo { task_id: self.task_id.clone(), exec_info: self.exec_info.duplicate() }
    }

    /// The task with the given id and parameters. Counts outside
    /// `1 <= k < n <= 255` are refused; they are narrowed only once they are
    /// known to fit.
    pub fn from_parts(task_id: String, n: u32, k: u32, key_type: String) -> (r: Result<Self, Error>)
        ensures
            match r {
                Ok(info) => spec_from_parts(task_id@, n, k, key_type@) == Ok::<TaskInfoView, Error>(
                    info@,
                ),
                Err(e) => spec_from_parts(task_id@, n, k, key_type@) == Err::<TaskInfoView, Error>(e),
            },
            r is Ok <==> 1 <= k < n <= 255,
            r matches Ok(info) ==> info@.exec_info.valid() && info.exec_info.n == n
                && info.exec_info.k == k,
    {
        match validate_counts(n, k) {
            Ok(_) => {},
            Err(e) => {
                return Err(e);
            },
        }
        Ok(TaskInfo { task_id, exec_info: ExecutionInfo { n: n as u8, k: k as u8, task_type: key_type } })
    }

    /// The task that a candidate request describes. Its parameters are
    /// validated.
    pub fn from_candidate_request(value: KeyGenerationCandidateRequest) -> (r: Result<Self, Error>)
        ensures
            match r {
                Ok(info) => spec_from_parts(value.task_id@, value.n, value.k, value.key_type@)
                    == Ok::<TaskInfoView, Error>(info@),
                Err(e) => spec_from_parts(value.task_id@, value.n, value.k, value.key_type@)
                    == Err::<TaskInfoView, Error>(e),
            },
            r is Ok <==> 1 <= value.k < value.n <= 255,
            r matches Ok(info) ==> info@.exec_info.valid() && info.exec_info.n == value.n
                && info.exec_info.k == value.k,
    {
        TaskInfo::from_parts(value.task_id, value.n, value.k, value.key_type)
    }

    /// The task that a signing invitation names. The invitation carries no
    /// parameters: they stay unset until the ledger has been asked.
    pub fn from_sign_candidate_request(value: SignCandidateRequest) -> (r: Self)
        ensures
            r@ == (TaskInfoView {
                task_id: value.task_id@,
                exec_info: ExecutionInfoView { n: 0, k: 0, task_type: Seq::<char>::empty() },
            }),
    {
        TaskInfo { task_id: value.task_id, exec_info: ExecutionInfo::default() }
    }

    /// The task that the ledger announced. Its id is the base64 text of the
    /// announced id; its parameters are validated.
    pub fn from_key_generation_event(value: KeyGenerationResponse) -> (r: Result<Self, Error>)
        requires
            encodable(value.task_id@.len()),
        ensures
            match r {
                Ok(info) => spec_from_parts(
                    base64_text(value.task_id@),
                    value.data_adhoc.n,
                    value.data_adhoc.k,
                    value.data_adhoc.key_type@,
                ) == Ok::<TaskInfoView, Error>(info@),
                Err(e) => spec_from_parts(
                    base64_text(value.task_id@),
                    value.data_adhoc.n,
                    value.data_adhoc.k,
                    value.data_adhoc.key_type@,
                ) == Err::<TaskInfoView, Error>(e),
            },
            r is Ok <==> 1 <= value.data_adhoc.k < value.data_adhoc.n <= 255,
            r matches Ok(info) ==> info@.exec_info.valid() && info.exec_info.n
                == value.data_adhoc.n && info.exec_info.k == value.data_adhoc.k,
    {
        let task_id = encode(&value.task_id);
        TaskInfo::from_parts(task_id, value.data_adhoc.n, value.data_adhoc.k, value.data_adhoc.key_type)
    }
}

} // verus!
