//! What every role shares: the description of a task, the signed invitation
//! of candidates and the property bags of attestation requests.

pub mod execution_info;
pub mod key_generation;
pub mod task_info;
pub mod utils;

pub use execution_info::ExecutionInfo;
pub use key_generation::{
    decrypt_key_slice, send_key_candidate_request, send_key_generation_request,
    verify_to_candidate_signature,
};
pub use task_info::TaskInfo;
