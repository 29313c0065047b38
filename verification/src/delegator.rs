//! The delegator: the node that coordinates a task.

pub mod admission;
pub mod executor_info;
pub mod handler;
pub mod key_gen;
pub mod sign;

pub use handler::{
    process_key_generation_event, process_sign_with_key_slices_event,
    task_commit_sign_result_request_handler, task_execution_response_handler,
    task_key_generation_apply_request_handler, task_pinner_key_slice_response_handler,
    task_sign_get_pinner_key_slice_response_handler, task_sign_with_key_slices_request_handler,
};
pub use key_gen::{
    is_key_gen_tag, operation_after_verify_handler as key_gen_operation_after_verify_handler,
};
pub use sign::{
    is_sign_tag, operation_after_verify_handler as sign_operation_after_verify_handler,
};
