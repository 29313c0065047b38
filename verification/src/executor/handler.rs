//! The executor's entry points.

pub use super::{
    key_gen::{task_execution_request_handler, task_key_generation_candidate_request_handler},
    sign::{process_sign_with_key_slices_handler, task_sign_with_key_slices_response_handler},
    store_item::{ExecutorStoreItem, StoreItemState},
};
