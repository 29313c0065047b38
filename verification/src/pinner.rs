//! The pinner: the node that holds a stored slice and serves it when the
//! account signs.

pub mod handler;

pub use handler::task_sign_with_key_slices_request_handler;
