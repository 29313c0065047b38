//! How the events of the ledger reach the roles.

pub mod layer1_events;

pub use layer1_events::{key_generation_request_handler, sign_with_key_slices_handler};
