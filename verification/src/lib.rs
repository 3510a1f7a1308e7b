//! Balance service: the decisions of the transfer and transaction handlers,
//! the store writes they lead to, and the settings read at start-up.

pub mod structs;
pub mod text;
pub mod error_msgs;
pub mod decision;
pub mod transference_service;
pub mod transaction_service;
pub mod store_writes;
pub mod settings;
