//! A line-oriented bridge between a supervising process and an order-book
//! exchange client: the command model, the authentication probe, the order
//! pipeline and the response envelope, as a state machine whose host performs
//! the remote calls.

pub mod command;
pub mod exchange;
pub mod json;
pub mod laws;
pub mod line;
pub mod machine;
pub mod response;
pub mod run_id;
pub mod settings;
pub mod signature;
pub mod text;
