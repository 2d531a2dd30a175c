//! A publish/subscribe relay over websockets: the registries, the message
//! texts and the decision logic of each connection, with their contracts.

pub mod core_state;
pub mod reader;
pub mod session;
pub mod state;
pub mod store;
pub mod subscriber;
pub mod text;
