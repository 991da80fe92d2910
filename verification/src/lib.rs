//! Authentication, session lifecycle and resource authorization for a
//! group-chat service.
//!
//! The crate holds the decisions of the service and nothing of its transport:
//! every operation that needs the data store is a small state machine whose
//! step function says which request to send next and how to read the reply.
//!
//! States, queries and answers are plain data, and the contracts speak of
//! them as the values they are; of the records they carry, the contracts
//! speak by their views. What is expected of the store is a model in
//! [`store`], against which the laws of each module are proved.

pub mod chat;
pub mod crypto;
pub mod db;
pub mod error;
pub mod gate;
pub mod pages;
pub mod session;
pub mod store;
pub mod user;
