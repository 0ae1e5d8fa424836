//! Authentication and proxy-gateway rules of the user service.
//!
//! The crate holds the decisions of the gateway: how passwords are checked,
//! how bearer tokens are issued and verified, how a request is authorised,
//! how a task operation is turned into a call of the task service and how
//! the reply is turned into a response. Sockets, the database and the
//! runtime stay with the caller, which hands in what it read and performs
//! what these functions return.

pub mod common;
pub mod proto;
pub mod tasks;
pub mod password;
pub mod token;
pub mod auth;
pub mod startup;
