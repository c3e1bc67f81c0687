//! Core of a small user-directory service.
//!
//! Every request passes an authentication gate ([`auth`]) before its handler
//! runs. A handler dispatches one unit of blocking store work ([`bridge`])
//! and turns whatever came back into the response ([`handlers`],
//! [`response`]): a value under the operation's status, or the one
//! server-error status for a failure of any kind ([`failure`]).
//!
//! The transport and the store are not part of this crate. In their place
//! stand plain records ([`model`]) and an in-memory model of the connection
//! pool and the user table ([`pool`], [`store`]), against which whole
//! requests are served and reasoned about ([`service`]).

pub mod auth;
pub mod bridge;
mod clock;
pub mod failure;
pub mod handlers;
pub mod model;
pub mod pool;
pub mod response;
pub mod service;
pub mod store;
