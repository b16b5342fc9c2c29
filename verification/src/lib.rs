//! Sign-in against an identity provider through a loopback redirect, and the
//! request/response bridge to a remote document store, as verified logic on
//! plain values. Sockets, HTTP and RPC calls live with the caller, which hands
//! their results to the functions here.

pub mod text;
pub mod weburl;
pub mod headers;
pub mod provider;
pub mod redirect;
pub mod exchange;
pub mod session;
pub mod document;
pub mod store;
pub mod bridge;
pub mod stream;
