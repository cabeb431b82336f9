//! Request authentication gate and post/author resource handling for a small
//! HTTP backend, written as verified decision functions. The transport, the
//! token validator and the relational store are driven by the caller, which
//! hands their results to these functions.

pub mod auth;
pub mod service;
pub mod store;
pub mod laws;
