//! Decision logic of a command-line client for a remote ML platform.
//!
//! The heart of the crate is the chunked dataset upload engine:
//!
//! - [`plan`] turns a file size into the number and size of upload parts;
//! - [`part`] says which bytes a part holds and cuts a part into the
//!   sub-chunks in which it is transferred;
//! - [`session`] is the state machine that drives a remote upload session
//!   from its first progress event to completion or abort, and
//!   [`session_laws`] proves what holds of every run of it;
//! - [`event`] holds what a session reports.
//!
//! Around it stand the smaller decisions of the client: settings
//! ([`config`], [`prompt`]), names and keys ([`naming`]), the values of the
//! API ([`client`], [`rest_types`], [`status`]), recipe schemas
//! ([`json_schema`]), project files ([`pyproject`]), and the texts of the
//! job views ([`jobs`], [`text`]).
//!
//! Everything here is pure: callers perform the I/O and hand plain values
//! in and out.

pub mod client;
pub mod config;
pub mod event;
pub mod jobs;
pub mod json_schema;
pub mod naming;
pub mod part;
pub mod plan;
pub mod prompt;
pub mod pyproject;
pub mod rest_types;
pub mod session;
pub mod session_laws;
pub mod status;
pub mod text;
