//! A client for a chat workspace's HTTP API, written as verified decisions.
//!
//! The library never touches the network. Each operation is a session that
//! names the next HTTP call to make and, given what came back, either names
//! the following call or ends with a result. Whoever drives a session performs
//! the calls.
//!
//! - `slack` starts the operations: posting a message, uploading an image,
//!   sharing one image, sharing a batch of images.
//! - `session` carries an operation from one call to the next.
//! - `call` says what each call is as an HTTP request; `http` holds requests
//!   and outcomes as plain values.
//! - `payload` and `reply` write the JSON bodies of requests and read those of
//!   responses, through `serde_json`, which `json` gives its contracts.
//! - `run` says what a run of an operation is, and replays one on paper;
//!   `laws` states what holds of every run.

pub mod call;
pub mod config;
pub mod decimal;
pub mod error;
pub mod http;
pub mod json;
pub mod laws;
pub mod payload;
pub mod reply;
pub mod run;
pub mod session;
pub mod slack;
