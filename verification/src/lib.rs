//! The rules of a device-side agent: how a machine is provisioned and
//! deprovisioned, how its messaging client authenticates and connects, how
//! HTTP requests that arrive over the message bus are put together again
//! and handed to a server on the machine, and in which order the services
//! of the agent are started.
//!
//! Nothing in this crate touches the network or the disk but the key-value
//! store. Every operation that needs either is a state machine here: it
//! names the next action, the caller performs it and reports what came of
//! it.

pub mod agent;
pub mod app_services;
pub mod channel;
pub mod cli;
pub mod codec;
pub mod constants;
pub mod digest;
pub mod errors;
pub mod events;
pub mod headers;
pub mod http;
pub mod identity;
pub mod key_value_store;
pub mod messaging;
pub mod provisioning;
pub mod telemetry;
pub mod text;
