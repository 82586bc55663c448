//! Client library for a remote cloud sandbox service: the framed-RPC
//! envelope codec, the decisions that turn the agent's event streams into
//! typed results, endpoint derivation, credentials and error mapping.

pub mod config;
pub mod connect;
pub mod demux;
pub mod client;
pub mod commands;
pub mod envd;
pub mod error;
pub mod filesystem;
pub mod json_types;
pub mod proto;
pub mod pty;
pub mod text;
pub mod vnc;
