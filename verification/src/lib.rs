//! A Matrix self-bot: the decisions it makes about incoming messages,
//! commands, configuration and log lines, with their contracts.

pub mod text;
pub mod log;
pub mod reply;
pub mod context;
pub mod cmds;
pub mod mxclient;
pub mod config;
