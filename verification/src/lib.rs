//! Tools for reading partitioned, offset-addressed message-queue topics:
//! the configuration model, the line formatter and the bounded consumption
//! engine behind the `head`, `tail`, `ls` and `echo` commands.

pub mod base;
pub mod broker;
pub mod cli;
pub mod consumer;
pub mod decimal;
pub mod format;
pub mod message;
pub mod text;
pub mod topics;
pub mod trace;
