//! A client library for the Network UPS Tools (NUT) network protocol
//! (version 1.2).
//!
//! The verified core covers the line-oriented wire codec (word vocabulary,
//! shell-word tokenizer and sentence catalog), the error taxonomy, the typed
//! variable model, the host-name parser, the transport-stream sum type with
//! its in-memory variant, and the request/response connection driver.

pub mod cmd;
pub mod config;
pub mod connection;
pub mod error;
pub mod host;
pub mod num;
pub mod sentences;
pub mod ssl;
pub mod stream;
pub mod text;
pub mod tokenizer;
pub mod var;
pub mod words;
