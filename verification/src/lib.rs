//! An intercepting DNS forwarder, as a library of verified decisions.
//!
//! A worker hands each datagram it reads to a [`DnsProcessor`], which offers
//! client queries to a custom handler, forwards what the handler declines to
//! an upstream resolver under a rewritten transaction identifier, and matches
//! upstream replies back to the clients that asked. The library decides; the
//! program around it owns the socket and the threads.

pub mod action;
pub mod custom_handler;
pub mod dns_thread;
pub mod endpoint;
pub mod error;
pub mod id_range;
pub mod pending_queries;
pub mod server;
mod sharing;
pub mod wire;

pub use crate::custom_handler::{CustomHandler, EmptyHandler, HandlerHolder};
pub use crate::action::Action;
pub use crate::dns_thread::{DnsProcessor, ProcessingError};
pub use crate::endpoint::Endpoint;
pub use crate::error::{Error, Result};
pub use crate::server::{AnyDNS, Builder};
