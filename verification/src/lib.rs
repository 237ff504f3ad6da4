//! A verified core for a metrics protocol gateway.
//!
//! The gateway holds one long-lived channel to an upstream metrics
//! producer and translates each inbound plain-text scrape request into
//! one unary RPC call, returning the payload verbatim as the HTTP body.
//! This crate holds the gateway's decision logic — request translation,
//! startup fail-fast rules, compression negotiation, configuration
//! defaults — and a model of the producer's scrape method, all with
//! machine-checked contracts. Network transport, argument parsing and
//! process bootstrap live outside the library.

pub mod config;
pub mod gateway;
pub mod numerals;
pub mod producer;
pub mod startup;
