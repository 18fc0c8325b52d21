//! Library of a Prometheus exporter for Enphase Envoy solar gateways.
//!
//! The crate holds the verified core of the exporter: the credential
//! exchange that turns a login and a serial number into a bearer token,
//! the decoder that turns the gateway's JSON telemetry into a typed
//! status record, and the scrape aggregator that walks the configured
//! systems and decides which metric values to publish, isolating one
//! system's failure from the others.

pub mod aggregator;
pub mod auth;
pub mod config;
pub mod envoy_reader;
pub mod fetch;
pub mod json;

