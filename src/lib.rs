//! A verified "hello world" peer-to-peer protocol: the wire constants, the
//! per-connection handler state machine, the coordinator that relays handler
//! events, a model of whole polls with the properties that hold over runs of
//! them, and helpers for HTTP request paths and greeting routes.

pub mod codec;
pub mod coordinator;
pub mod cycle;
pub mod greet;
pub mod handler;
pub mod paths;
