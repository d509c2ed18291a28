//! A gateway core that frames DoIP (ISO 13400) messages carrying UDS (ISO 14229)
//! requests, validates diagnostic requests, interprets routing-activation
//! responses and keeps a registry of live diagnostic sessions.

pub mod codec;
pub mod hex;
pub mod uds;
pub mod registry;
pub mod gateway;
