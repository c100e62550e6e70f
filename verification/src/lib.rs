//! Real-time negotiation hub: session and room registries, the coordinator
//! that fans chat, notification and call-signalling frames out to live
//! connections, the per-connection protocol, and the notification rules.
//!
//! Everything here is pure state-transition logic with machine-checked
//! contracts. Sockets, actors and the database live with the caller: the
//! coordinator hands back the deliveries to perform, and the writers hand
//! back the storage steps to run.

pub mod errors;
pub mod models;
pub mod services;
