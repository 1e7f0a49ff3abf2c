//! Session layer of a STUN-style request/response/indication protocol.
//!
//! The library holds the decisions of the driver and server task loops as
//! verified state machines: the client-side command driver, the handler-side
//! dispatcher with its deferred-reply table, and the bind/run lifecycles of
//! UDP and TCP servers. The task plumbing that polls sockets and futures
//! feeds events into these machines and performs the actions they return.
pub mod addr;
pub mod channel;
pub mod client;
pub mod error;
pub mod server;
pub mod transport;
