//! A dynamic name service: a table from hostnames to addresses that is
//! changed while the service runs, and a responder that answers DNS
//! queries from that table.

pub mod cache;
pub mod message;
pub mod responder;
pub mod wire;
