//! A small local HTTP front end: a routing table over static assets, the
//! JSON document handed to the browser client, and the decisions of the
//! connection acceptor. Sockets, the HTTP codec and the async runtime live
//! around this library; everything here is a pure function with a contract.

pub mod acceptor;
pub mod config;
pub mod json;
pub mod router;
pub mod text;
