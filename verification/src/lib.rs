//! A tunnel that carries a byte stream over a secure, multiplexed transport,
//! with routing of incoming sessions by the name that the peer presents.
//!
//! The crate holds the decisions of the tunnel: which socket the client
//! takes, in which order a socket is set up, what a relay does with each
//! outcome of a read or a write, and to which backend a session goes. The
//! transport itself, the sockets and the event loop belong to the caller, who
//! performs each action that a state machine here asks for and hands back
//! what happened.

pub mod addr;
pub mod relay;
pub mod pump;
pub mod routing;
pub mod server;
pub mod error;
pub mod client;
pub mod unbound_udpsocket;
pub mod policy;
